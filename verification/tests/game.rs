use console_player::game::gamefile::GameFile;
use console_player::game::gamelist::GameList;
use console_player::game::{Activity, Game};

fn mario() -> Game {
    Game::builder().name(String::from("mario")).platform(String::from("Nintendo Switch")).build()
}

#[test]
fn generate_activity_test() {
    let name = String::from("mario");
    let small_key = String::from("small_key");
    let small_tooltip = String::from("small_tooltip");
    let large_key = String::from("large_key");
    let large_tooltip = String::from("large_tooltip");
    let platform = String::from("Nintendo Switch");

    let small_image = Game::builder()
        .name(name.clone())
        .small_image_key(small_key.clone())
        .small_image_tooltip(small_tooltip.clone())
        .platform(platform.clone())
        .build();
    let small_image_activity = Activity::from(&small_image);

    let large_image = Game::builder()
        .name(name.clone())
        .large_image_key(large_key.clone())
        .large_image_tooltip(large_tooltip.clone())
        .platform(platform.clone())
        .build();

    let large_image_activity = Activity::from(&large_image);

    assert_eq!(name, small_image.name());
    assert_eq!(name, small_image_activity.state());
    assert_eq!(small_key, small_image_activity.small_image_key());
    assert_eq!(small_tooltip, small_image_activity.small_image_tooltip());

    assert_eq!(name, large_image.name());
    assert_eq!(name, large_image_activity.state());
    assert_eq!(large_key, large_image_activity.large_image_key());
    assert_eq!(large_tooltip, large_image_activity.large_image_tooltip());
}

#[test]
fn game_generate_activity_test() {
    let name = String::from("mario");
    let small_key = String::from("small_key");
    let small_tooltip = String::from("small_tooltip");
    let large_key = String::from("large_key");
    let large_tooltip = String::from("large_tooltip");
    let platform = String::from("Nintendo Switch");

    let mut small_image = Game::builder()
        .name(name.clone())
        .small_image_key(small_key.clone())
        .small_image_tooltip(small_tooltip.clone())
        .platform(platform.clone())
        .build();
    small_image.generate_activity();

    let mut large_image = Game::builder()
        .name(name.clone())
        .large_image_key(large_key.clone())
        .large_image_tooltip(large_tooltip.clone())
        .platform(platform.clone())
        .build();
    large_image.generate_activity();

    assert_eq!(name, small_image.name());
    assert_eq!(name, small_image.activity().cloned().unwrap().state());
    assert_eq!(small_key, small_image.activity().cloned().unwrap().small_image_key());
    assert_eq!(small_tooltip, small_image.activity().unwrap().small_image_tooltip());

    assert_eq!(name, large_image.name());
    assert_eq!(name, large_image.activity().cloned().unwrap().state());
    assert_eq!(large_key, large_image.activity().cloned().unwrap().large_image_key());
    assert_eq!(large_tooltip, large_image.activity().unwrap().large_image_tooltip());
}

#[test]
fn game_default() {
    let default = Game::default();

    assert_eq!(default.name(), "Idle");
    assert_eq!(default.platform(), "No platform");
    assert_eq!(default.large_image_key(), None);
    assert_eq!(default.large_image_tooltip(), None);
    assert_eq!(default.small_image_key(), None);
    assert_eq!(default.small_image_tooltip(), None);
}

#[test]
fn game_game_default() {
    let default = Game::default();

    assert_eq!(default.name(), "Idle");
    assert_eq!(default.platform(), "No platform");
    assert_eq!(default.large_image_key(), None);
    assert_eq!(default.large_image_tooltip(), None);
    assert_eq!(default.small_image_key(), None);
    assert_eq!(default.small_image_tooltip(), None);
    assert_eq!(default.activity(), None);
}

#[test]
fn activity_of_a_bare_game_has_no_artwork() {
    let activity = mario().to_activity();
    assert_eq!(activity.state(), "mario");
    assert_eq!(activity.details(), "Nintendo Switch");
    assert_eq!(activity.large_image_key(), "");
    assert_eq!(activity.large_image_tooltip(), "");
    assert_eq!(activity.small_image_key(), "");
    assert_eq!(activity.small_image_tooltip(), "");
}

#[test]
fn activity_carries_all_artwork() {
    let game = Game::new(
        String::from("zelda"),
        String::from("Wii U"),
        Some(String::from("lk")),
        Some(String::from("lt")),
        Some(String::from("sk")),
        Some(String::from("st")),
    );
    let activity = Activity::from(&game);
    assert_eq!(activity.state(), "zelda");
    assert_eq!(activity.details(), "Wii U");
    assert_eq!(activity.large_image_key(), "lk");
    assert_eq!(activity.large_image_tooltip(), "lt");
    assert_eq!(activity.small_image_key(), "sk");
    assert_eq!(activity.small_image_tooltip(), "st");
    assert_eq!(activity.clone(), activity);
}

#[test]
fn empty_activity_is_blank() {
    let activity = Activity::empty();
    assert_eq!(activity.state(), "");
    assert_eq!(activity.details(), "");
    assert_eq!(activity, Game::new(String::new(), String::new(), None, None, None, None).to_activity());
}

#[test]
fn generate_activity_keeps_the_game() {
    let mut game = mario();
    assert_eq!(game.activity(), None);
    game.generate_activity();
    assert_eq!(game.name(), "mario");
    assert_eq!(game.platform(), "Nintendo Switch");
    assert_eq!(game.activity(), Some(&mario().to_activity()));
}

#[test]
fn game_views() {
    let game = mario();
    assert_eq!(game.two_line_view(), "mario\nNintendo Switch");
    assert_eq!(game.to_string(), "mario - Nintendo Switch");
    assert_eq!(Game::missing_platform(), "No platform");
    assert_eq!(Game::default().to_string(), "Idle - No platform");
}

#[test]
fn builder_takes_optional_artwork() {
    let game = Game::builder()
        .platform(String::from("p"))
        .maybe_large_image_key(Some(String::from("k")))
        .maybe_large_image_tooltip(None)
        .maybe_small_image_key(None)
        .maybe_small_image_tooltip(Some(String::from("t")))
        .name(String::from("n"))
        .build();
    assert_eq!(
        game,
        Game::new(
            String::from("n"),
            String::from("p"),
            Some(String::from("k")),
            None,
            None,
            Some(String::from("t")),
        )
    );
    assert_eq!(game.clone(), game);
}

#[test]
fn game_list_push_get_remove() {
    let mut list = GameList::default();
    assert_eq!(list.len(), 0);
    assert_eq!(list.get(0), None);
    list.push(mario());
    list.push(Game::default());
    assert_eq!(list.len(), 2);
    assert_eq!(list.get(0), Some(&mario()));
    assert_eq!(list.get(1), Some(&Game::default()));
    assert_eq!(list.get(2), None);
    assert_eq!(list.clone_inner(), vec![mario(), Game::default()]);

    let removed = list.remove(0);
    assert_eq!(removed, mario());
    assert_eq!(list.clone_inner(), vec![Game::default()]);
}

#[test]
fn game_list_get_mut_changes_in_place() {
    let mut list = GameList::from(vec![mario(), mario()]);
    match list.get_mut(1) {
        Some(game) => *game = Game::default(),
        None => panic!("the second game is there"),
    }
    assert!(list.get_mut(2).is_none());
    assert_eq!(list.clone_inner(), vec![mario(), Game::default()]);
}

#[test]
fn game_file_holds_games_and_path() {
    let file = GameFile::new(Some(String::from("/home/u/games.toml")), vec![mario()]);
    assert_eq!(file.path(), Some(&String::from("/home/u/games.toml")));
    assert_eq!(file.game_iter(), &vec![mario()]);
    assert_eq!(file.owned_game_iter(), vec![mario()]);
    assert_eq!(GameFile::CONFIG_FILE, ".config/consoleplayergames.toml");

    let mut list = GameList::default();
    list.push(Game::default());
    let from_list = GameFile::from_list(String::from("p"), &list);
    assert_eq!(from_list.owned_game_iter(), vec![Game::default()]);
    assert_eq!(from_list.path(), Some(&String::from("p")));

    let mut file = file;
    file.update(&list);
    assert_eq!(file.owned_game_iter(), vec![Game::default()]);
    assert_eq!(file.path(), Some(&String::from("/home/u/games.toml")));
}
