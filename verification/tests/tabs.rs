use console_player::config::{Config, VarError};
use console_player::discord::client_id;
use console_player::discord::event_handler::EventHandler;
use console_player::text::parse_i64;
use console_player::error::Error;
use console_player::game::gamefile::GameFile;
use console_player::game::gamelist::GameList;
use console_player::game::Game;
use console_player::tui::data::Data;
use console_player::tui::input::Input;
use console_player::tui::state::State;
use console_player::tui::tabs::Tabs;
use console_player::tui::widgets::Controls;
use console_player::tui::Tui;
use console_player::widgets::game_widget::GameWidget;
use ratatui::widgets::ListState;

#[test]
fn tabs_move_and_stop_at_the_ends() {
    assert_eq!(Tabs::default(), Tabs::Selecting);
    assert_eq!(Tabs::Selecting.previous(), Tabs::Selecting);
    assert_eq!(Tabs::Selecting.next(), Tabs::Adding);
    assert_eq!(Tabs::Adding.previous(), Tabs::Selecting);
    assert_eq!(Tabs::Adding.next(), Tabs::Editing);
    assert_eq!(Tabs::Editing.previous(), Tabs::Adding);
    assert_eq!(Tabs::Editing.next(), Tabs::Editing);
}

#[test]
fn tabs_have_places_and_titles() {
    assert_eq!(Tabs::from_repr(0), Some(Tabs::Selecting));
    assert_eq!(Tabs::from_repr(1), Some(Tabs::Adding));
    assert_eq!(Tabs::from_repr(2), Some(Tabs::Editing));
    assert_eq!(Tabs::from_repr(3), None);
    assert_eq!(Tabs::from_repr(usize::MAX), None);
    assert_eq!(Tabs::Editing.to_repr(), 2);
    assert_eq!(Tabs::Selecting.to_string(), "Selecting");
    assert_eq!(Tabs::Adding.to_string(), "Add");
    assert_eq!(Tabs::Editing.to_string(), "Edit");
}

#[test]
fn tabbed_screen_states() {
    let states = [
        State::NotConnected,
        State::Selection,
        State::Adding(Input::default()),
        State::Editing(Input::default()),
        State::Quiting,
    ];
    let answers: Vec<[bool; 5]> = states
        .iter()
        .map(|s| {
            [s.is_not_connected(), s.is_adding(), s.is_editing(), s.is_selecting(), s.is_quiting()]
        })
        .collect();
    assert_eq!(
        answers,
        vec![
            [true, false, false, false, false],
            [false, true, false, false, false],
            [false, false, true, false, false],
            [false, false, false, true, false],
            [false, false, false, false, true],
        ]
    );
}

#[test]
fn controls_list_the_keys() {
    assert_eq!(Controls::title(), "Controls");
    let line = Controls::get_instruction();
    let texts: Vec<&str> = line.iter().map(|l| l.text).collect();
    assert_eq!(
        texts,
        vec![
            " Activate current selection ",
            "<ENTER>",
            " Navigation ",
            "<Arrowkeys>",
            " Edit ",
            "<E>",
            " Quit ",
            "<Q>",
            " Unselect ",
            "<U> ",
        ]
    );
    for (i, label) in line.iter().enumerate() {
        assert_eq!(label.key, i % 2 == 1);
    }
}

#[test]
fn config_prefers_the_variable() {
    let config =
        Config::from_env(Some(String::from("/data")), Ok(String::from("sqlite://games"))).unwrap();
    assert_eq!(config.database_url(), "sqlite://games");
}

#[test]
fn config_falls_back_to_the_data_directory() {
    let config = Config::from_env(Some(String::from("/data")), Err(VarError::NotPresent)).unwrap();
    assert_eq!(config.database_url(), "/data");
}

#[test]
fn config_errors() {
    assert!(matches!(
        Config::from_env(Some(String::from("/data")), Err(VarError::NotUnicode)),
        Err(VarError::NotUnicode)
    ));
    assert!(matches!(Config::from_env(None, Ok(String::from("x"))), Err(VarError::NotPresent)));
    assert!(matches!(Config::from_env(None, Err(VarError::NotUnicode)), Err(VarError::NotPresent)));
    assert_eq!(Config::DATABASE_URL_VAR, "CONSOLE_PLAYER_DATABASE_URL");
}

#[test]
fn tabbed_screen_data() {
    let game = |n: &str| Game::builder().name(String::from(n)).platform(String::new()).build();
    let list = GameList::from(vec![game("a"), game("b")]);
    let mut data = Data::new(GameFile::new(None, Vec::new()), list);
    assert_eq!(data.selected_game(), None);
    data.select_next();
    assert_eq!(data.selected_game(), Some(game("a")));
    data.select_next();
    assert_eq!(data.selected_game(), Some(game("b")));
    data.select_previous();
    assert_eq!(data.selected_game(), Some(game("a")));
    data.select_last();
    assert_eq!(data.selected_game(), None);
    assert_eq!(data.delete_selected(), None);
    data.select_first();
    assert_eq!(data.delete_selected(), Some(game("a")));
    assert_eq!(data.selected_game(), Some(game("b")));
    data.select(Some(5));
    assert_eq!(data.selected_game(), None);
    data.select_none();
    assert_eq!(data.selected_game(), None);
    assert!(data.gamefile().owned_game_iter().is_empty());
    data.update_gamefile();
    assert_eq!(data.gamefile().owned_game_iter(), vec![game("b")]);

    let tui = Tui::new(data);
    assert_eq!(tui.selected_tab, Tabs::Selecting);
    assert!(tui.state.is_not_connected());
}

#[test]
fn event_handler_keeps_nothing() {
    assert_eq!(EventHandler::default(), EventHandler);
}

#[test]
fn game_widget_builder() {
    let game = |n: &str| Game::builder().name(String::from(n)).platform(String::new()).build();
    let widget = GameWidget::builder()
        .games(vec![game("a")])
        .games(vec![game("b"), game("c")])
        .state(ListState::default().with_selected(Some(2)))
        .path(String::from("/tmp/games.toml"))
        .build(Err(Error::Var))
        .unwrap();
    assert_eq!(widget.game_iter(), &vec![game("a"), game("b"), game("c")]);
    assert_eq!(widget.owned_game_iter(), vec![game("a"), game("b"), game("c")]);
    assert_eq!(widget.selected(), Some(2));
    assert_eq!(widget.path(), Some(&String::from("/tmp/games.toml")));
    assert_eq!(GameWidget::CONFIG_FILE, ".config/consoleplayergames.toml");
}

#[test]
fn game_widget_falls_back_to_the_default_path() {
    let widget = GameWidget::builder().build(Ok(String::from("/home/u/.config/g.toml"))).unwrap();
    assert!(widget.game_iter().is_empty());
    assert_eq!(widget.selected(), None);
    assert_eq!(widget.path(), Some(&String::from("/home/u/.config/g.toml")));
}

#[test]
fn game_widget_needs_a_path() {
    let built = GameWidget::builder().build(Err(Error::Var));
    assert!(matches!(built, Err(Error::Var)));
    let built = GameWidget::builder().state(ListState::default()).build(Err(Error::StdIo));
    assert!(matches!(built, Err(Error::StdIo)));
}

#[test]
fn client_id_is_read_from_the_variable() {
    assert_eq!(client_id(Some(String::from("1234567890123456"))), Ok(1234567890123456));
    assert_eq!(client_id(Some(String::from("-5"))), Ok(-5));
    assert_eq!(client_id(None), Err(Error::DotEnv));
    assert_eq!(client_id(Some(String::new())), Err(Error::ParseInt));
    assert_eq!(client_id(Some(String::from("12a"))), Err(Error::ParseInt));
    assert_eq!(client_id(Some(String::from(" 12"))), Err(Error::ParseInt));
}

#[test]
fn integers_are_read_as_the_standard_library_reads_them() {
    let texts = [
        "",
        "+",
        "-",
        "0",
        "-0",
        "+0",
        "007",
        "+42",
        "--1",
        "+-1",
        "1 ",
        " 1",
        "1_000",
        "0x10",
        "1.0",
        "１２",
        "٣",
        "9223372036854775807",
        "9223372036854775808",
        "-9223372036854775808",
        "-9223372036854775809",
        "+9223372036854775807",
        "18446744073709551616",
        "000000000000000000000000000000000000009223372036854775807",
        "99999999999999999999999999999999999999999999999999",
        "-99999999999999999999999999999999999999999999999999",
        "340282366920938463463374607431768211456",
        "12\u{0}",
        "é1",
        "1é",
    ];
    for text in texts {
        assert_eq!(parse_i64(text), text.parse::<i64>().ok());
    }
    let mut n: i64 = i64::MIN;
    for step in 0..4000u64 {
        let text = n.to_string();
        assert_eq!(parse_i64(&text), Some(n));
        let plus = format!("+{}", text);
        assert_eq!(parse_i64(&plus), plus.parse::<i64>().ok());
        n = n.wrapping_add(0x0123_4567_89ab_cdefu64.wrapping_mul(step + 1) as i64);
    }
    assert_eq!(parse_i64("9223372036854775807"), Some(i64::MAX));
    assert_eq!(parse_i64("-9223372036854775808"), Some(i64::MIN));
    assert_eq!(parse_i64("9223372036854775808"), None);
}
