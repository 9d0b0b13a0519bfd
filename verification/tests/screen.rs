use console_player::app::input::Selection;
use console_player::app::state::State;
use console_player::app::{App, Command};
use console_player::game::gamefile::GameFile;
use console_player::game::Game;
use console_player::tui::input::Input;
use console_player::tui::key::Key;
use ratatui::crossterm::event::{Event, KeyCode, KeyEvent, KeyEventKind, KeyModifiers};
use ratatui::widgets::ListState;

fn press(code: KeyCode) -> Event {
    Event::Key(KeyEvent::new(code, KeyModifiers::NONE))
}

fn game(name: &str) -> Game {
    Game::builder().name(String::from(name)).platform(String::from("Switch")).build()
}

fn screen(names: &[&str]) -> App {
    let games = names.iter().map(|n| game(n)).collect();
    let mut app = App::new(GameFile::new(None, games));
    app.load();
    app
}

fn keys(app: &mut App, codes: &[KeyCode]) {
    for code in codes {
        app.handle_events(&press(*code));
    }
}

#[test]
fn new_screen_is_empty_until_loaded() {
    let mut app = App::new(GameFile::new(None, vec![game("a"), game("b")]));
    assert_eq!(app.selected_game(), None);
    assert!(!app.should_exit());
    app.select_first();
    assert_eq!(app.selected_game(), None);
    app.load();
    assert_eq!(app.selected_game(), Some(game("a")));
}

#[test]
fn q_asks_to_close() {
    let mut app = screen(&["a"]);
    assert!(matches!(app.handle_events(&press(KeyCode::Char('q'))), Command::Nothing));
    assert!(app.should_exit());
}

#[test]
fn only_key_presses_count() {
    let mut app = screen(&["a"]);
    let release =
        Event::Key(KeyEvent::new_with_kind(KeyCode::Char('q'), KeyModifiers::NONE, KeyEventKind::Release));
    assert!(matches!(app.handle_events(&release), Command::Nothing));
    assert!(matches!(app.handle_events(&Event::FocusLost), Command::Nothing));
    assert!(!app.should_exit());
    // The same event, taken as a key event, does count.
    app.handle_key_event(&release);
    assert!(app.should_exit());
}

#[test]
fn arrows_move_the_selection_as_the_list_widget_does() {
    let mut app = screen(&["a", "b", "c"]);
    let mut widget = ListState::default();
    let moves = [
        KeyCode::Up,
        KeyCode::Down,
        KeyCode::Down,
        KeyCode::PageUp,
        KeyCode::Up,
        KeyCode::Down,
        KeyCode::Down,
        KeyCode::PageDown,
        KeyCode::Down,
        KeyCode::Up,
    ];
    for code in moves {
        app.handle_events(&press(code));
        match code {
            KeyCode::Up => widget.select_previous(),
            KeyCode::Down => widget.select_next(),
            KeyCode::PageUp => widget.select_first(),
            _ => widget.select_last(),
        }
        let expected = widget.selected().and_then(|i| ["a", "b", "c"].get(i).map(|n| game(n)));
        assert_eq!(app.selected_game(), expected);
    }
}

#[test]
fn selection_moves_by_one_and_saturates() {
    let mut app = screen(&["a", "b"]);
    app.select_next();
    assert_eq!(app.selected_game(), Some(game("a")));
    app.select_next();
    assert_eq!(app.selected_game(), Some(game("b")));
    app.select_next();
    assert_eq!(app.selected_game(), None);
    app.select_previous();
    assert_eq!(app.selected_game(), Some(game("b")));
    app.select_first();
    app.select_previous();
    assert_eq!(app.selected_game(), Some(game("a")));
    app.select_last();
    app.select_next();
    app.select_previous();
    assert_eq!(app.selected_game(), None);
    app.select(Some(1));
    assert_eq!(app.selected_game(), Some(game("b")));
    app.select_none();
    assert_eq!(app.selected_game(), None);
}

#[test]
fn u_unselects() {
    let mut app = screen(&["a"]);
    keys(&mut app, &[KeyCode::Down]);
    assert_eq!(app.selected_game(), Some(game("a")));
    keys(&mut app, &[KeyCode::Char('u')]);
    assert_eq!(app.selected_game(), None);
}

#[test]
fn enter_activates_the_selected_game_or_idle() {
    let mut app = screen(&["a"]);
    match app.handle_events(&press(KeyCode::Enter)) {
        Command::Activate(activity) => {
            assert_eq!(activity.state(), "Idle");
            assert_eq!(activity.details(), "No platform");
        }
        _ => panic!("enter activates"),
    }
    keys(&mut app, &[KeyCode::Down]);
    match app.handle_events(&press(KeyCode::Enter)) {
        Command::Activate(activity) => assert_eq!(activity, game("a").to_activity()),
        _ => panic!("enter activates"),
    }
    assert_eq!(app.activate_current(), game("a").to_activity());
}

#[test]
fn d_deletes_the_selected_game() {
    let mut app = screen(&["a", "b", "c"]);
    assert!(matches!(app.handle_events(&press(KeyCode::Char('d'))), Command::Nothing));
    keys(&mut app, &[KeyCode::Down, KeyCode::Down]);
    match app.handle_events(&press(KeyCode::Char('d'))) {
        Command::Deleted(deleted) => assert_eq!(deleted, game("b")),
        _ => panic!("d deletes"),
    }
    assert_eq!(app.selected_game(), Some(game("c")));
    keys(&mut app, &[KeyCode::PageDown]);
    assert!(matches!(app.handle_events(&press(KeyCode::Char('d'))), Command::Nothing));
    assert_eq!(app.delete_selected(), None);
    app.select_first();
    assert_eq!(app.delete_selected(), Some(game("a")));
    assert_eq!(app.selected_game(), Some(game("c")));
}

#[test]
fn s_saves_what_is_on_screen() {
    let mut app = screen(&["a"]);
    app.add_game(game("b"));
    assert_eq!(app.gamefile().owned_game_iter(), vec![game("a")]);
    assert!(matches!(app.handle_events(&press(KeyCode::Char('s'))), Command::Save));
    assert_eq!(app.gamefile().owned_game_iter(), vec![game("a"), game("b")]);
}

#[test]
fn a_opens_the_form_and_enter_adds_the_game() {
    let mut app = screen(&[]);
    keys(&mut app, &[KeyCode::Char('a')]);
    // The key that opens the form is also the first that the form takes.
    keys(&mut app, &[KeyCode::Backspace]);
    keys(&mut app, &[KeyCode::Char('q'), KeyCode::Tab, KeyCode::Char('d'), KeyCode::Char('s')]);
    assert!(!app.should_exit());
    keys(&mut app, &[KeyCode::Enter]);
    app.select_first();
    assert_eq!(
        app.selected_game(),
        Some(Game::builder().name(String::from("q")).platform(String::from("ds")).build())
    );
}

#[test]
fn opening_key_is_typed_into_the_form() {
    let mut app = screen(&[]);
    keys(&mut app, &[KeyCode::Char('a'), KeyCode::Enter]);
    app.select_first();
    assert_eq!(
        app.selected_game(),
        Some(Game::builder().name(String::from("a")).platform(String::new()).build())
    );
}

#[test]
fn esc_drops_the_form() {
    let mut app = screen(&["a"]);
    keys(&mut app, &[KeyCode::Char('a'), KeyCode::Char('x'), KeyCode::Esc]);
    keys(&mut app, &[KeyCode::Down, KeyCode::Down]);
    assert_eq!(app.selected_game(), None);
    keys(&mut app, &[KeyCode::Char('q')]);
    assert!(app.should_exit());
}

#[test]
fn e_edits_the_selected_game() {
    let mut app = screen(&["a", "b"]);
    // Without a selected game there is nothing to edit.
    keys(&mut app, &[KeyCode::Char('e'), KeyCode::Char('q')]);
    assert!(app.should_exit());

    let mut app = screen(&["a", "b"]);
    keys(&mut app, &[KeyCode::Down, KeyCode::Down, KeyCode::Char('e')]);
    keys(&mut app, &[KeyCode::Char('!'), KeyCode::Enter]);
    assert_eq!(app.selected_game(), Some(game("be!")));
    app.select_first();
    assert_eq!(app.selected_game(), Some(game("a")));
}

#[test]
fn replace_needs_a_selected_game() {
    let mut app = screen(&["a"]);
    assert_eq!(app.replace_current_selection(game("z")), None);
    app.select_last();
    assert_eq!(app.replace_current_selection(game("z")), None);
    app.select_first();
    assert_eq!(app.replace_current_selection(game("z")), Some(0));
    assert_eq!(app.selected_game(), Some(game("z")));
}

#[test]
fn handle_key_takes_the_key_it_is_told() {
    let mut app = screen(&["a"]);
    app.handle_key(Key::Down, &press(KeyCode::Down));
    assert_eq!(app.selected_game(), Some(game("a")));
    app.switch_state_to(State::Adding(Input::default()));
    app.handle_key(Key::Other, &press(KeyCode::Char('k')));
    app.handle_key(Key::Enter, &press(KeyCode::Enter));
    app.add_games(vec![game("c")]);
    app.select(Some(1));
    assert_eq!(
        app.selected_game(),
        Some(Game::builder().name(String::from("k")).platform(String::new()).build())
    );
}

#[test]
fn list_screen_states() {
    assert!(State::default().is_selecting());
    assert!(!State::Selection.is_adding());
    assert!(!State::Selection.is_editing());
    assert!(State::Adding(Input::default()).is_adding());
    assert!(!State::Adding(Input::default()).is_selecting());
    assert!(!State::Adding(Input::default()).is_editing());
    assert!(State::Editing(Input::default()).is_editing());
    assert!(!State::Editing(Input::default()).is_adding());
    assert!(!State::Editing(Input::default()).is_selecting());
    assert!(State::Selection == State::default());
    assert!(State::Adding(Input::default()) != State::Editing(Input::default()));
    assert!(State::Adding(Input::default()) == State::Adding(Input::default()));
    assert!(State::Adding(Input::default()) != State::Adding(Input::from(Game::default())));
}

#[test]
fn list_screen_selection_cycles() {
    let all = [
        Selection::Name,
        Selection::Platform,
        Selection::LargeImageKey,
        Selection::LargeImageTooltip,
        Selection::SmallImageKey,
        Selection::SmallImageTooltip,
    ];
    for i in 0..6 {
        let mut s = all[i];
        assert_eq!(s.next(), all[(i + 1) % 6]);
        assert_eq!(s.previous(), all[(i + 5) % 6]);
        assert_eq!(s, all[i]);
    }
    assert_eq!(Selection::default(), Selection::Name);
}
