//! The list screen: the games, the selected row and the form.
//!
//! The screen reads no terminal and reaches no service. Its caller hands it
//! each terminal event and carries out the [`Command`] that comes back.

use vstd::prelude::*;
use ratatui::crossterm::event::Event;
use ratatui::widgets::ListState;
use crate::app::state::{State, StateView};
use crate::game::gamefile::GameFile;
use crate::game::gamelist::GameList;
use crate::game::{activity_of, idle_game, views, Activity, ActivityView, Game, GameView};
use crate::tui::cursor::{row_above, row_below, selected_row};
use crate::tui::input::{empty_form, form_of, game_of, moved, Input, InputView, Selection};
use crate::tui::key::{is_press, is_pressed, key_code, key_of, Key};

pub mod input;
pub mod state;

verus! {

/// What the caller is to do after a key.
#[derive(Debug)]
pub enum Command {
    Nothing,
    /// Write the stored list, which now holds what the screen's list holds.
    Save,
    /// Announce this activity to the presence service.
    Activate(Activity),
    /// This game was taken off the list.
    Deleted(Game),
}

/// A [`Command`] with what it carries as text.
pub enum CommandView {
    Nothing,
    Save,
    Activate(ActivityView),
    Deleted(GameView),
}

impl View for Command {
    type V = CommandView;

    open spec fn view(&self) -> CommandView {
        match *self {
            Command::Nothing => CommandView::Nothing,
            Command::Save => CommandView::Save,
            Command::Activate(activity) => CommandView::Activate(activity@),
            Command::Deleted(game) => CommandView::Deleted(game@),
        }
    }
}

/// The screen as text and numbers.
pub struct AppView {
    /// The games on screen, in order.
    pub list: Seq<GameView>,
    /// Whether the screen is to close.
    pub exit: bool,
    /// The selected row, which may lie behind the last game until the list
    /// is next drawn.
    pub selected: Option<usize>,
    /// The games of the stored list.
    pub saved: Seq<GameView>,
    /// What the screen is doing.
    pub state: StateView,
}

/// The game in the selected row, if a row is selected and holds a game.
pub open spec fn chosen(v: AppView) -> Option<GameView> {
    match v.selected {
        Some(i) => if i < v.list.len() {
            Some(v.list[i as int])
        } else {
            None
        },
        None => None,
    }
}

/// The list with the game in `row` replaced by `game`, if `row` holds one.
pub open spec fn replaced(list: Seq<GameView>, row: Option<usize>, game: GameView) -> Seq<GameView> {
    match row {
        Some(i) => if i < list.len() {
            list.update(i as int, game)
        } else {
            list
        },
        None => list,
    }
}

/// What a letter does while a game is being picked.
pub open spec fn letter(v: AppView, c: char) -> (AppView, CommandView) {
    if c == 'q' {
        (AppView { exit: true, ..v }, CommandView::Nothing)
    } else if c == 'u' {
        (AppView { selected: None, ..v }, CommandView::Nothing)
    } else if c == 'e' {
        match chosen(v) {
            Some(game) => (
                AppView { state: StateView::Editing(form_of(game)), ..v },
                CommandView::Nothing,
            ),
            None => (v, CommandView::Nothing),
        }
    } else if c == 'a' {
        (AppView { state: StateView::Adding(empty_form()), ..v }, CommandView::Nothing)
    } else if c == 'd' {
        match chosen(v) {
            Some(game) => (
                AppView { list: v.list.remove(v.selected->0 as int), ..v },
                CommandView::Deleted(game),
            ),
            None => (v, CommandView::Nothing),
        }
    } else if c == 's' {
        (AppView { saved: v.list, ..v }, CommandView::Save)
    } else {
        (v, CommandView::Nothing)
    }
}

/// What a key does while a game is being picked: the screen afterwards, and
/// the command for the caller.
pub open spec fn picked(v: AppView, key: Key) -> (AppView, CommandView) {
    match key {
        Key::Char(c) => letter(v, c),
        Key::Up => (AppView { selected: Some(row_above(v.selected)), ..v }, CommandView::Nothing),
        Key::Down => (AppView { selected: Some(row_below(v.selected)), ..v }, CommandView::Nothing),
        Key::PageUp => (AppView { selected: Some(0usize), ..v }, CommandView::Nothing),
        Key::PageDown => (AppView { selected: Some(usize::MAX), ..v }, CommandView::Nothing),
        Key::Enter => (
            v,
            CommandView::Activate(
                activity_of(
                    match chosen(v) {
                        Some(game) => game,
                        None => idle_game(),
                    },
                ),
            ),
        ),
        _ => (v, CommandView::Nothing),
    }
}

/// Whether `after` can be the form that `before` becomes when it is handed
/// `key`: Tab and BackTab move the selection, and every field but the one
/// then selected keeps its text.
pub open spec fn typed(before: InputView, key: Key, after: InputView) -> bool {
    &&& after.current_selection == moved(before.current_selection, Some(key))
    &&& forall|s: Selection|
        s != after.current_selection ==> #[trigger] after.text_at(s) == before.text_at(s)
}

/// Whether `after` can be the screen that `mid` becomes when its form, if it
/// shows one, is handed `key`. Enter takes the form's game over and Esc drops
/// it, and both lead back to picking; any other key goes to the form.
pub open spec fn formed(mid: AppView, key: Key, after: AppView) -> bool {
    match mid.state {
        StateView::Selection => after == mid,
        StateView::Adding(form) => match key {
            Key::Enter => after == (AppView {
                list: mid.list.push(game_of(form)),
                state: StateView::Selection,
                ..mid
            }),
            Key::Esc => after == (AppView { state: StateView::Selection, ..mid }),
            _ => after.state matches StateView::Adding(form2) && typed(form, key, form2) && after
                == (AppView { state: after.state, ..mid }),
        },
        StateView::Editing(form) => match key {
            Key::Enter => after == (AppView {
                list: replaced(mid.list, mid.selected, game_of(form)),
                state: StateView::Selection,
                ..mid
            }),
            Key::Esc => after == (AppView { state: StateView::Selection, ..mid }),
            _ => after.state matches StateView::Editing(form2) && typed(form, key, form2) && after
                == (AppView { state: after.state, ..mid }),
        },
    }
}

/// Whether `after` and `command` can be what `key` makes of the screen
/// `before`. While a game is picked the key acts on the list; the form that
/// is open then, which the same key may just have opened, is handed the key.
pub open spec fn keyed(before: AppView, key: Key, after: AppView, command: CommandView) -> bool {
    if before.state is Selection {
        command == picked(before, key).1 && formed(picked(before, key).0, key, after)
    } else {
        command == CommandView::Nothing && formed(before, key, after)
    }
}

/// Whether `after` and `command` can be what the event `event` makes of the
/// screen `before`, taken as a key event: its key acts as `keyed` says, and an
/// event without a key changes nothing and asks for nothing.
pub open spec fn key_event(before: AppView, event: Event, after: AppView, command: CommandView) -> bool {
    match key_of(event) {
        Some(key) => keyed(before, key, after, command),
        None => after == before && command == CommandView::Nothing,
    }
}

/// The list screen.
#[derive(Debug)]
pub struct App {
    list: GameList,
    exit: bool,
    list_state: ListState,
    gamefile: GameFile,
    state: State,
}

impl View for App {
    type V = AppView;

    closed spec fn view(&self) -> AppView {
        AppView {
            list: views(self.list@),
            exit: self.exit,
            selected: selected_row(self.list_state),
            saved: views(self.gamefile.games()),
            state: self.state@,
        }
    }
}

impl App {
    /// The screen over a stored list: no game on screen yet, no row selected.
    pub fn new(gamefile: GameFile) -> (app: App)
        ensures
            app@ == (AppView {
                list: Seq::empty(),
                exit: false,
                selected: None,
                saved: views(gamefile.games()),
                state: StateView::Selection,
            }),
    {
        let app = App {
            list: GameList::default(),
            exit: false,
            list_state: ListState::default(),
            gamefile,
            state: State::Selection,
        };
        assert(views(app.list@) =~= Seq::<GameView>::empty());
        app
    }

    /// Puts the games of the stored list on screen, behind those that are
    /// there.
    pub fn load(&mut self)
        ensures
            final(self)@ == (AppView { list: old(self)@.list + old(self)@.saved, ..old(self)@ }),
    {
        let games = self.gamefile.owned_game_iter();
        assert(views(self.list@) + views(games@.take(0)) =~= views(self.list@));
        self.add_games(games);
        assert(games@.take(games@.len() as int) =~= games@);
    }

    /// Adds `games` behind those that are on screen.
    pub fn add_games(&mut self, games: Vec<Game>)
        ensures
            final(self)@ == (AppView { list: old(self)@.list + views(games@), ..old(self)@ }),
    {
        let ghost before = self@;
        let mut i: usize = 0;
        assert(before.list + views(games@.take(0)) =~= before.list);
        while i < games.len()
            invariant
                i <= games@.len(),
                self@ == (AppView { list: before.list + views(games@.take(i as int)), ..before }),
            decreases games@.len() - i,
        {
            let ghost now = self.list@;
            self.list.push(games[i].clone());
            assert(views(now.push(games@[i as int])) =~= views(now).push(games@[i as int]@));
            assert(views(games@.take(i as int + 1)) =~= views(games@.take(i as int)).push(
                games@[i as int]@,
            ));
            assert(views(now).push(games@[i as int]@) =~= before.list + views(
                games@.take(i as int + 1),
            ));
            i += 1;
        }
        assert(games@.take(i as int) =~= games@);
    }

    /// Adds `game` behind those that are on screen.
    pub fn add_game(&mut self, game: Game)
        ensures
            final(self)@ == (AppView { list: old(self)@.list.push(game@), ..old(self)@ }),
    {
        let ghost now = self.list@;
        self.list.push(game);
        assert(views(now.push(game)) =~= views(now).push(game@));
    }

    /// Puts `game` in the place of the game in the selected row and returns
    /// the row, if a row is selected and holds a game.
    pub fn replace_current_selection(&mut self, game: Game) -> (row: Option<usize>)
        ensures
            final(self)@ == (AppView {
                list: replaced(old(self)@.list, old(self)@.selected, game@),
                ..old(self)@
            }),
            row == if chosen(old(self)@) is Some {
                old(self)@.selected
            } else {
                None
            },
    {
        let ghost now = self.list@;
        match self.list_state.selected() {
            Some(selected) => {
                match self.list.get_mut(selected) {
                    Some(selected_game) => {
                        *selected_game = game;
                        assert(views(now.update(selected as int, game)) =~= views(now).update(
                            selected as int,
                            game@,
                        ));
                        Some(selected)
                    },
                    None => None,
                }
            },
            None => None,
        }
    }

    /// Takes in a terminal event: a key that was pressed acts on the screen
    /// as `handle_key_event` says, anything else is passed over.
    pub fn handle_events(&mut self, event: &Event) -> (command: Command)
        ensures
            if is_pressed(*event) {
                key_event(old(self)@, *event, final(self)@, command@)
            } else {
                final(self)@ == old(self)@ && command is Nothing
            },
    {
        if is_press(event) {
            self.handle_key_event(event)
        } else {
            Command::Nothing
        }
    }

    /// Takes in a key event: its key acts on the screen as `handle_key` says.
    /// An event of another sort is passed over.
    pub fn handle_key_event(&mut self, event: &Event) -> (command: Command)
        ensures
            key_event(old(self)@, *event, final(self)@, command@),
    {
        match key_code(event) {
            Some(key) => self.handle_key(key, event),
            None => Command::Nothing,
        }
    }

    /// Takes in the event of the key `key`.
    pub fn handle_key(&mut self, key: Key, event: &Event) -> (command: Command)
        ensures
            keyed(old(self)@, key, final(self)@, command@),
    {
        let mut command = Command::Nothing;
        if self.state.is_selecting() {
            match key {
                Key::Char(c) => {
                    if c == 'q' {
                        self.exit();
                    } else if c == 'u' {
                        self.select_none();
                    } else if c == 'e' {
                        match self.selected_game() {
                            Some(game) => {
                                self.switch_state_to(State::Editing(Input::from(game)));
                            },
                            None => {},
                        }
                    } else if c == 'a' {
                        self.switch_state_to(State::Adding(Input::default()));
                    } else if c == 'd' {
                        match self.delete_selected() {
                            Some(game) => {
                                command = Command::Deleted(game);
                            },
                            None => {},
                        }
                    } else if c == 's' {
                        self.update_gamefile();
                        command = Command::Save;
                    }
                },
                Key::Up => self.select_previous(),
                Key::Down => self.select_next(),
                Key::PageUp => self.select_first(),
                Key::PageDown => self.select_last(),
                Key::Enter => {
                    command = Command::Activate(self.activate_current());
                },
                _ => {},
            }
        }
        let ghost mid = self@;
        assert(old(self)@.state is Selection ==> mid == picked(old(self)@, key).0 && command@
            == picked(old(self)@, key).1);
        assert(!(old(self)@.state is Selection) ==> mid == old(self)@ && command is Nothing);

        if self.state.is_adding() {
            match key {
                Key::Enter => {
                    let game = match &self.state {
                        State::Adding(form) => Some(form.to_game()),
                        _ => None,
                    };
                    match game {
                        Some(g) => self.add_game(g),
                        None => {},
                    }
                    self.state = State::Selection;
                },
                Key::Esc => {
                    self.state = State::Selection;
                },
                _ => {
                    match &mut self.state {
                        State::Adding(form) => {
                            let _ = form.handle_key(Some(key), event);
                        },
                        _ => {},
                    }
                },
            }
        } else if self.state.is_editing() {
            match key {
                Key::Enter => {
                    let game = match &self.state {
                        State::Editing(form) => Some(form.to_game()),
                        _ => None,
                    };
                    match game {
                        Some(g) => {
                            let _ = self.replace_current_selection(g);
                        },
                        None => {},
                    }
                    self.state = State::Selection;
                },
                Key::Esc => {
                    self.state = State::Selection;
                },
                _ => {
                    match &mut self.state {
                        State::Editing(form) => {
                            let _ = form.handle_key(Some(key), event);
                        },
                        _ => {},
                    }
                },
            }
        }
        assert(formed(mid, key, self@));
        command
    }

    /// Asks the screen to close.
    pub fn exit(&mut self)
        ensures
            final(self)@ == (AppView { exit: true, ..old(self)@ }),
    {
        self.exit = true;
    }

    /// Whether the screen is to close.
    pub fn should_exit(&self) -> (exit: bool)
        ensures
            exit == self@.exit,
    {
        self.exit
    }

    /// Selects the row `index`, or none.
    pub fn select(&mut self, index: Option<usize>)
        ensures
            final(self)@ == (AppView { selected: index, ..old(self)@ }),
    {
        self.list_state.select(index);
    }

    /// Selects the first row.
    pub fn select_first(&mut self)
        ensures
            final(self)@ == (AppView { selected: Some(0usize), ..old(self)@ }),
    {
        self.list_state.select_first();
    }

    /// Selects the last row: the highest row there can be, which the list
    /// brings back to its last game when it is next drawn.
    pub fn select_last(&mut self)
        ensures
            final(self)@ == (AppView { selected: Some(usize::MAX), ..old(self)@ }),
    {
        self.list_state.select_last();
    }

    /// Selects the row below the selected one, or the first where none is
    /// selected.
    pub fn select_next(&mut self)
        ensures
            final(self)@ == (AppView {
                selected: Some(row_below(old(self)@.selected)),
                ..old(self)@
            }),
    {
        self.list_state.select_next();
    }

    /// Selects no row.
    pub fn select_none(&mut self)
        ensures
            final(self)@ == (AppView { selected: None, ..old(self)@ }),
    {
        self.select(None);
    }

    /// Selects the row above the selected one, or the last where none is
    /// selected.
    pub fn select_previous(&mut self)
        ensures
            final(self)@ == (AppView {
                selected: Some(row_above(old(self)@.selected)),
                ..old(self)@
            }),
    {
        self.list_state.select_previous();
    }

    /// Takes the game in the selected row off the list and returns it, if a
    /// row is selected and holds a game.
    pub fn delete_selected(&mut self) -> (deleted: Option<Game>)
        ensures
            chosen(old(self)@) is None ==> deleted is None && final(self)@ == old(self)@,
            chosen(old(self)@) matches Some(game) ==> deleted matches Some(d) && d@ == game
                && final(self)@ == (AppView {
                list: old(self)@.list.remove(old(self)@.selected->0 as int),
                ..old(self)@
            }),
    {
        let ghost now = self.list@;
        match self.list_state.selected() {
            Some(index) => {
                if index < self.list.len() {
                    let game = self.list.remove(index);
                    assert(views(now.remove(index as int)) =~= views(now).remove(index as int));
                    Some(game)
                } else {
                    None
                }
            },
            None => None,
        }
    }

    /// Puts the screen into `state`.
    pub fn switch_state_to(&mut self, state: State)
        ensures
            final(self)@ == (AppView { state: state@, ..old(self)@ }),
    {
        self.state = state;
    }

    /// A copy of the game in the selected row, if a row is selected and holds
    /// a game.
    pub fn selected_game(&self) -> (game: Option<Game>)
        ensures
            game is Some <==> chosen(self@) is Some,
            game matches Some(g) ==> chosen(self@) == Some(g@),
    {
        match self.list_state.selected() {
            Some(index) => match self.list.get(index) {
                Some(game) => Some(game.clone()),
                None => None,
            },
            None => None,
        }
    }

    /// The activity to announce: that of the game in the selected row, or of
    /// the idle game where no row holds one.
    pub fn activate_current(&self) -> (activity: Activity)
        ensures
            activity@ == activity_of(
                match chosen(self@) {
                    Some(game) => game,
                    None => idle_game(),
                },
            ),
    {
        let game = match self.selected_game() {
            Some(game) => game,
            None => Game::default(),
        };
        game.to_activity()
    }

    /// Makes the stored list hold what the screen's list holds.
    pub fn update_gamefile(&mut self)
        ensures
            final(self)@ == (AppView { saved: old(self)@.list, ..old(self)@ }),
    {
        self.gamefile.update(&self.list);
    }

    /// The games on screen.
    pub fn list(&self) -> (list: &GameList)
        ensures
            views(list@) == self@.list,
    {
        &self.list
    }

    /// What the screen is doing.
    pub fn state(&self) -> (state: &State)
        ensures
            state@ == self@.state,
    {
        &self.state
    }

    /// The state of the list, for the widget that draws it. The widget may
    /// move the selected row; nothing else of the screen changes with it.
    pub fn list_state_mut(&mut self) -> (state: &mut ListState)
        ensures
            selected_row(*state) == old(self)@.selected,
            final(self)@ == (AppView { selected: selected_row(*final(state)), ..old(self)@ }),
    {
        &mut self.list_state
    }

    /// The stored list.
    pub fn gamefile(&self) -> (file: &GameFile)
        ensures
            views(file.games()) == self@.saved,
    {
        &self.gamefile
    }
}

} // verus!
