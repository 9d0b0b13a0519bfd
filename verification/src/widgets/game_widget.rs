//! The list of games as a widget: the games, the selected row and the path of
//! the file they are kept in.

use vstd::prelude::*;
use ratatui::widgets::ListState;
use crate::error::Error;
use crate::game::{opt_view, Game};
use crate::tui::cursor::selected_row;

verus! {

/// The widget's games, selected row and path.
pub struct GameWidgetView {
    pub items: Seq<Game>,
    pub selected: Option<usize>,
    pub path: Option<Seq<char>>,
}

/// The list of games with the state of its list and the path of its file.
#[derive(Debug)]
pub struct GameWidget {
    items: Vec<Game>,
    state: ListState,
    path: Option<String>,
}

impl View for GameWidget {
    type V = GameWidgetView;

    closed spec fn view(&self) -> GameWidgetView {
        GameWidgetView {
            items: self.items@,
            selected: selected_row(self.state),
            path: opt_view(self.path),
        }
    }
}

impl GameWidget {
    /// The file's place below the home directory.
    pub const CONFIG_FILE: &'static str = ".config/consoleplayergames.toml";

    /// The games, in order.
    pub fn game_iter(&self) -> (games: &Vec<Game>)
        ensures
            games@ == self@.items,
    {
        &self.items
    }

    /// A copy of the games, in order.
    pub fn owned_game_iter(&self) -> (games: Vec<Game>)
        ensures
            games@ == self@.items,
    {
        let mut games: Vec<Game> = Vec::new();
        let mut i: usize = 0;
        while i < self.items.len()
            invariant
                i <= self.items@.len(),
                games@ == self.items@.take(i as int),
            decreases self.items@.len() - i,
        {
            games.push(self.items[i].clone());
            assert(self.items@.take(i as int).push(self.items@[i as int]) =~= self.items@.take(
                i as int + 1,
            ));
            i += 1;
        }
        assert(self.items@.take(i as int) =~= self.items@);
        games
    }

    /// The path of the file, if it is known.
    pub fn path(&self) -> (path: Option<&String>)
        ensures
            crate::game::opt_ref_view(path) == self@.path,
    {
        self.path.as_ref()
    }

    /// The selected row.
    pub fn selected(&self) -> (row: Option<usize>)
        ensures
            row == self@.selected,
    {
        self.state.selected()
    }

    /// The state of the list, for the widget that draws it. The drawing may
    /// move the selected row; the games and the path stay.
    pub fn state_mut(&mut self) -> (state: &mut ListState)
        ensures
            selected_row(*state) == old(self)@.selected,
            final(self)@ == (GameWidgetView { selected: selected_row(*final(state)), ..old(self)@ }),
    {
        &mut self.state
    }

    /// A builder that has been given nothing yet.
    pub fn builder() -> (builder: GameWidgetBuilder)
        ensures
            builder@ == (GameWidgetBuilderView { items: Seq::empty(), selected: None, path: None }),
    {
        GameWidgetBuilder { items: Vec::new(), state: None, path: None }
    }
}

/// What a builder has been given: the games, the selected row of the list
/// state if one was given, and the path.
pub struct GameWidgetBuilderView {
    pub items: Seq<Game>,
    pub selected: Option<Option<usize>>,
    pub path: Option<Seq<char>>,
}

/// A widget under construction.
#[derive(Debug)]
pub struct GameWidgetBuilder {
    items: Vec<Game>,
    state: Option<ListState>,
    path: Option<String>,
}

impl View for GameWidgetBuilder {
    type V = GameWidgetBuilderView;

    closed spec fn view(&self) -> GameWidgetBuilderView {
        GameWidgetBuilderView {
            items: self.items@,
            selected: match self.state {
                Some(s) => Some(selected_row(s)),
                None => None,
            },
            path: opt_view(self.path),
        }
    }
}

/// The widget that a builder builds where the default path was found as
/// `default_path`: the builder's own path goes first, and without either there
/// is no widget. Without a list state no row is selected.
pub open spec fn built(b: GameWidgetBuilderView, default_path: Result<String, Error>) -> Result<
    GameWidgetView,
    Error,
> {
    let selected = match b.selected {
        Some(row) => row,
        None => None,
    };
    match b.path {
        Some(p) => Ok(GameWidgetView { items: b.items, selected, path: Some(p) }),
        None => match default_path {
            Ok(p) => Ok(GameWidgetView { items: b.items, selected, path: Some(p@) }),
            Err(e) => Err(e),
        },
    }
}

impl GameWidgetBuilder {
    /// Builds the widget. `default_path` is the path of the file below the
    /// home directory, or why it could not be found; it counts only where the
    /// builder was given no path.
    pub fn build(self, default_path: Result<String, Error>) -> (r: Result<GameWidget, Error>)
        ensures
            match built(self@, default_path) {
                Ok(v) => r matches Ok(widget) && widget@ == v,
                Err(e) => r == Err::<GameWidget, Error>(e),
            },
    {
        let items = self.items;
        let state = match self.state {
            Some(state) => state,
            None => ListState::default(),
        };
        let path = match self.path {
            Some(path) => path,
            None => match default_path {
                Ok(path) => path,
                Err(e) => {
                    return Err(e);
                },
            },
        };
        Ok(GameWidget { items, state, path: Some(path) })
    }

    /// Adds `games` behind those given so far.
    pub fn games(self, games: Vec<Game>) -> (builder: Self)
        ensures
            builder@ == (GameWidgetBuilderView { items: self@.items + games@, ..self@ }),
    {
        let mut builder = self;
        let mut games = games;
        builder.items.append(&mut games);
        builder
    }

    /// Gives the state of the list.
    pub fn state(self, state: ListState) -> (builder: Self)
        ensures
            builder@ == (GameWidgetBuilderView { selected: Some(selected_row(state)), ..self@ }),
    {
        let mut builder = self;
        builder.state = Some(state);
        builder
    }

    /// Gives the path of the file.
    pub fn path(self, path: String) -> (builder: Self)
        ensures
            builder@ == (GameWidgetBuilderView { path: Some(path@), ..self@ }),
    {
        let mut builder = self;
        builder.path = Some(path);
        builder
    }
}

} // verus!
