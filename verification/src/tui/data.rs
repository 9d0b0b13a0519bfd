//! What the tabbed screen shows: the stored list, the list on screen and the
//! selected row.

use vstd::prelude::*;
use ratatui::widgets::ListState;
use crate::game::gamefile::GameFile;
use crate::game::gamelist::GameList;
use crate::game::{views, Game, GameView};
use crate::tui::cursor::{row_above, row_below, selected_row};

verus! {

/// The data of the tabbed screen.
#[derive(Debug)]
pub struct Data {
    gamefile: GameFile,
    gamelist: GameList,
    list_state: ListState,
}

/// The data as text and numbers.
pub struct DataView {
    /// The games of the stored list.
    pub saved: Seq<GameView>,
    /// The games on screen.
    pub list: Seq<GameView>,
    /// The selected row.
    pub selected: Option<usize>,
}

impl View for Data {
    type V = DataView;

    closed spec fn view(&self) -> DataView {
        DataView {
            saved: views(self.gamefile.games()),
            list: views(self.gamelist@),
            selected: selected_row(self.list_state),
        }
    }
}

/// The game in the selected row, if a row is selected and holds a game.
pub open spec fn chosen(v: DataView) -> Option<GameView> {
    match v.selected {
        Some(i) => if i < v.list.len() {
            Some(v.list[i as int])
        } else {
            None
        },
        None => None,
    }
}

impl Data {
    /// The data over a stored list and the list on screen, with no row
    /// selected.
    pub fn new(gamefile: GameFile, gamelist: GameList) -> (data: Data)
        ensures
            data@ == (DataView {
                saved: views(gamefile.games()),
                list: views(gamelist@),
                selected: None,
            }),
    {
        Data { gamefile, gamelist, list_state: ListState::default() }
    }

    /// Selects the row `index`, or none.
    pub fn select(&mut self, index: Option<usize>)
        ensures
            final(self)@ == (DataView { selected: index, ..old(self)@ }),
    {
        self.list_state.select(index);
    }

    /// Selects the first row.
    pub fn select_first(&mut self)
        ensures
            final(self)@ == (DataView { selected: Some(0usize), ..old(self)@ }),
    {
        self.list_state.select_first();
    }

    /// Selects the highest row there can be.
    pub fn select_last(&mut self)
        ensures
            final(self)@ == (DataView { selected: Some(usize::MAX), ..old(self)@ }),
    {
        self.list_state.select_last();
    }

    /// Selects the row below the selected one, or the first.
    pub fn select_next(&mut self)
        ensures
            final(self)@ == (DataView {
                selected: Some(row_below(old(self)@.selected)),
                ..old(self)@
            }),
    {
        self.list_state.select_next();
    }

    /// Selects no row.
    pub fn select_none(&mut self)
        ensures
            final(self)@ == (DataView { selected: None, ..old(self)@ }),
    {
        self.select(None);
    }

    /// Selects the row above the selected one, or the highest there can be.
    pub fn select_previous(&mut self)
        ensures
            final(self)@ == (DataView {
                selected: Some(row_above(old(self)@.selected)),
                ..old(self)@
            }),
    {
        self.list_state.select_previous();
    }

    /// Takes the game in the selected row off the list and returns it, if a
    /// row is selected and holds a game.
    pub fn delete_selected(&mut self) -> (deleted: Option<Game>)
        ensures
            chosen(old(self)@) is None ==> deleted is None && final(self)@ == old(self)@,
            chosen(old(self)@) matches Some(game) ==> deleted matches Some(d) && d@ == game
                && final(self)@ == (DataView {
                list: old(self)@.list.remove(old(self)@.selected->0 as int),
                ..old(self)@
            }),
    {
        let ghost now = self.gamelist@;
        match self.list_state.selected() {
            Some(index) => {
                if index < self.gamelist.len() {
                    let game = self.gamelist.remove(index);
                    assert(views(now.remove(index as int)) =~= views(now).remove(index as int));
                    Some(game)
                } else {
                    None
                }
            },
            None => None,
        }
    }

    /// A copy of the game in the selected row, if a row is selected and holds
    /// a game.
    pub fn selected_game(&self) -> (game: Option<Game>)
        ensures
            game is Some <==> chosen(self@) is Some,
            game matches Some(g) ==> chosen(self@) == Some(g@),
    {
        match self.list_state.selected() {
            Some(index) => match self.gamelist.get(index) {
                Some(game) => Some(game.clone()),
                None => None,
            },
            None => None,
        }
    }

    /// Makes the stored list hold what the list on screen holds.
    pub fn update_gamefile(&mut self)
        ensures
            final(self)@ == (DataView { saved: old(self)@.list, ..old(self)@ }),
    {
        self.gamefile.update(&self.gamelist);
    }

    /// The stored list.
    pub fn gamefile(&self) -> (file: &GameFile)
        ensures
            views(file.games()) == self@.saved,
    {
        &self.gamefile
    }
}

} // verus!
