//! The game list as it is stored: the games, and the path of their file.

use vstd::prelude::*;
use crate::game::gamelist::GameList;
use crate::game::Game;

verus! {

/// The games of the stored list and where they are stored, if that is known.
#[derive(Debug)]
pub struct GameFile {
    path: Option<String>,
    game: Vec<Game>,
}

impl GameFile {
    /// The file's place below the home directory.
    pub const CONFIG_FILE: &'static str = ".config/consoleplayergames.toml";

    /// The games, in the order of the file.
    pub closed spec fn games(&self) -> Seq<Game> {
        self.game@
    }

    /// The path of the file, if it is known.
    pub closed spec fn location(&self) -> Option<Seq<char>> {
        match self.path {
            Some(p) => Some(p@),
            None => None,
        }
    }

    /// The stored list with these games at this path.
    pub fn new(path: Option<String>, game: Vec<Game>) -> (file: GameFile)
        ensures
            file.games() == game@,
            file.location() == crate::game::opt_view(path),
    {
        GameFile { path, game }
    }

    /// The stored list that holds what `list` holds, to be written to `path`.
    pub fn from_list(path: String, list: &GameList) -> (file: GameFile)
        ensures
            file.games() == list@,
            file.location() == Some(path@),
    {
        GameFile { path: Some(path), game: list.clone_inner() }
    }

    /// The path of the file, if it is known.
    pub fn path(&self) -> (path: Option<&String>)
        ensures
            crate::game::opt_ref_view(path) == self.location(),
    {
        self.path.as_ref()
    }

    /// The games, in the order of the file.
    pub fn game_iter(&self) -> (games: &Vec<Game>)
        ensures
            games@ == self.games(),
    {
        &self.game
    }

    /// A copy of the games, in the order of the file.
    pub fn owned_game_iter(&self) -> (games: Vec<Game>)
        ensures
            games@ == self.games(),
    {
        let mut games: Vec<Game> = Vec::new();
        let mut i: usize = 0;
        while i < self.game.len()
            invariant
                i <= self.game@.len(),
                games@ == self.game@.take(i as int),
            decreases self.game@.len() - i,
        {
            games.push(self.game[i].clone());
            assert(self.game@.take(i as int).push(self.game@[i as int]) =~= self.game@.take(
                i as int + 1,
            ));
            i += 1;
        }
        assert(self.game@.take(i as int) =~= self.game@);
        games
    }

    /// Replaces the games by what `list` holds; the path stays.
    pub fn update(&mut self, list: &GameList)
        ensures
            final(self).games() == list@,
            final(self).location() == old(self).location(),
    {
        self.game = list.clone_inner();
    }
}

} // verus!
