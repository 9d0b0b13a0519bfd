//! The list of games on screen.

use vstd::prelude::*;
use crate::game::Game;

verus! {

/// The games in the order in which they are shown.
#[derive(Debug)]
pub struct GameList {
    items: Vec<Game>,
}

impl View for GameList {
    type V = Seq<Game>;

    closed spec fn view(&self) -> Seq<Game> {
        self.items@
    }
}

impl Default for GameList {
    fn default() -> (list: GameList)
        ensures
            list@ == Seq::<Game>::empty(),
    {
        GameList { items: Vec::new() }
    }
}

impl From<Vec<Game>> for GameList {
    fn from(items: Vec<Game>) -> (list: GameList)
        ensures
            list@ == items@,
    {
        GameList { items }
    }
}

impl vstd::std_specs::convert::FromSpecImpl<Vec<Game>> for GameList {
    open spec fn obeys_from_spec() -> bool {
        true
    }

    closed spec fn from_spec(items: Vec<Game>) -> GameList {
        GameList { items }
    }
}

impl GameList {
    /// Adds `value` at the end.
    pub fn push(&mut self, value: Game)
        ensures
            final(self)@ == old(self)@.push(value),
    {
        self.items.push(value)
    }

    /// How many games the list holds.
    pub fn len(&self) -> (n: usize)
        ensures
            n == self@.len(),
    {
        self.items.len()
    }

    /// The game at `index`, to be changed in place, if there is one.
    pub fn get_mut(&mut self, index: usize) -> (game: Option<&mut Game>)
        ensures
            index >= old(self)@.len() ==> game is None && final(self)@ == old(self)@,
            index < old(self)@.len() ==> game is Some && *game->0 == old(self)@[index as int]
                && final(self)@ == old(self)@.update(index as int, *final(game->0)),
    {
        if index < self.items.len() {
            Some(&mut self.items[index])
        } else {
            None
        }
    }

    /// Takes the game at `index` out of the list; those behind it move up.
    pub fn remove(&mut self, index: usize) -> (game: Game)
        requires
            index < old(self)@.len(),
        ensures
            game == old(self)@[index as int],
            final(self)@ == old(self)@.remove(index as int),
    {
        self.items.remove(index)
    }

    /// The game at `index`, if there is one.
    pub fn get(&self, index: usize) -> (game: Option<&Game>)
        ensures
            index >= self@.len() ==> game is None,
            index < self@.len() ==> game == Some(&self@[index as int]),
    {
        if index < self.items.len() {
            Some(&self.items[index])
        } else {
            None
        }
    }

    /// A copy of the games, in order.
    pub fn clone_inner(&self) -> (games: Vec<Game>)
        ensures
            games@ == self@,
    {
        let mut games: Vec<Game> = Vec::new();
        let mut i: usize = 0;
        while i < self.items.len()
            invariant
                i <= self.items@.len(),
                games@ == self.items@.take(i as int),
            decreases self.items@.len() - i,
        {
            games.push(self.items[i].clone());
            assert(self.items@.take(i as int).push(self.items@[i as int]) =~= self.items@.take(
                i as int + 1,
            ));
            i += 1;
        }
        assert(self.items@.take(i as int) =~= self.items@);
        games
    }
}

} // verus!
