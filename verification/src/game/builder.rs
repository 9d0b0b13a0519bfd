//! Building a game field by field.

use vstd::prelude::*;
use crate::game::{opt_view, Game, GameView};

verus! {

/// A game under construction. `N` and `P` say whether the name and the
/// platform have been given; only a builder that has both builds a game.
#[derive(Debug)]
pub struct GameBuilder<const N: bool, const P: bool> {
    name: String,
    platform: String,
    large_image_key: Option<String>,
    large_image_tooltip: Option<String>,
    small_image_key: Option<String>,
    small_image_tooltip: Option<String>,
}

impl<const N: bool, const P: bool> View for GameBuilder<N, P> {
    type V = GameView;

    closed spec fn view(&self) -> GameView {
        GameView {
            name: self.name@,
            platform: self.platform@,
            large_image_key: opt_view(self.large_image_key),
            large_image_tooltip: opt_view(self.large_image_tooltip),
            small_image_key: opt_view(self.small_image_key),
            small_image_tooltip: opt_view(self.small_image_tooltip),
        }
    }
}

impl Game {
    /// A builder that has been given nothing yet.
    pub fn builder() -> (builder: GameBuilder<false, false>)
        ensures
            builder@ == (GameView {
                name: Seq::empty(),
                platform: Seq::empty(),
                large_image_key: None,
                large_image_tooltip: None,
                small_image_key: None,
                small_image_tooltip: None,
            }),
    {
        GameBuilder {
            name: String::new(),
            platform: String::new(),
            large_image_key: None,
            large_image_tooltip: None,
            small_image_key: None,
            small_image_tooltip: None,
        }
    }
}

impl<const P: bool> GameBuilder<false, P> {
    /// Gives the name.
    pub fn name(self, name: String) -> (builder: GameBuilder<true, P>)
        ensures
            builder@ == (GameView { name: name@, ..self@ }),
    {
        GameBuilder {
            name,
            platform: self.platform,
            large_image_key: self.large_image_key,
            large_image_tooltip: self.large_image_tooltip,
            small_image_key: self.small_image_key,
            small_image_tooltip: self.small_image_tooltip,
        }
    }
}

impl<const N: bool> GameBuilder<N, false> {
    /// Gives the platform.
    pub fn platform(self, platform: String) -> (builder: GameBuilder<N, true>)
        ensures
            builder@ == (GameView { platform: platform@, ..self@ }),
    {
        GameBuilder {
            name: self.name,
            platform,
            large_image_key: self.large_image_key,
            large_image_tooltip: self.large_image_tooltip,
            small_image_key: self.small_image_key,
            small_image_tooltip: self.small_image_tooltip,
        }
    }
}

impl<const N: bool, const P: bool> GameBuilder<N, P> {
    /// Gives the key of the large image.
    pub fn large_image_key(self, key: String) -> (builder: Self)
        ensures
            builder@ == (GameView { large_image_key: Some(key@), ..self@ }),
    {
        self.maybe_large_image_key(Some(key))
    }

    /// Gives the key of the large image, or none.
    pub fn maybe_large_image_key(self, key: Option<String>) -> (builder: Self)
        ensures
            builder@ == (GameView { large_image_key: opt_view(key), ..self@ }),
    {
        let mut builder = self;
        builder.large_image_key = key;
        builder
    }

    /// Gives the tooltip of the large image.
    pub fn large_image_tooltip(self, tooltip: String) -> (builder: Self)
        ensures
            builder@ == (GameView { large_image_tooltip: Some(tooltip@), ..self@ }),
    {
        self.maybe_large_image_tooltip(Some(tooltip))
    }

    /// Gives the tooltip of the large image, or none.
    pub fn maybe_large_image_tooltip(self, tooltip: Option<String>) -> (builder: Self)
        ensures
            builder@ == (GameView { large_image_tooltip: opt_view(tooltip), ..self@ }),
    {
        let mut builder = self;
        builder.large_image_tooltip = tooltip;
        builder
    }

    /// Gives the key of the small image.
    pub fn small_image_key(self, key: String) -> (builder: Self)
        ensures
            builder@ == (GameView { small_image_key: Some(key@), ..self@ }),
    {
        self.maybe_small_image_key(Some(key))
    }

    /// Gives the key of the small image, or none.
    pub fn maybe_small_image_key(self, key: Option<String>) -> (builder: Self)
        ensures
            builder@ == (GameView { small_image_key: opt_view(key), ..self@ }),
    {
        let mut builder = self;
        builder.small_image_key = key;
        builder
    }

    /// Gives the tooltip of the small image.
    pub fn small_image_tooltip(self, tooltip: String) -> (builder: Self)
        ensures
            builder@ == (GameView { small_image_tooltip: Some(tooltip@), ..self@ }),
    {
        self.maybe_small_image_tooltip(Some(tooltip))
    }

    /// Gives the tooltip of the small image, or none.
    pub fn maybe_small_image_tooltip(self, tooltip: Option<String>) -> (builder: Self)
        ensures
            builder@ == (GameView { small_image_tooltip: opt_view(tooltip), ..self@ }),
    {
        let mut builder = self;
        builder.small_image_tooltip = tooltip;
        builder
    }
}

impl GameBuilder<true, true> {
    /// The game that was described, with no activity yet.
    pub fn build(self) -> (game: Game)
        ensures
            game@ == self@,
            game.generated() is None,
    {
        Game::new(
            self.name,
            self.platform,
            self.large_image_key,
            self.large_image_tooltip,
            self.small_image_key,
            self.small_image_tooltip,
        )
    }
}

} // verus!
