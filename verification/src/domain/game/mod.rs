//! Games as the domain knows them: validated names and platforms, optional
//! artwork, and the requests to create and delete a game.

use vstd::prelude::*;
use vstd::string::StringExecFns;
use crate::text::{is_white_space, lemma_trimmed_is_trimmed, trim, trimmed};

verus! {

/// A game's name: never empty, and without whitespace at either end.
#[derive(Clone, Debug, PartialEq, Eq, PartialOrd, Ord, Hash)]
pub struct Name(String);

impl View for Name {
    type V = Seq<char>;

    closed spec fn view(&self) -> Seq<char> {
        self.0@
    }
}

impl Name {
    /// What holds of every name: it is not empty, and it neither begins nor
    /// ends with whitespace.
    pub open spec fn valid(self) -> bool {
        &&& self@.len() > 0
        &&& !is_white_space(self@[0])
        &&& !is_white_space(self@.last())
    }

    /// The name in `raw` without the whitespace around it, unless nothing is
    /// left of it.
    pub fn new(raw: &str) -> (r: Result<Self, GameNameEmptyError>)
        ensures
            trimmed(raw@).len() == 0 <==> r is Err,
            r matches Ok(name) ==> name@ == trimmed(raw@) && name.valid(),
    {
        proof {
            lemma_trimmed_is_trimmed(raw@);
        }
        let text = trim(raw);
        if text.is_empty() {
            Err(GameNameEmptyError)
        } else {
            Ok(Name(text.to_owned()))
        }
    }

    /// The name as text.
    pub fn to_string(&self) -> (text: String)
        ensures
            text@ == self@,
    {
        self.0.clone()
    }
}

/// The name given was empty, or whitespace only.
#[derive(Clone, Copy, Debug, PartialEq, Eq, Structural)]
pub struct GameNameEmptyError;

impl GameNameEmptyError {
    pub fn to_string(&self) -> (text: String)
        ensures
            text@ == "game name cannot be empty"@,
    {
        "game name cannot be empty".to_owned()
    }
}

/// The platform a game runs on: never empty, and without whitespace at either
/// end.
#[derive(Clone, Debug, PartialEq, Eq, PartialOrd, Ord, Hash)]
pub struct Platform(String);

impl View for Platform {
    type V = Seq<char>;

    closed spec fn view(&self) -> Seq<char> {
        self.0@
    }
}

impl Platform {
    /// What holds of every platform: it is not empty, and it neither begins
    /// nor ends with whitespace.
    pub open spec fn valid(self) -> bool {
        &&& self@.len() > 0
        &&& !is_white_space(self@[0])
        &&& !is_white_space(self@.last())
    }

    /// The platform in `raw` without the whitespace around it, unless nothing
    /// is left of it.
    pub fn new(raw: &str) -> (r: Result<Self, GamePlatformEmptyError>)
        ensures
            trimmed(raw@).len() == 0 <==> r is Err,
            r matches Ok(platform) ==> platform@ == trimmed(raw@) && platform.valid(),
    {
        proof {
            lemma_trimmed_is_trimmed(raw@);
        }
        let text = trim(raw);
        if text.is_empty() {
            Err(GamePlatformEmptyError)
        } else {
            Ok(Platform(text.to_owned()))
        }
    }

    /// The platform as text.
    pub fn to_string(&self) -> (text: String)
        ensures
            text@ == self@,
    {
        self.0.clone()
    }
}

/// The platform given was empty, or whitespace only.
#[derive(Clone, Copy, Debug, PartialEq, Eq, Structural)]
pub struct GamePlatformEmptyError;

impl GamePlatformEmptyError {
    pub fn to_string(&self) -> (text: String)
        ensures
            text@ == "game platform cannot be empty"@,
    {
        "game platform cannot be empty".to_owned()
    }
}

/// The key of a piece of artwork.
#[derive(Clone, Debug, PartialEq, Eq, PartialOrd, Ord, Hash)]
pub struct Image(String);

impl View for Image {
    type V = Seq<char>;

    closed spec fn view(&self) -> Seq<char> {
        self.0@
    }
}

impl Image {
    /// The key as text.
    pub fn to_string(&self) -> (text: String)
        ensures
            text@ == self@,
    {
        self.0.clone()
    }
}

impl From<String> for Image {
    fn from(key: String) -> (image: Image)
        ensures
            image@ == key@,
    {
        Image(key)
    }
}

impl vstd::std_specs::convert::FromSpecImpl<String> for Image {
    open spec fn obeys_from_spec() -> bool {
        true
    }

    closed spec fn from_spec(key: String) -> Image {
        Image(key)
    }
}

/// The text shown when the pointer rests on a piece of artwork.
#[derive(Clone, Debug, PartialEq, Eq, PartialOrd, Ord, Hash)]
pub struct Tooltip(String);

impl View for Tooltip {
    type V = Seq<char>;

    closed spec fn view(&self) -> Seq<char> {
        self.0@
    }
}

impl Tooltip {
    /// The tooltip as text.
    pub fn to_string(&self) -> (text: String)
        ensures
            text@ == self@,
    {
        self.0.clone()
    }
}

impl From<String> for Tooltip {
    fn from(text: String) -> (tooltip: Tooltip)
        ensures
            tooltip@ == text@,
    {
        Tooltip(text)
    }
}

impl vstd::std_specs::convert::FromSpecImpl<String> for Tooltip {
    open spec fn obeys_from_spec() -> bool {
        true
    }

    closed spec fn from_spec(text: String) -> Tooltip {
        Tooltip(text)
    }
}

/// A game as the repository holds it.
pub struct Game {
    name: Name,
    platform: Platform,
    large_image: Option<Image>,
    large_tooltip: Option<Tooltip>,
    small_image: Option<Image>,
    small_tooltip: Option<Tooltip>,
}

/// The text of an optional value.
pub open spec fn opt_text<T: View<V = Seq<char>>>(o: Option<T>) -> Option<Seq<char>> {
    match o {
        Some(t) => Some(t@),
        None => None,
    }
}

/// What a request to create a game asks for, as text.
pub struct GameCreateRequestView {
    pub name: Seq<char>,
    pub platform: Seq<char>,
    pub large_image: Option<Seq<char>>,
    pub large_tooltip: Option<Seq<char>>,
    pub small_image: Option<Seq<char>>,
    pub small_tooltip: Option<Seq<char>>,
}

/// The request to create a game.
#[derive(Clone, Debug, PartialEq, Eq, PartialOrd, Ord, Hash)]
pub struct GameCreateRequest {
    name: Name,
    platform: Platform,
    large_image: Option<Image>,
    large_tooltip: Option<Tooltip>,
    small_image: Option<Image>,
    small_tooltip: Option<Tooltip>,
}

impl View for GameCreateRequest {
    type V = GameCreateRequestView;

    closed spec fn view(&self) -> GameCreateRequestView {
        GameCreateRequestView {
            name: self.name@,
            platform: self.platform@,
            large_image: opt_text(self.large_image),
            large_tooltip: opt_text(self.large_tooltip),
            small_image: opt_text(self.small_image),
            small_tooltip: opt_text(self.small_tooltip),
        }
    }
}

impl GameCreateRequest {
    /// A request for a game with this name and platform and with the artwork
    /// given.
    pub fn new(
        name: Name,
        platform: Platform,
        large_image: Option<Image>,
        large_tooltip: Option<Tooltip>,
        small_image: Option<Image>,
        small_tooltip: Option<Tooltip>,
    ) -> (req: GameCreateRequest)
        ensures
            req@ == (GameCreateRequestView {
                name: name@,
                platform: platform@,
                large_image: opt_text(large_image),
                large_tooltip: opt_text(large_tooltip),
                small_image: opt_text(small_image),
                small_tooltip: opt_text(small_tooltip),
            }),
    {
        GameCreateRequest { name, platform, large_image, large_tooltip, small_image, small_tooltip }
    }

    pub fn name(&self) -> (name: &Name)
        ensures
            name@ == self@.name,
    {
        &self.name
    }

    pub fn platform(&self) -> (platform: &Platform)
        ensures
            platform@ == self@.platform,
    {
        &self.platform
    }

    pub fn large_image(&self) -> (image: Option<&Image>)
        ensures
            image is Some <==> self@.large_image is Some,
            image matches Some(i) ==> self@.large_image == Some(i@),
    {
        self.large_image.as_ref()
    }

    pub fn large_tooltip(&self) -> (tooltip: Option<&Tooltip>)
        ensures
            tooltip is Some <==> self@.large_tooltip is Some,
            tooltip matches Some(t) ==> self@.large_tooltip == Some(t@),
    {
        self.large_tooltip.as_ref()
    }

    pub fn small_image(&self) -> (image: Option<&Image>)
        ensures
            image is Some <==> self@.small_image is Some,
            image matches Some(i) ==> self@.small_image == Some(i@),
    {
        self.small_image.as_ref()
    }

    pub fn small_tooltip(&self) -> (tooltip: Option<&Tooltip>)
        ensures
            tooltip is Some <==> self@.small_tooltip is Some,
            tooltip matches Some(t) ==> self@.small_tooltip == Some(t@),
    {
        self.small_tooltip.as_ref()
    }
}

/// The request to delete the game of a given name.
#[derive(Clone, Debug, PartialEq, Eq, PartialOrd, Ord, Hash)]
pub struct GameDeleteRequest {
    name: Name,
}

impl View for GameDeleteRequest {
    type V = Seq<char>;

    closed spec fn view(&self) -> Seq<char> {
        self.name@
    }
}

impl GameDeleteRequest {
    pub fn name(&self) -> (name: &Name)
        ensures
            name@ == self@,
    {
        &self.name
    }
}

impl From<Name> for GameDeleteRequest {
    fn from(name: Name) -> (req: GameDeleteRequest)
        ensures
            req@ == name@,
    {
        GameDeleteRequest { name }
    }
}

impl vstd::std_specs::convert::FromSpecImpl<Name> for GameDeleteRequest {
    open spec fn obeys_from_spec() -> bool {
        true
    }

    closed spec fn from_spec(name: Name) -> GameDeleteRequest {
        GameDeleteRequest { name }
    }
}

/// A store of games.
pub trait GameRepository {
    /// Stores the game that `req` describes, unless one of its name is there.
    fn create_game(&self, req: &GameCreateRequest) -> Result<Game, GameCreateError>;

    /// Removes the game that `req` names, if there is one.
    fn delete_game(&self, req: &GameDeleteRequest) -> Result<(), GameDeleteError>;
}

/// Why a game was not created.
#[derive(Debug, Clone, PartialEq, Eq)]
pub enum GameCreateError {
    /// A game with this name already exists.
    Duplicate { game_name: Name },
}

/// Why a game was not deleted.
#[derive(Debug, Clone, PartialEq, Eq)]
pub enum GameDeleteError {
    /// No game with this name exists.
    NotFound { game_name: Name },
}

impl GameCreateError {
    /// The text shown to the user for this error.
    pub open spec fn message(self) -> Seq<char> {
        "game with name "@ + self->game_name@ + " already exists"@
    }

    pub fn to_string(&self) -> (text: String)
        ensures
            text@ == self.message(),
    {
        let mut text = "game with name ".to_owned();
        match self {
            GameCreateError::Duplicate { game_name } => {
                text.append(game_name.to_string().as_str());
            },
        }
        text.append(" already exists");
        text
    }
}

impl GameDeleteError {
    /// The text shown to the user for this error.
    pub open spec fn message(self) -> Seq<char> {
        "game with name "@ + self->game_name@ + " does not exist"@
    }

    pub fn to_string(&self) -> (text: String)
        ensures
            text@ == self.message(),
    {
        let mut text = "game with name ".to_owned();
        match self {
            GameDeleteError::NotFound { game_name } => {
                text.append(game_name.to_string().as_str());
            },
        }
        text.append(" does not exist");
        text
    }
}

/// The operations on games that the rest of the program is offered.
pub trait GameService {
    /// Creates the game that `req` describes.
    fn create_game(&self, req: &GameCreateRequest) -> Result<Game, GameCreateError>;

    /// Deletes the game that `req` names.
    fn delete_game(&self, req: &GameDeleteRequest) -> Result<(), GameDeleteError>;
}

} // verus!
