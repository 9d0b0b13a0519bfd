//! A game of the list, and the presence activity that announces it.

use vstd::prelude::*;
use vstd::string::StringExecFns;

pub mod builder;
pub mod gamefile;
pub mod gamelist;

verus! {

/// The most bytes that the presence service takes for one text of an
/// activity.
pub const TEXT_LIMIT: usize = 128;

/// What the presence service is told: each text as it will be shown, empty
/// where nothing is to be shown.
pub struct ActivityView {
    pub state: Seq<char>,
    pub details: Seq<char>,
    pub large_image_key: Seq<char>,
    pub large_image_tooltip: Seq<char>,
    pub small_image_key: Seq<char>,
    pub small_image_tooltip: Seq<char>,
}

/// The presence activity of a game, as plain text. The caller hands it to the
/// presence service.
#[derive(Debug, PartialEq, Eq)]
pub struct Activity {
    state: String,
    details: String,
    large_image_key: String,
    large_image_tooltip: String,
    small_image_key: String,
    small_image_tooltip: String,
}

impl View for Activity {
    type V = ActivityView;

    closed spec fn view(&self) -> ActivityView {
        ActivityView {
            state: self.state@,
            details: self.details@,
            large_image_key: self.large_image_key@,
            large_image_tooltip: self.large_image_tooltip@,
            small_image_key: self.small_image_key@,
            small_image_tooltip: self.small_image_tooltip@,
        }
    }
}

/// The activity that announces a game: its name as the state, its platform as
/// the details, and the artwork that it has.
pub open spec fn activity_of(game: GameView) -> ActivityView {
    ActivityView {
        state: game.name,
        details: game.platform,
        large_image_key: match game.large_image_key {
            Some(s) => s,
            None => Seq::empty(),
        },
        large_image_tooltip: match game.large_image_tooltip {
            Some(s) => s,
            None => Seq::empty(),
        },
        small_image_key: match game.small_image_key {
            Some(s) => s,
            None => Seq::empty(),
        },
        small_image_tooltip: match game.small_image_tooltip {
            Some(s) => s,
            None => Seq::empty(),
        },
    }
}

impl Clone for Activity {
    fn clone(&self) -> (copy: Activity)
        ensures
            copy == *self,
    {
        Activity {
            state: self.state.clone(),
            details: self.details.clone(),
            large_image_key: self.large_image_key.clone(),
            large_image_tooltip: self.large_image_tooltip.clone(),
            small_image_key: self.small_image_key.clone(),
            small_image_tooltip: self.small_image_tooltip.clone(),
        }
    }
}

impl Activity {
    /// The activity with every text empty.
    pub fn empty() -> (activity: Activity)
        ensures
            activity@ == (ActivityView {
                state: Seq::empty(),
                details: Seq::empty(),
                large_image_key: Seq::empty(),
                large_image_tooltip: Seq::empty(),
                small_image_key: Seq::empty(),
                small_image_tooltip: Seq::empty(),
            }),
    {
        Activity {
            state: String::new(),
            details: String::new(),
            large_image_key: String::new(),
            large_image_tooltip: String::new(),
            small_image_key: String::new(),
            small_image_tooltip: String::new(),
        }
    }

    pub fn state(&self) -> (text: &str)
        ensures
            text@ == self@.state,
    {
        self.state.as_str()
    }

    pub fn details(&self) -> (text: &str)
        ensures
            text@ == self@.details,
    {
        self.details.as_str()
    }

    pub fn large_image_key(&self) -> (text: &str)
        ensures
            text@ == self@.large_image_key,
    {
        self.large_image_key.as_str()
    }

    pub fn large_image_tooltip(&self) -> (text: &str)
        ensures
            text@ == self@.large_image_tooltip,
    {
        self.large_image_tooltip.as_str()
    }

    pub fn small_image_key(&self) -> (text: &str)
        ensures
            text@ == self@.small_image_key,
    {
        self.small_image_key.as_str()
    }

    pub fn small_image_tooltip(&self) -> (text: &str)
        ensures
            text@ == self@.small_image_tooltip,
    {
        self.small_image_tooltip.as_str()
    }

}

/// A game as text: its name, its platform and the artwork it has.
pub struct GameView {
    pub name: Seq<char>,
    pub platform: Seq<char>,
    pub large_image_key: Option<Seq<char>>,
    pub large_image_tooltip: Option<Seq<char>>,
    pub small_image_key: Option<Seq<char>>,
    pub small_image_tooltip: Option<Seq<char>>,
}

/// The text of an optional string.
pub open spec fn opt_view(o: Option<String>) -> Option<Seq<char>> {
    match o {
        Some(s) => Some(s@),
        None => None,
    }
}

/// A game of the list. `activity` is what was last generated for it.
#[derive(Debug, PartialEq, Eq)]
pub struct Game {
    name: String,
    platform: String,
    large_image_key: Option<String>,
    large_image_tooltip: Option<String>,
    small_image_key: Option<String>,
    small_image_tooltip: Option<String>,
    activity: Option<Activity>,
}

impl View for Game {
    type V = GameView;

    closed spec fn view(&self) -> GameView {
        GameView {
            name: self.name@,
            platform: self.platform@,
            large_image_key: opt_view(self.large_image_key),
            large_image_tooltip: opt_view(self.large_image_tooltip),
            small_image_key: opt_view(self.small_image_key),
            small_image_tooltip: opt_view(self.small_image_tooltip),
        }
    }
}

/// The game that stands for "nothing is played".
pub open spec fn idle_game() -> GameView {
    GameView {
        name: "Idle"@,
        platform: "No platform"@,
        large_image_key: None,
        large_image_tooltip: None,
        small_image_key: None,
        small_image_tooltip: None,
    }
}

/// The two lines that show a game in the list.
pub open spec fn two_lines(game: GameView) -> Seq<char> {
    game.name + seq!['\n'] + game.platform
}

/// The one line that names a game.
pub open spec fn one_line(game: GameView) -> Seq<char> {
    game.name + " - "@ + game.platform
}

impl Clone for Game {
    fn clone(&self) -> (copy: Game)
        ensures
            copy == *self,
    {
        Game {
            name: self.name.clone(),
            platform: self.platform.clone(),
            large_image_key: clone_text(&self.large_image_key),
            large_image_tooltip: clone_text(&self.large_image_tooltip),
            small_image_key: clone_text(&self.small_image_key),
            small_image_tooltip: clone_text(&self.small_image_tooltip),
            activity: match &self.activity {
                Some(a) => Some(a.clone()),
                None => None,
            },
        }
    }
}

/// A copy of an optional text.
pub fn clone_text(text: &Option<String>) -> (copy: Option<String>)
    ensures
        copy == *text,
{
    match text {
        Some(s) => Some(s.clone()),
        None => None,
    }
}

impl Default for Game {
    fn default() -> (game: Game)
        ensures
            game@ == idle_game(),
            game.generated() is None,
    {
        Game {
            name: "Idle".to_owned(),
            platform: Game::missing_platform(),
            large_image_key: None,
            large_image_tooltip: None,
            small_image_key: None,
            small_image_tooltip: None,
            activity: None,
        }
    }
}

impl Game {
    /// The activity that was last generated for this game.
    pub closed spec fn generated(&self) -> Option<ActivityView> {
        match self.activity {
            Some(a) => Some(a@),
            None => None,
        }
    }

    /// The activity that was last generated for this game.
    pub fn activity(&self) -> (activity: Option<&Activity>)
        ensures
            activity is Some <==> self.generated() is Some,
            activity matches Some(a) ==> self.generated() == Some(a@),
    {
        self.activity.as_ref()
    }

    /// The platform of a game that names none.
    pub fn missing_platform() -> (platform: String)
        ensures
            platform@ == "No platform"@,
    {
        "No platform".to_owned()
    }

    /// A game with this name, platform and artwork, and no activity yet.
    pub fn new(
        name: String,
        platform: String,
        large_image_key: Option<String>,
        large_image_tooltip: Option<String>,
        small_image_key: Option<String>,
        small_image_tooltip: Option<String>,
    ) -> (game: Game)
        ensures
            game@ == (GameView {
                name: name@,
                platform: platform@,
                large_image_key: opt_view(large_image_key),
                large_image_tooltip: opt_view(large_image_tooltip),
                small_image_key: opt_view(small_image_key),
                small_image_tooltip: opt_view(small_image_tooltip),
            }),
            game.generated() is None,
    {
        Game {
            name,
            platform,
            large_image_key,
            large_image_tooltip,
            small_image_key,
            small_image_tooltip,
            activity: None,
        }
    }

    /// The name, a line break, the platform.
    pub fn two_line_view(&self) -> (text: String)
        ensures
            text@ == two_lines(self@),
    {
        let mut text = self.name.clone();
        proof {
            reveal_strlit("\n");
            assert("\n"@ =~= seq!['\n']);
        }
        text.append("\n");
        text.append(self.platform.as_str());
        text
    }

    /// The name, a dash, the platform.
    pub fn to_string(&self) -> (text: String)
        ensures
            text@ == one_line(self@),
    {
        let mut text = self.name.clone();
        text.append(" - ");
        text.append(self.platform.as_str());
        text
    }

    pub fn name(&self) -> (name: &str)
        ensures
            name@ == self@.name,
    {
        self.name.as_str()
    }

    pub fn platform(&self) -> (platform: &str)
        ensures
            platform@ == self@.platform,
    {
        self.platform.as_str()
    }

    pub fn large_image_key(&self) -> (key: Option<&String>)
        ensures
            opt_ref_view(key) == self@.large_image_key,
    {
        self.large_image_key.as_ref()
    }

    pub fn large_image_tooltip(&self) -> (tooltip: Option<&String>)
        ensures
            opt_ref_view(tooltip) == self@.large_image_tooltip,
    {
        self.large_image_tooltip.as_ref()
    }

    pub fn small_image_key(&self) -> (key: Option<&String>)
        ensures
            opt_ref_view(key) == self@.small_image_key,
    {
        self.small_image_key.as_ref()
    }

    pub fn small_image_tooltip(&self) -> (tooltip: Option<&String>)
        ensures
            opt_ref_view(tooltip) == self@.small_image_tooltip,
    {
        self.small_image_tooltip.as_ref()
    }

    /// The activity that announces this game.
    pub fn to_activity(&self) -> (activity: Activity)
        ensures
            activity@ == activity_of(self@),
    {
        let mut activity = Activity::empty();
        activity.state = self.name.clone();
        activity.details = self.platform.clone();
        match &self.large_image_key {
            Some(key) => {
                activity.large_image_key = key.clone();
            },
            None => {},
        }
        match &self.large_image_tooltip {
            Some(tooltip) => {
                activity.large_image_tooltip = tooltip.clone();
            },
            None => {},
        }
        match &self.small_image_key {
            Some(key) => {
                activity.small_image_key = key.clone();
            },
            None => {},
        }
        match &self.small_image_tooltip {
            Some(tooltip) => {
                activity.small_image_tooltip = tooltip.clone();
            },
            None => {},
        }
        activity
    }

    /// Generates the activity that announces this game and keeps it.
    pub fn generate_activity(&mut self)
        ensures
            final(self)@ == old(self)@,
            final(self).generated() == Some(activity_of(old(self)@)),
    {
        let activity = self.to_activity();
        self.activity = Some(activity);
    }
}

/// The text of an optional reference to a string.
pub open spec fn opt_ref_view(o: Option<&String>) -> Option<Seq<char>> {
    match o {
        Some(s) => Some(s@),
        None => None,
    }
}

impl From<&Game> for Activity {
    fn from(game: &Game) -> (activity: Activity)
        ensures
            activity@ == activity_of(game@),
    {
        game.to_activity()
    }
}

impl vstd::std_specs::convert::FromSpecImpl<&Game> for Activity {
    open spec fn obeys_from_spec() -> bool {
        false
    }

    open spec fn from_spec(game: &Game) -> Activity {
        arbitrary()
    }
}

/// Games as text, in order.
pub open spec fn views(games: Seq<Game>) -> Seq<GameView> {
    games.map_values(|g: Game| g@)
}

} // verus!
