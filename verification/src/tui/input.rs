//! The form in which a game is entered or edited.

use vstd::prelude::*;
use crate::game::{Game, GameView};
use crate::tui::field::{cursor_column, scroll_column, Field};
use crate::tui::key::{edits, key_code, key_of, Key};

verus! {

/// The field of the form that takes the keys.
#[derive(Debug, PartialEq, PartialOrd, Ord, Eq, Clone, Copy, Hash, Structural)]
pub enum Selection {
    Name,
    Platform,
    LargeImageKey,
    LargeImageTooltip,
    SmallImageKey,
    SmallImageTooltip,
}

impl Default for Selection {
    fn default() -> (selection: Selection)
        ensures
            selection == Selection::Name,
    {
        Selection::Name
    }
}

impl Selection {
    /// The field below, and the first after the last.
    pub open spec fn below(self) -> Selection {
        match self {
            Selection::Name => Selection::Platform,
            Selection::Platform => Selection::LargeImageKey,
            Selection::LargeImageKey => Selection::LargeImageTooltip,
            Selection::LargeImageTooltip => Selection::SmallImageKey,
            Selection::SmallImageKey => Selection::SmallImageTooltip,
            Selection::SmallImageTooltip => Selection::Name,
        }
    }

    /// The field above, and the last before the first.
    pub open spec fn above(self) -> Selection {
        match self {
            Selection::Name => Selection::SmallImageTooltip,
            Selection::Platform => Selection::Name,
            Selection::LargeImageKey => Selection::Platform,
            Selection::LargeImageTooltip => Selection::LargeImageKey,
            Selection::SmallImageKey => Selection::LargeImageTooltip,
            Selection::SmallImageTooltip => Selection::SmallImageKey,
        }
    }

    /// The place of the field in the form, from 0.
    pub open spec fn index(self) -> int {
        match self {
            Selection::Name => 0,
            Selection::Platform => 1,
            Selection::LargeImageKey => 2,
            Selection::LargeImageTooltip => 3,
            Selection::SmallImageKey => 4,
            Selection::SmallImageTooltip => 5,
        }
    }

    /// The field below this one; `self` stays as it is.
    pub fn next(&mut self) -> (selection: Selection)
        ensures
            selection == old(self).below(),
            *final(self) == *old(self),
    {
        match self {
            Selection::Name => Selection::Platform,
            Selection::Platform => Selection::LargeImageKey,
            Selection::LargeImageKey => Selection::LargeImageTooltip,
            Selection::LargeImageTooltip => Selection::SmallImageKey,
            Selection::SmallImageKey => Selection::SmallImageTooltip,
            Selection::SmallImageTooltip => Selection::Name,
        }
    }

    /// The field above this one; `self` stays as it is.
    pub fn previous(&mut self) -> (selection: Selection)
        ensures
            selection == old(self).above(),
            *final(self) == *old(self),
    {
        match self {
            Selection::Name => Selection::SmallImageTooltip,
            Selection::Platform => Selection::Name,
            Selection::LargeImageKey => Selection::Platform,
            Selection::LargeImageTooltip => Selection::LargeImageKey,
            Selection::SmallImageKey => Selection::LargeImageTooltip,
            Selection::SmallImageTooltip => Selection::SmallImageKey,
        }
    }
}

/// Going down and then up, or up and then down, ends where it began; going
/// down moves one place on, around the six fields.
pub proof fn law_selection_cycles(s: Selection)
    ensures
        s.below().above() == s,
        s.above().below() == s,
        s.below().index() == (s.index() + 1) % 6,
        s.below().below().below().below().below().below() == s,
{
}

/// The form as text: what each field holds, and which field takes the keys.
pub struct InputView {
    pub game: Seq<char>,
    pub platform: Seq<char>,
    pub large_image_key: Seq<char>,
    pub large_image_tooltip: Seq<char>,
    pub small_image_key: Seq<char>,
    pub small_image_tooltip: Seq<char>,
    pub current_selection: Selection,
}

impl InputView {
    /// The text of the field `s`.
    pub open spec fn text_at(self, s: Selection) -> Seq<char> {
        match s {
            Selection::Name => self.game,
            Selection::Platform => self.platform,
            Selection::LargeImageKey => self.large_image_key,
            Selection::LargeImageTooltip => self.large_image_tooltip,
            Selection::SmallImageKey => self.small_image_key,
            Selection::SmallImageTooltip => self.small_image_tooltip,
        }
    }
}

/// A text, unless it is empty.
pub open spec fn filled(text: Seq<char>) -> Option<Seq<char>> {
    if text.len() == 0 {
        None
    } else {
        Some(text)
    }
}

/// A text, empty where there is none.
pub open spec fn or_empty(text: Option<Seq<char>>) -> Seq<char> {
    match text {
        Some(t) => t,
        None => Seq::empty(),
    }
}

/// The game that a form describes: an empty artwork field stands for none.
pub open spec fn game_of(form: InputView) -> GameView {
    GameView {
        name: form.game,
        platform: form.platform,
        large_image_key: filled(form.large_image_key),
        large_image_tooltip: filled(form.large_image_tooltip),
        small_image_key: filled(form.small_image_key),
        small_image_tooltip: filled(form.small_image_tooltip),
    }
}

/// The form in which a game is edited, with the first field selected.
pub open spec fn form_of(game: GameView) -> InputView {
    InputView {
        game: game.name,
        platform: game.platform,
        large_image_key: or_empty(game.large_image_key),
        large_image_tooltip: or_empty(game.large_image_tooltip),
        small_image_key: or_empty(game.small_image_key),
        small_image_tooltip: or_empty(game.small_image_tooltip),
        current_selection: Selection::Name,
    }
}

/// The field that takes the keys after `key`: Tab moves down, BackTab up.
pub open spec fn moved(selection: Selection, key: Option<Key>) -> Selection {
    match key {
        Some(Key::Tab) => selection.below(),
        Some(Key::BackTab) => selection.above(),
        _ => selection,
    }
}

/// How one field is drawn into its box.
#[derive(Debug, Clone, PartialEq, Eq)]
pub struct FieldLayout {
    /// The title on the box's border.
    pub title: &'static str,
    /// The field's text.
    pub text: String,
    /// Whether the field takes the keys, and is to stand out.
    pub selected: bool,
    /// How many columns of the text are scrolled out to the left.
    pub scroll: u16,
    /// Where the terminal's cursor goes, if the field takes the keys.
    pub cursor: Option<(u16, u16)>,
}

/// The title of a field's box.
pub open spec fn title_of(s: Selection) -> Seq<char> {
    match s {
        Selection::Name => "Game"@,
        Selection::Platform => "Platform"@,
        Selection::LargeImageKey => "Large Image Key"@,
        Selection::LargeImageTooltip => "Large Image Tooltip"@,
        Selection::SmallImageKey => "Small Image Key"@,
        Selection::SmallImageTooltip => "Small Image Tooltip"@,
    }
}

/// The cells that a box of `width` cells leaves for text: two go to the
/// border and one to the cursor.
pub open spec fn inner_width(width: u16) -> usize {
    if width < 3 {
        0
    } else {
        (width - 3) as usize
    }
}

/// The sum of two coordinates, held at the highest where it would pass it.
pub open spec fn held_sum(a: u16, b: u16) -> u16 {
    if a + b > u16::MAX {
        u16::MAX
    } else {
        (a + b) as u16
    }
}

/// How far right of the box's corner the cursor stands: one cell for the
/// border, and the cursor's distance from the scrolled-out part.
pub open spec fn cursor_shift(cursor: usize, scroll: usize) -> usize {
    let ahead = if cursor > scroll {
        cursor - scroll
    } else {
        0
    };
    if ahead == usize::MAX {
        usize::MAX
    } else {
        (ahead + 1) as usize
    }
}

/// Where the terminal's cursor goes for a box at column `x`, row `y`: one
/// row below the border, `cursor_shift` cells to the right, the shift taken
/// by its low 16 bits.
pub open spec fn cursor_place(x: u16, y: u16, cursor: usize, scroll: usize) -> (u16, u16) {
    (held_sum(x, cursor_shift(cursor, scroll) as u16), held_sum(y, 1))
}

/// The form: six fields of text, one of which takes the keys.
#[derive(Debug)]
pub struct Input {
    game: Field,
    platform: Field,
    large_image_key: Field,
    large_image_tooltip: Field,
    small_image_key: Field,
    small_image_tooltip: Field,
    current_selection: Selection,
}

impl View for Input {
    type V = InputView;

    closed spec fn view(&self) -> InputView {
        InputView {
            game: self.game@,
            platform: self.platform@,
            large_image_key: self.large_image_key@,
            large_image_tooltip: self.large_image_tooltip@,
            small_image_key: self.small_image_key@,
            small_image_tooltip: self.small_image_tooltip@,
            current_selection: self.current_selection,
        }
    }
}

/// The empty form, with the first field selected.
pub open spec fn empty_form() -> InputView {
    InputView {
        game: Seq::empty(),
        platform: Seq::empty(),
        large_image_key: Seq::empty(),
        large_image_tooltip: Seq::empty(),
        small_image_key: Seq::empty(),
        small_image_tooltip: Seq::empty(),
        current_selection: Selection::Name,
    }
}

impl Default for Input {
    fn default() -> (form: Input)
        ensures
            form@ == empty_form(),
    {
        Input {
            game: Field::empty(),
            platform: Field::empty(),
            large_image_key: Field::empty(),
            large_image_tooltip: Field::empty(),
            small_image_key: Field::empty(),
            small_image_tooltip: Field::empty(),
            current_selection: Selection::Name,
        }
    }
}

/// Where the terminal's cursor goes for a box at column `x`, row `y`, whose
/// text has its cursor at column `cursor` and is scrolled by `scroll`.
pub fn place_cursor(x: u16, y: u16, cursor: usize, scroll: usize) -> (place: (u16, u16))
    ensures
        place == cursor_place(x, y, cursor, scroll),
{
    let ahead: usize = if cursor > scroll {
        cursor - scroll
    } else {
        0
    };
    let shift: usize = ahead.saturating_add(1);
    let column: u16 = x.saturating_add(
        #[verifier::truncate]
        (shift as u16),
    );
    (column, y.saturating_add(1))
}

/// The text of a field, unless the field is empty.
fn filled_text(field: &Field) -> (text: Option<String>)
    ensures
        text is Some <==> field@.len() > 0,
        text matches Some(t) ==> t@ == field@,
{
    let value = field.value();
    if value.is_empty() {
        None
    } else {
        Some(value.to_owned())
    }
}

impl Input {
    /// The name typed so far.
    pub fn name(&self) -> (text: String)
        ensures
            text@ == self@.game,
    {
        self.game.value().to_owned()
    }

    /// The platform typed so far.
    pub fn platform(&self) -> (text: String)
        ensures
            text@ == self@.platform,
    {
        self.platform.value().to_owned()
    }

    /// The field that takes the keys.
    pub fn current_selection(&self) -> (selection: Selection)
        ensures
            selection == self@.current_selection,
    {
        self.current_selection
    }

    /// The key of the large image, unless the field is empty.
    pub fn large_image_key(&self) -> (text: Option<String>)
        ensures
            text is Some <==> self@.large_image_key.len() > 0,
            text matches Some(t) ==> t@ == self@.large_image_key,
    {
        filled_text(&self.large_image_key)
    }

    /// The tooltip of the large image, unless the field is empty.
    pub fn large_image_tooltip(&self) -> (text: Option<String>)
        ensures
            text is Some <==> self@.large_image_tooltip.len() > 0,
            text matches Some(t) ==> t@ == self@.large_image_tooltip,
    {
        filled_text(&self.large_image_tooltip)
    }

    /// The key of the small image, unless the field is empty.
    pub fn small_image_key(&self) -> (text: Option<String>)
        ensures
            text is Some <==> self@.small_image_key.len() > 0,
            text matches Some(t) ==> t@ == self@.small_image_key,
    {
        filled_text(&self.small_image_key)
    }

    /// The tooltip of the small image, unless the field is empty.
    pub fn small_image_tooltip(&self) -> (text: Option<String>)
        ensures
            text is Some <==> self@.small_image_tooltip.len() > 0,
            text matches Some(t) ==> t@ == self@.small_image_tooltip,
    {
        filled_text(&self.small_image_tooltip)
    }

    /// The field `selection` of the form.
    pub closed spec fn field(&self, selection: Selection) -> Field {
        match selection {
            Selection::Name => self.game,
            Selection::Platform => self.platform,
            Selection::LargeImageKey => self.large_image_key,
            Selection::LargeImageTooltip => self.large_image_tooltip,
            Selection::SmallImageKey => self.small_image_key,
            Selection::SmallImageTooltip => self.small_image_tooltip,
        }
    }

    /// How the field `selection` is drawn into a box whose corner is at
    /// column `x`, row `y`, and which is `width` cells wide.
    pub fn render_input(&self, selection: Selection, x: u16, y: u16, width: u16) -> (layout:
        FieldLayout)
        ensures
            layout.title@ == title_of(selection),
            layout.text@ == self@.text_at(selection),
            layout.selected == (selection == self@.current_selection),
            layout.scroll == scroll_column(self.field(selection), inner_width(width)) as u16,
            layout.cursor == if layout.selected {
                Some(
                    cursor_place(
                        x,
                        y,
                        cursor_column(self.field(selection)),
                        scroll_column(self.field(selection), inner_width(width)),
                    ),
                )
            } else {
                None
            },
    {
        let (field, title) = match selection {
            Selection::Name => (&self.game, "Game"),
            Selection::Platform => (&self.platform, "Platform"),
            Selection::LargeImageKey => (&self.large_image_key, "Large Image Key"),
            Selection::LargeImageTooltip => (&self.large_image_tooltip, "Large Image Tooltip"),
            Selection::SmallImageKey => (&self.small_image_key, "Small Image Key"),
            Selection::SmallImageTooltip => (&self.small_image_tooltip, "Small Image Tooltip"),
        };
        let inner: usize = if width < 3 {
            0
        } else {
            (width - 3) as usize
        };
        let scroll: usize = field.visual_scroll(inner);
        let selected = selection == self.current_selection;
        let cursor = if selected {
            Some(place_cursor(x, y, field.visual_cursor(), scroll))
        } else {
            None
        };
        FieldLayout {
            title,
            text: field.value().to_owned(),
            selected,
            scroll: #[verifier::truncate]
            (scroll as u16),
            cursor,
        }
    }

    /// Empties every field and selects the first.
    pub fn reset(&mut self)
        ensures
            final(self)@ == empty_form(),
    {
        self.game = Field::empty();
        self.platform = Field::empty();
        self.large_image_key = Field::empty();
        self.large_image_tooltip = Field::empty();
        self.small_image_key = Field::empty();
        self.small_image_tooltip = Field::empty();
        self.current_selection = Selection::Name;
    }

    /// The game that the form describes.
    pub fn to_game(&self) -> (game: Game)
        ensures
            game@ == game_of(self@),
            game.generated() is None,
    {
        Game::new(
            self.name(),
            self.platform(),
            self.large_image_key(),
            self.large_image_tooltip(),
            self.small_image_key(),
            self.small_image_tooltip(),
        )
    }

    /// Takes in a terminal event whose key is `key` (`None` where the event
    /// is no key event): Tab and BackTab move the selection, and the field
    /// then selected is handed the event. What that field makes of it is the
    /// editor's business; every other field keeps its text, and so does the
    /// selected one where the event's own key is none that edits.
    pub fn handle_key(&mut self, key: Option<Key>, evt: &ratatui::crossterm::event::Event) -> (changed:
        Option<tui_input::StateChanged>)
        ensures
            final(self)@.current_selection == moved(old(self)@.current_selection, key),
            forall|s: Selection|
                s != final(self)@.current_selection
                    ==> #[trigger] final(self)@.text_at(s) == old(self)@.text_at(s),
            !edits(key_of(*evt)) ==> final(self)@ == (InputView {
                current_selection: moved(old(self)@.current_selection, key),
                ..old(self)@
            }),
    {
        match key {
            Some(Key::Tab) => {
                self.current_selection = self.current_selection.next();
            },
            Some(Key::BackTab) => {
                self.current_selection = self.current_selection.previous();
            },
            _ => {},
        }
        match self.current_selection {
            Selection::Name => self.game.handle_event(evt),
            Selection::Platform => self.platform.handle_event(evt),
            Selection::LargeImageKey => self.large_image_key.handle_event(evt),
            Selection::LargeImageTooltip => self.large_image_tooltip.handle_event(evt),
            Selection::SmallImageKey => self.small_image_key.handle_event(evt),
            Selection::SmallImageTooltip => self.small_image_tooltip.handle_event(evt),
        }
    }

    /// Takes in a terminal event. Tab moves the selection one field down and
    /// BackTab one up; any other event leaves it. The field then selected is
    /// handed the event: every other field keeps its text, and so does the
    /// selected one unless the event's key is one that edits.
    pub fn handle_event(&mut self, evt: &ratatui::crossterm::event::Event) -> (changed: Option<
        tui_input::StateChanged,
    >)
        ensures
            final(self)@.current_selection == moved(old(self)@.current_selection, key_of(*evt)),
            forall|s: Selection|
                s != final(self)@.current_selection
                    ==> #[trigger] final(self)@.text_at(s) == old(self)@.text_at(s),
            !edits(key_of(*evt)) ==> final(self)@ == (InputView {
                current_selection: moved(old(self)@.current_selection, key_of(*evt)),
                ..old(self)@
            }),
    {
        let key = key_code(evt);
        self.handle_key(key, evt)
    }
}

impl PartialEq for Input {
    fn eq(&self, other: &Self) -> (equal: bool) {
        self.name() == other.name() && self.platform() == other.platform()
            && self.large_image_key.value().to_owned() == other.large_image_key.value().to_owned()
            && self.large_image_tooltip.value().to_owned()
            == other.large_image_tooltip.value().to_owned()
            && self.small_image_key.value().to_owned() == other.small_image_key.value().to_owned()
            && self.small_image_tooltip.value().to_owned()
            == other.small_image_tooltip.value().to_owned() && self.current_selection
            == other.current_selection
    }
}

impl vstd::std_specs::cmp::PartialEqSpecImpl for Input {
    open spec fn obeys_eq_spec() -> bool {
        true
    }

    open spec fn eq_spec(&self, other: &Self) -> bool {
        self@ == other@
    }
}

impl From<&Input> for Game {
    fn from(form: &Input) -> (game: Game)
        ensures
            game@ == game_of(form@),
    {
        form.to_game()
    }
}

impl vstd::std_specs::convert::FromSpecImpl<&Input> for Game {
    open spec fn obeys_from_spec() -> bool {
        false
    }

    open spec fn from_spec(form: &Input) -> Game {
        arbitrary()
    }
}

impl From<Game> for Input {
    fn from(game: Game) -> (form: Input)
        ensures
            form@ == form_of(game@),
    {
        Input {
            game: Field::new(game.name().to_owned()),
            platform: Field::new(game.platform().to_owned()),
            large_image_key: Field::new(text_or_empty(game.large_image_key())),
            large_image_tooltip: Field::new(text_or_empty(game.large_image_tooltip())),
            small_image_key: Field::new(text_or_empty(game.small_image_key())),
            small_image_tooltip: Field::new(text_or_empty(game.small_image_tooltip())),
            current_selection: Selection::Name,
        }
    }
}

impl vstd::std_specs::convert::FromSpecImpl<Game> for Input {
    open spec fn obeys_from_spec() -> bool {
        false
    }

    open spec fn from_spec(game: Game) -> Input {
        arbitrary()
    }
}

/// A copy of the text, or the empty text where there is none.
fn text_or_empty(text: Option<&String>) -> (copy: String)
    ensures
        copy@ == or_empty(crate::game::opt_ref_view(text)),
{
    match text {
        Some(t) => t.clone(),
        None => String::new(),
    }
}

/// A game put into the form and read back is the same game, provided that
/// none of its artwork texts is present and empty.
pub proof fn law_form_keeps_game(game: GameView)
    requires
        game.large_image_key != Some(Seq::<char>::empty()),
        game.large_image_tooltip != Some(Seq::<char>::empty()),
        game.small_image_key != Some(Seq::<char>::empty()),
        game.small_image_tooltip != Some(Seq::<char>::empty()),
    ensures
        game_of(form_of(game)) == game,
{
    let back = game_of(form_of(game));
    assert(back.large_image_key == game.large_image_key) by {
        if let Some(t) = game.large_image_key {
            assert(t.len() > 0) by {
                if t.len() == 0 {
                    assert(t =~= Seq::<char>::empty());
                }
            }
        }
    }
    assert(back.large_image_tooltip == game.large_image_tooltip) by {
        if let Some(t) = game.large_image_tooltip {
            if t.len() == 0 {
                assert(t =~= Seq::<char>::empty());
            }
        }
    }
    assert(back.small_image_key == game.small_image_key) by {
        if let Some(t) = game.small_image_key {
            if t.len() == 0 {
                assert(t =~= Seq::<char>::empty());
            }
        }
    }
    assert(back.small_image_tooltip == game.small_image_tooltip) by {
        if let Some(t) = game.small_image_tooltip {
            if t.len() == 0 {
                assert(t =~= Seq::<char>::empty());
            }
        }
    }
}

} // verus!
