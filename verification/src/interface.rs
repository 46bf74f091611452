//! Interface state that does not depend on geometry: alignment kinds, input
//! enumerations, and the press/release logic of buttons, lists and text
//! fields. Hit tests are made by the caller and passed in.
use vstd::prelude::*;
use vstd::string::*;
use vstd::utf8::encode_utf8;

verus! {

broadcast use vstd::string::group_string_axioms;

/// Horizontal alignment.
#[derive(Clone, Copy, Debug, PartialEq, Eq, Structural)]
pub enum AlignX {
    Left,
    Center,
    Right,
}

/// Vertical alignment.
#[derive(Clone, Copy, Debug, PartialEq, Eq, Structural)]
pub enum AlignY {
    Up,
    Center,
    Down,
}

/// Alignment of a block inside an area.
#[derive(Clone, Copy, Debug, PartialEq, Eq, Structural)]
pub struct Align {
    pub x: AlignX,
    pub y: AlignY,
}

impl Align {
    /// Centred on both axes.
    pub fn center() -> (r: Align)
        ensures
            r.x == AlignX::Center,
            r.y == AlignY::Center,
    {
        Align { x: AlignX::Center, y: AlignY::Center }
    }
}

/// Mouse buttons that the game handles.
#[derive(Clone, Copy, Debug, PartialEq, Eq, Structural)]
pub enum MouseButton {
    Left,
    Middle,
    Right,
}

/// Keyboard keys that the game tells apart.
#[derive(Clone, Copy, Debug, PartialEq, Eq, Structural)]
pub enum KeyboardButton {
    One,
    Two,
    Three,
    Four,
    Five,
    Six,
    Seven,
    Eight,
    Nine,
    Zero,
    A,
    B,
    C,
    D,
    E,
    F,
    G,
    H,
    I,
    J,
    K,
    L,
    M,
    N,
    O,
    P,
    Q,
    R,
    S,
    T,
    U,
    V,
    W,
    X,
    Y,
    Z,
    Escape,
    F1,
    F2,
    F3,
    F4,
    F5,
    F6,
    F7,
    F8,
    F9,
    F10,
    F11,
    F12,
    F13,
    F14,
    F15,
    F16,
    F17,
    F18,
    F19,
    F20,
    F21,
    F22,
    F23,
    F24,
    Screenshot,
    Scroll,
    Pause,
    Insert,
    Home,
    Delete,
    End,
    PageDown,
    PageUp,
    Left,
    Up,
    Right,
    Down,
    Backspace,
    Enter,
    Space,
    Compose,
    Caret,
    Numlock,
    Numpad0,
    Numpad1,
    Numpad2,
    Numpad3,
    Numpad4,
    Numpad5,
    Numpad6,
    Numpad7,
    Numpad8,
    Numpad9,
    AbntC1,
    AbntC2,
    Add,
    Apostrophe,
    Apps,
    At,
    Ax,
    Backslash,
    Calculator,
    Capital,
    Colon,
    Comma,
    Convert,
    Decimal,
    Divide,
    Equals,
    Grave,
    Kana,
    Kanji,
    LeftAlt,
    LeftBracket,
    LeftControl,
    LeftShift,
    LeftWin,
    Mail,
    MediaSelect,
    MediaStop,
    Minus,
    Multiply,
    Mute,
    MyComputer,
    NavigateForward,
    NavigateBackward,
    NextTrack,
    NoConvert,
    NumpadComma,
    NumpadEnter,
    NumpadEquals,
    OEM102,
    Period,
    PlayPause,
    Power,
    PrevTrack,
    RightAlt,
    RightBracket,
    RightControl,
    RightShift,
    RightWin,
    Semicolon,
    Slash,
    Sleep,
    Stop,
    Subtract,
    Sysrq,
    Tab,
    Underline,
    Unlabeled,
    VolumeDown,
    VolumeUp,
    Wake,
    WebBack,
    WebFavorites,
    WebForward,
    WebHome,
    WebRefresh,
    WebSearch,
    WebStop,
    Yen,
    Copy,
    Paste,
    Cut,
    Unknown,
}

/// The character that typed input passes on: Delete, Escape, Backspace,
/// carriage return, line feed and tab are dropped.
pub open spec fn typed(c: char) -> Option<char> {
    if c == '\u{7f}' || c == '\u{1b}' || c == '\u{8}' || c == '\r' || c == '\n' || c == '\t' {
        None
    } else {
        Some(c)
    }
}

/// The character that typed input passes on (see `typed`).
pub fn typed_character(c: char) -> (r: Option<char>)
    ensures
        r == typed(c),
{
    match c {
        '\u{7f}' | '\u{1b}' | '\u{8}' | '\r' | '\n' | '\t' => None,
        ch => Some(ch),
    }
}

/// Direction in which a page slides in.
#[derive(Clone, Copy, Debug, PartialEq, Eq, Structural)]
pub enum SwipeDirection {
    Up,
    Down,
    Left,
    Right,
}

/// Something that can tell whether it is pressed.
pub trait Clickable {
    fn pressed(&self) -> bool;
}

/// What a list was pressed or released on.
#[derive(Clone, Copy, Debug, PartialEq, Eq, Structural)]
pub enum ListFocus {
    Nothing,
    Base,
    Item(usize),
}

/// What a press on a list hits. `on_base`: the pointer is on the base;
/// `on_item`: the item row under the pointer when it is within the height of
/// the open list. The base takes precedence; items count only while the list
/// is open.
pub open spec fn press_focus(on_base: bool, list_opened: bool, on_item: Option<usize>) -> ListFocus {
    if on_base {
        ListFocus::Base
    } else if list_opened && on_item is Some {
        ListFocus::Item(on_item->0)
    } else {
        ListFocus::Nothing
    }
}

/// What a release on a list completes, given what the last press hit.
/// `on_base`: the pointer is on the base; `item_below`: the item row under
/// the pointer when it is below the base. A release completes a click on
/// what was pressed, if it is still under the pointer.
pub open spec fn release_focus(pressed: ListFocus, on_base: bool, item_below: Option<usize>) -> ListFocus {
    match pressed {
        ListFocus::Base => if on_base {
            ListFocus::Base
        } else {
            ListFocus::Nothing
        },
        ListFocus::Item(item) => if item_below == Some(item) {
            ListFocus::Item(item)
        } else {
            ListFocus::Nothing
        },
        ListFocus::Nothing => ListFocus::Nothing,
    }
}

/// A completed click on the base opens or closes the list; a completed click
/// on an item chooses it.
pub open spec fn after_release(
    completed: ListFocus,
    list_opened: bool,
    chosen_item: Option<usize>,
) -> (bool, Option<usize>) {
    match completed {
        ListFocus::Base => (!list_opened, chosen_item),
        ListFocus::Item(c) => (list_opened, Some(c)),
        ListFocus::Nothing => (list_opened, chosen_item),
    }
}

/// The state of a drop-down list: what the last press hit, the chosen item,
/// and whether the list of items is open.
pub struct ListState {
    pub pressed: ListFocus,
    pub chosen_item: Option<usize>,
    pub list_opened: bool,
}

impl ListState {
    /// A closed list with `chosen_item` chosen and nothing pressed.
    pub fn new(chosen_item: Option<usize>) -> (r: ListState)
        ensures
            r.pressed == ListFocus::Nothing,
            r.chosen_item == chosen_item,
            !r.list_opened,
    {
        ListState { pressed: ListFocus::Nothing, chosen_item, list_opened: false }
    }

    /// A press (see `press_focus`); returns what it hit.
    pub fn pressed(&mut self, on_base: bool, on_item: Option<usize>) -> (r: ListFocus)
        ensures
            r == press_focus(on_base, old(self).list_opened, on_item),
            final(self).pressed == r,
            final(self).chosen_item == old(self).chosen_item,
            final(self).list_opened == old(self).list_opened,
    {
        self.pressed = if on_base {
            ListFocus::Base
        } else {
            if self.list_opened {
                match on_item {
                    Some(c) => ListFocus::Item(c),
                    None => ListFocus::Nothing,
                }
            } else {
                ListFocus::Nothing
            }
        };
        self.pressed
    }

    /// A release (see `release_focus` and `after_release`); returns the click
    /// it completes.
    pub fn released(&mut self, on_base: bool, item_below: Option<usize>) -> (r: ListFocus)
        ensures
            r == release_focus(old(self).pressed, on_base, item_below),
            final(self).pressed == old(self).pressed,
            (final(self).list_opened, final(self).chosen_item) == after_release(
                r,
                old(self).list_opened,
                old(self).chosen_item,
            ),
    {
        match self.pressed {
            ListFocus::Base => {
                if on_base {
                    self.list_opened = !self.list_opened;
                    ListFocus::Base
                } else {
                    ListFocus::Nothing
                }
            },
            ListFocus::Item(item) => {
                match item_below {
                    Some(c) => {
                        if item == c {
                            self.chosen_item = Some(c);
                            ListFocus::Item(c)
                        } else {
                            ListFocus::Nothing
                        }
                    },
                    None => ListFocus::Nothing,
                }
            },
            ListFocus::Nothing => ListFocus::Nothing,
        }
    }
}

/// An item is chosen only by a release on the item that the last press hit.
pub proof fn lemma_list_item_needs_press_and_release(
    pressed: ListFocus,
    on_base: bool,
    item_below: Option<usize>,
    c: usize,
)
    ensures
        release_focus(pressed, on_base, item_below) == ListFocus::Item(c) ==> pressed
            == ListFocus::Item(c) && item_below == Some(c),
{
}

/// A release that completes no click leaves the list as it was; the list
/// opens or closes, turning over, only on a completed click on the base (a
/// press on the base and a release on it), and the chosen item changes only
/// to the item that was pressed and released on.
pub proof fn lemma_list_changes_only_on_completed_clicks(
    pressed: ListFocus,
    on_base: bool,
    item_below: Option<usize>,
    list_opened: bool,
    chosen_item: Option<usize>,
)
    ensures
        after_release(ListFocus::Nothing, list_opened, chosen_item) == (list_opened, chosen_item),
        ({
            let after = after_release(
                release_focus(pressed, on_base, item_below),
                list_opened,
                chosen_item,
            );
            &&& after.0 != list_opened <==> (pressed == ListFocus::Base && on_base)
            &&& after.0 != list_opened ==> after.0 == !list_opened && after.1 == chosen_item
            &&& after.1 != chosen_item ==> pressed is Item && item_below == Some(pressed->0)
                && after.1 == item_below && after.0 == list_opened
        }),
{
}

/// Two completed clicks on the base leave the list as it was.
pub proof fn lemma_two_base_clicks_restore(list_opened: bool, chosen_item: Option<usize>)
    ensures
        ({
            let first = after_release(
                release_focus(press_focus(true, list_opened, None), true, None),
                list_opened,
                chosen_item,
            );
            after_release(
                release_focus(press_focus(true, first.0, None), true, None),
                first.0,
                first.1,
            )
        }) == (list_opened, chosen_item),
{
}

/// Whether a button is pressed after a press, `inside` it or not.
pub open spec fn after_press(inside: bool) -> bool {
    inside
}

/// A release, `inside` the button or not, on a button that is `pressed` or
/// not: whether it is pressed afterwards, and whether the release completes
/// a click (it does when the button was pressed and the release is inside).
pub open spec fn after_click_release(pressed: bool, inside: bool) -> (bool, bool) {
    (false, pressed && inside)
}

/// Press-and-release logic of a button: a click counts when both the press
/// and the release are inside the button.
pub struct ClickState {
    pub pressed: bool,
}

impl ClickState {
    /// Not pressed.
    pub fn new() -> (r: ClickState)
        ensures
            !r.pressed,
    {
        ClickState { pressed: false }
    }

    /// A press, `inside` the button or not; says whether the button is now
    /// pressed (see `after_press`).
    pub fn pressed(&mut self, inside: bool) -> (r: bool)
        ensures
            final(self).pressed == after_press(inside),
            r == final(self).pressed,
    {
        self.pressed = inside;
        self.pressed
    }

    /// A release, `inside` the button or not; says whether it completes a
    /// click (see `after_click_release`).
    pub fn released(&mut self, inside: bool) -> (r: bool)
        ensures
            (final(self).pressed, r) == after_click_release(old(self).pressed, inside),
    {
        if self.pressed {
            self.pressed = false;
            if inside {
                true
            } else {
                false
            }
        } else {
            false
        }
    }
}

/// Whatever state the button was in, a press and then a release make a click
/// exactly when both are inside it, and a further release with no press in
/// between makes none; a release on a button that was never pressed makes
/// none either.
pub proof fn lemma_press_release_release(press_inside: bool, release_inside: bool, again_inside: bool)
    ensures
        after_click_release(after_press(press_inside), release_inside).1 == (press_inside
            && release_inside),
        !after_click_release(
            after_click_release(after_press(press_inside), release_inside).0,
            again_inside,
        ).1,
        !after_click_release(false, again_inside).1,
{
}

/// Appends `c` to `s` (`String::push`).
#[verifier::external_body]
fn string_push(s: &mut String, c: char)
    ensures
        final(s)@ == old(s)@.push(c),
{
    s.push(c)
}

/// A push of `ch` on `text` with the byte limit `limit`: whether it is added
/// (the text is shorter than the limit in UTF-8 bytes) and the new text.
pub open spec fn push_outcome(text: Seq<char>, limit: nat, ch: char) -> (bool, Seq<char>) {
    let fits = (encode_utf8(text).len() as usize) < limit;
    (
        fits,
        if fits {
            text.push(ch)
        } else {
            text
        },
    )
}

/// A pop on `text`: the removed last character, if any, and the new text.
pub open spec fn pop_outcome(text: Seq<char>) -> (Option<char>, Seq<char>) {
    if text.len() == 0 {
        (None, text)
    } else {
        (Some(text.last()), text.drop_last())
    }
}

/// A pop right after a push that added a character takes that character off
/// again and gives back the text as it was.
pub proof fn lemma_pop_undoes_push(text: Seq<char>, limit: nat, ch: char)
    ensures
        push_outcome(text, limit, ch).0 ==> pop_outcome(push_outcome(text, limit, ch).1) == (
            Some(ch),
            text,
        ),
{
    assert(text.push(ch).drop_last() =~= text);
}

/// An editable line of text that holds at most `capacity` bytes before a
/// character is added (the check is made before each addition).
pub struct EditLine {
    line: String,
    capacity: usize,
}

impl EditLine {
    /// The text.
    pub closed spec fn view(&self) -> Seq<char> {
        self.line@
    }

    /// The byte limit.
    pub closed spec fn limit(&self) -> nat {
        self.capacity as nat
    }

    /// A line holding `text`, with the byte limit `capacity`.
    pub fn new(text: String, capacity: usize) -> (r: EditLine)
        ensures
            r.view() == text@,
            r.limit() == capacity,
    {
        EditLine { line: text, capacity }
    }

    /// The text.
    pub fn text(&self) -> (r: &String)
        ensures
            r@ == self.view(),
    {
        &self.line
    }

    /// Adds `ch` at the end when the text is shorter than the limit in bytes
    /// (UTF-8); says whether it did (see `push_outcome`).
    pub fn push_char(&mut self, ch: char) -> (r: bool)
        ensures
            (r, final(self).view()) == push_outcome(old(self).view(), old(self).limit(), ch),
            final(self).limit() == old(self).limit(),
    {
        if self.line.as_str().len() < self.capacity {
            string_push(&mut self.line, ch);
            true
        } else {
            false
        }
    }

    /// Removes the last character, if any, and returns it (see `pop_outcome`).
    pub fn pop_char(&mut self) -> (r: Option<char>)
        ensures
            (r, final(self).view()) == pop_outcome(old(self).view()),
            final(self).limit() == old(self).limit(),
    {
        let n = self.line.as_str().unicode_len();
        if n == 0 {
            None
        } else {
            let last = self.line.as_str().get_char(n - 1);
            let rest = self.line.as_str().substring_char(0, n - 1).to_owned();
            self.line = rest;
            Some(last)
        }
    }
}

} // verus!
