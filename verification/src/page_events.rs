//! The decisions that the main menu's name entry and the settings page take on
//! each input event: from state and event to the next state and an action for
//! the game to carry out.
use vstd::prelude::*;

use crate::interface::{typed, typed_character};

verus! {

/// An input event while the main menu is shown.
#[derive(Clone, Copy, Debug, PartialEq, Eq, Structural)]
pub enum NameEntryEvent {
    /// The left mouse button goes down, inside the name field or not.
    Press { in_field: bool },
    /// The left mouse button comes up.
    Release,
    /// A character is typed.
    Character(char),
    /// The Escape key.
    Escape,
    /// The Backspace key.
    Backspace,
    /// The Enter key.
    Enter,
}

/// What the main menu does on an input event.
#[derive(Clone, Copy, Debug, PartialEq, Eq, Structural)]
pub enum NameEntryAction {
    /// Nothing.
    Nothing,
    /// The press goes to the menu's buttons.
    MenuPress,
    /// The release goes to the menu's buttons.
    MenuRelease,
    /// The character is added to the name.
    Push(char),
    /// The last character of the name is removed.
    Pop,
    /// The name is kept as the player's name and a new game starts.
    Submit,
}

/// The main menu's answer to `event` while the player's name is being entered
/// (`entering`) or not: whether it is entered afterwards, and the action.
///
/// While the name is entered, a press outside its field ends the entry, typed
/// characters (but for control characters, see `typed`) and Backspace edit
/// it, Enter submits it, and the menu's buttons get no press or release.
/// Escape always ends the entry. Otherwise presses and releases go to the
/// menu, and keys and characters do nothing.
pub open spec fn name_entry(entering: bool, event: NameEntryEvent) -> (bool, NameEntryAction) {
    match event {
        NameEntryEvent::Press { in_field } => {
            if entering {
                (in_field, NameEntryAction::Nothing)
            } else {
                (false, NameEntryAction::MenuPress)
            }
        },
        NameEntryEvent::Release => {
            if entering {
                (true, NameEntryAction::Nothing)
            } else {
                (false, NameEntryAction::MenuRelease)
            }
        },
        NameEntryEvent::Character(c) => {
            if entering {
                match typed(c) {
                    Some(ch) => (true, NameEntryAction::Push(ch)),
                    None => (true, NameEntryAction::Nothing),
                }
            } else {
                (false, NameEntryAction::Nothing)
            }
        },
        NameEntryEvent::Escape => (false, NameEntryAction::Nothing),
        NameEntryEvent::Backspace => {
            if entering {
                (true, NameEntryAction::Pop)
            } else {
                (false, NameEntryAction::Nothing)
            }
        },
        NameEntryEvent::Enter => {
            if entering {
                (true, NameEntryAction::Submit)
            } else {
                (false, NameEntryAction::Nothing)
            }
        },
    }
}

/// The main menu's answer to `event` (see `name_entry`).
pub fn name_entry_step(entering: bool, event: NameEntryEvent) -> (r: (bool, NameEntryAction))
    ensures
        r == name_entry(entering, event),
{
    match event {
        NameEntryEvent::Press { in_field } => {
            if entering {
                (in_field, NameEntryAction::Nothing)
            } else {
                (false, NameEntryAction::MenuPress)
            }
        },
        NameEntryEvent::Release => {
            if entering {
                (true, NameEntryAction::Nothing)
            } else {
                (false, NameEntryAction::MenuRelease)
            }
        },
        NameEntryEvent::Character(c) => {
            if entering {
                match typed_character(c) {
                    Some(ch) => (true, NameEntryAction::Push(ch)),
                    None => (true, NameEntryAction::Nothing),
                }
            } else {
                (false, NameEntryAction::Nothing)
            }
        },
        NameEntryEvent::Escape => (false, NameEntryAction::Nothing),
        NameEntryEvent::Backspace => {
            if entering {
                (true, NameEntryAction::Pop)
            } else {
                (false, NameEntryAction::Nothing)
            }
        },
        NameEntryEvent::Enter => {
            if entering {
                (true, NameEntryAction::Submit)
            } else {
                (false, NameEntryAction::Nothing)
            }
        },
    }
}

/// The name is touched, and a new game started, only while it is being
/// entered: outside the entry no event edits or submits it, and while it is
/// entered the menu's buttons get no event.
pub proof fn lemma_name_changes_only_while_entered(entering: bool, event: NameEntryEvent)
    ensures
        !entering ==> !(name_entry(entering, event).1 is Push) && name_entry(entering, event).1
            != NameEntryAction::Pop && name_entry(entering, event).1 != NameEntryAction::Submit
            && !name_entry(entering, event).0,
        entering ==> name_entry(entering, event).1 != NameEntryAction::MenuPress && name_entry(
            entering,
            event,
        ).1 != NameEntryAction::MenuRelease,
{
}

/// While the name is not being entered, every press and every release of the
/// mouse goes to the menu's buttons, wherever it is; while it is entered, a
/// press keeps the entry exactly when it is inside the name field, and a
/// release does nothing.
pub proof fn lemma_mouse_goes_to_menu_outside_entry(in_field: bool)
    ensures
        name_entry(false, NameEntryEvent::Press { in_field }) == (false, NameEntryAction::MenuPress),
        name_entry(false, NameEntryEvent::Release) == (false, NameEntryAction::MenuRelease),
        name_entry(true, NameEntryEvent::Press { in_field }) == (in_field, NameEntryAction::Nothing),
        name_entry(true, NameEntryEvent::Release) == (true, NameEntryAction::Nothing),
{
}

/// No event starts the name entry (only the menu's new-game button does),
/// Escape always ends it, and while it is entered every typed character
/// other than Delete, Escape, Backspace, carriage return, line feed and tab
/// is added to the name as it is, and those six are dropped.
pub proof fn lemma_entry_starts_only_from_menu(entering: bool, event: NameEntryEvent, c: char)
    ensures
        name_entry(entering, event).0 ==> entering,
        !name_entry(entering, NameEntryEvent::Escape).0,
        (c != '\u{7f}' && c != '\u{1b}' && c != '\u{8}' && c != '\r' && c != '\n' && c != '\t')
            ==> name_entry(true, NameEntryEvent::Character(c)) == (true, NameEntryAction::Push(c)),
        !(c != '\u{7f}' && c != '\u{1b}' && c != '\u{8}' && c != '\r' && c != '\n' && c != '\t')
            ==> name_entry(true, NameEntryEvent::Character(c)) == (true, NameEntryAction::Nothing),
{
}

/// A button of the settings page.
#[derive(Clone, Copy, Debug, PartialEq, Eq, Structural)]
pub enum SettingsButton {
    /// Clears the saved progress.
    Reset,
    /// Goes back to the page that opened the settings.
    Back,
}

/// An input event on the settings page.
#[derive(Clone, Copy, Debug, PartialEq, Eq, Structural)]
pub enum SettingsEvent {
    /// The left mouse button goes down; whether it hits the reset button and
    /// whether it hits the back button.
    Press { reset_hit: bool, back_hit: bool },
    /// The left mouse button comes up; whether the release completes a click
    /// on the button that the last press hit.
    Release { completed: bool },
    /// The Escape key.
    Escape,
}

/// What the settings page does on an input event.
#[derive(Clone, Copy, Debug, PartialEq, Eq, Structural)]
pub enum SettingsAction {
    /// Nothing.
    Nothing,
    /// The page is left.
    Leave,
    /// The saved progress is cleared, so that there is no game to continue.
    ResetProgress,
}

/// The settings page's answer to `event`, with `pressed` the button that the
/// last press hit: that button afterwards, and the action.
///
/// A press hits the reset button first, else the back button, else nothing.
/// A release is answered by the button that the last press hit, which stays
/// the pressed one: a completed click on the back button leaves the page, one
/// on the reset button clears the progress. Escape leaves the page.
pub open spec fn settings_page(pressed: Option<SettingsButton>, event: SettingsEvent) -> (
    Option<SettingsButton>,
    SettingsAction,
) {
    match event {
        SettingsEvent::Press { reset_hit, back_hit } => {
            if reset_hit {
                (Some(SettingsButton::Reset), SettingsAction::Nothing)
            } else if back_hit {
                (Some(SettingsButton::Back), SettingsAction::Nothing)
            } else {
                (None, SettingsAction::Nothing)
            }
        },
        SettingsEvent::Release { completed } => {
            match pressed {
                Some(SettingsButton::Reset) => (
                    pressed,
                    if completed {
                        SettingsAction::ResetProgress
                    } else {
                        SettingsAction::Nothing
                    },
                ),
                Some(SettingsButton::Back) => (
                    pressed,
                    if completed {
                        SettingsAction::Leave
                    } else {
                        SettingsAction::Nothing
                    },
                ),
                None => (None, SettingsAction::Nothing),
            }
        },
        SettingsEvent::Escape => (pressed, SettingsAction::Leave),
    }
}

/// The settings page's answer to `event` (see `settings_page`).
pub fn settings_step(pressed: Option<SettingsButton>, event: SettingsEvent) -> (r: (
    Option<SettingsButton>,
    SettingsAction,
))
    ensures
        r == settings_page(pressed, event),
{
    match event {
        SettingsEvent::Press { reset_hit, back_hit } => {
            if reset_hit {
                (Some(SettingsButton::Reset), SettingsAction::Nothing)
            } else if back_hit {
                (Some(SettingsButton::Back), SettingsAction::Nothing)
            } else {
                (None, SettingsAction::Nothing)
            }
        },
        SettingsEvent::Release { completed } => {
            match pressed {
                Some(SettingsButton::Reset) => {
                    if completed {
                        (pressed, SettingsAction::ResetProgress)
                    } else {
                        (pressed, SettingsAction::Nothing)
                    }
                },
                Some(SettingsButton::Back) => {
                    if completed {
                        (pressed, SettingsAction::Leave)
                    } else {
                        (pressed, SettingsAction::Nothing)
                    }
                },
                None => (None, SettingsAction::Nothing),
            }
        },
        SettingsEvent::Escape => (pressed, SettingsAction::Leave),
    }
}

/// The progress is cleared only by a completed click whose press hit the
/// reset button, and a press alone never leaves the page or clears anything.
pub proof fn lemma_reset_needs_press_and_click(
    pressed: Option<SettingsButton>,
    event: SettingsEvent,
)
    ensures
        settings_page(pressed, event).1 == SettingsAction::ResetProgress ==> pressed == Some(
            SettingsButton::Reset,
        ) && event == (SettingsEvent::Release { completed: true }),
        event is Press ==> settings_page(pressed, event).1 == SettingsAction::Nothing,
{
}

/// The page is left only by Escape or by a completed click whose press hit
/// the back button, and always then; a release that completes no click does
/// nothing, and no release changes which button was pressed.
pub proof fn lemma_leave_only_by_back_or_escape(
    pressed: Option<SettingsButton>,
    event: SettingsEvent,
    completed: bool,
)
    ensures
        settings_page(pressed, event).1 == SettingsAction::Leave <==> (event == SettingsEvent::Escape
            || (pressed == Some(SettingsButton::Back) && event == (SettingsEvent::Release {
            completed: true,
        }))),
        settings_page(pressed, SettingsEvent::Release { completed: false }) == (
            pressed,
            SettingsAction::Nothing,
        ),
        settings_page(pressed, SettingsEvent::Release { completed }).0 == pressed,
        settings_page(pressed, SettingsEvent::Escape).0 == pressed,
{
}

/// A press hits the reset button whenever it is over it, else the back
/// button whenever it is over that, else nothing.
pub proof fn lemma_press_picks_reset_first(
    pressed: Option<SettingsButton>,
    reset_hit: bool,
    back_hit: bool,
)
    ensures
        settings_page(pressed, SettingsEvent::Press { reset_hit, back_hit }).0 == Some(
            SettingsButton::Reset,
        ) <==> reset_hit,
        settings_page(pressed, SettingsEvent::Press { reset_hit, back_hit }).0 == Some(
            SettingsButton::Back,
        ) <==> !reset_hit && back_hit,
        settings_page(pressed, SettingsEvent::Press { reset_hit, back_hit }).0 is None <==> !reset_hit
            && !back_hit,
{
}

} // verus!
