//! What the buttons of the main menu say and do.
use vstd::prelude::*;
use vstd::string::*;

use crate::dialogue::views;

verus! {

broadcast use vstd::string::group_string_axioms;

/// What the game does next.
#[derive(Clone, Copy, Debug, PartialEq, Eq, Structural)]
pub enum Game {
    MainMenu,
    Pause,
    Next,
    Exit,
}

/// What a button of the main menu does.
#[derive(Clone, Copy, Debug, PartialEq, Eq, Structural)]
pub enum MainMenuAction {
    /// Goes on with the saved game.
    Continue,
    /// Asks for the player's name and starts a new game.
    NewGame,
    /// Opens the settings page.
    Settings,
    /// Leaves the game.
    Exit,
}

/// The caption of the button that does `action`.
pub open spec fn action_label(action: MainMenuAction) -> Seq<char> {
    match action {
        MainMenuAction::Continue => "Продолжить"@,
        MainMenuAction::NewGame => "Новая игра"@,
        MainMenuAction::Settings => "Настройки"@,
        MainMenuAction::Exit => "Выход"@,
    }
}

/// The action of the `button`-th button (from the top) of the main menu.
/// The "continue" button is shown only when there is a game to continue.
pub open spec fn menu_action(button: int, continue_game: bool) -> Option<MainMenuAction> {
    let b = if continue_game {
        button
    } else {
        button + 1
    };
    if b == 0 {
        Some(MainMenuAction::Continue)
    } else if b == 1 {
        Some(MainMenuAction::NewGame)
    } else if b == 2 {
        Some(MainMenuAction::Settings)
    } else if b == 3 {
        Some(MainMenuAction::Exit)
    } else {
        None
    }
}

/// The captions of the main menu's buttons, from the top.
pub open spec fn menu_labels(continue_game: bool) -> Seq<Seq<char>> {
    if continue_game {
        seq!["Продолжить"@, "Новая игра"@, "Настройки"@, "Выход"@]
    } else {
        seq!["Новая игра"@, "Настройки"@, "Выход"@]
    }
}

/// The captions of the main menu's buttons, from the top.
pub fn main_menu_buttons(continue_game: bool) -> (r: Vec<String>)
    ensures
        views(r@) == menu_labels(continue_game),
{
    let mut buttons: Vec<String> = Vec::with_capacity(4);
    if continue_game {
        buttons.push(String::from_str("Продолжить"));
    }
    buttons.push(String::from_str("Новая игра"));
    buttons.push(String::from_str("Настройки"));
    buttons.push(String::from_str("Выход"));
    assert(views(buttons@) =~= menu_labels(continue_game));
    buttons
}

/// The action of the `button`-th button of the main menu; `None` past the
/// last button.
pub fn main_menu_action(button: usize, continue_game: bool) -> (r: Option<MainMenuAction>)
    ensures
        r == menu_action(button as int, continue_game),
{
    if continue_game {
        match button {
            0 => Some(MainMenuAction::Continue),
            1 => Some(MainMenuAction::NewGame),
            2 => Some(MainMenuAction::Settings),
            3 => Some(MainMenuAction::Exit),
            _ => None,
        }
    } else {
        match button {
            0 => Some(MainMenuAction::NewGame),
            1 => Some(MainMenuAction::Settings),
            2 => Some(MainMenuAction::Exit),
            _ => None,
        }
    }
}

/// Each button of the main menu does what its caption says, and there is no
/// action past the last button.
pub proof fn lemma_buttons_do_what_they_say(button: int, continue_game: bool)
    requires
        0 <= button,
    ensures
        button < menu_labels(continue_game).len() ==> menu_action(button, continue_game) is Some
            && action_label(menu_action(button, continue_game)->0) == menu_labels(
            continue_game,
        )[button],
        button >= menu_labels(continue_game).len() ==> menu_action(button, continue_game) is None,
{
}


/// What a button of the pause menu does.
#[derive(Clone, Copy, Debug, PartialEq, Eq, Structural)]
pub enum PauseMenuAction {
    /// Goes back to the game.
    Continue,
    /// Goes to the main menu.
    MainMenu,
    /// Opens the settings page.
    Settings,
    /// Leaves the game.
    Exit,
}

/// The captions of the pause menu's buttons, from the top.
pub open spec fn pause_labels() -> Seq<Seq<char>> {
    seq!["Продолжить"@, "Главное меню"@, "Настройки"@, "Выход"@]
}

/// The action of the `button`-th button (from the top) of the pause menu.
pub open spec fn pause_action(button: int) -> Option<PauseMenuAction> {
    if button == 0 {
        Some(PauseMenuAction::Continue)
    } else if button == 1 {
        Some(PauseMenuAction::MainMenu)
    } else if button == 2 {
        Some(PauseMenuAction::Settings)
    } else if button == 3 {
        Some(PauseMenuAction::Exit)
    } else {
        None
    }
}

/// The caption of the pause menu's button that does `action`.
pub open spec fn pause_action_label(action: PauseMenuAction) -> Seq<char> {
    match action {
        PauseMenuAction::Continue => "Продолжить"@,
        PauseMenuAction::MainMenu => "Главное меню"@,
        PauseMenuAction::Settings => "Настройки"@,
        PauseMenuAction::Exit => "Выход"@,
    }
}

/// The captions of the pause menu's buttons, from the top.
pub fn pause_menu_buttons() -> (r: Vec<String>)
    ensures
        views(r@) == pause_labels(),
{
    let mut buttons: Vec<String> = Vec::with_capacity(4);
    buttons.push(String::from_str("Продолжить"));
    buttons.push(String::from_str("Главное меню"));
    buttons.push(String::from_str("Настройки"));
    buttons.push(String::from_str("Выход"));
    assert(views(buttons@) =~= pause_labels());
    buttons
}

/// The action of the `button`-th button of the pause menu; `None` past the
/// last button.
pub fn pause_menu_action(button: usize) -> (r: Option<PauseMenuAction>)
    ensures
        r == pause_action(button as int),
{
    match button {
        0 => Some(PauseMenuAction::Continue),
        1 => Some(PauseMenuAction::MainMenu),
        2 => Some(PauseMenuAction::Settings),
        3 => Some(PauseMenuAction::Exit),
        _ => None,
    }
}

/// Each button of the pause menu does what its caption says, and there is no
/// action past the last button.
pub proof fn lemma_pause_buttons_do_what_they_say(button: int)
    requires
        0 <= button,
    ensures
        button < pause_labels().len() ==> pause_action(button) is Some && pause_action_label(
            pause_action(button)->0,
        ) == pause_labels()[button],
        button >= pause_labels().len() ==> pause_action(button) is None,
{
}

} // verus!
