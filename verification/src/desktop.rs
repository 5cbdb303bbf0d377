//! What the desktop application does when it starts and when its window is closed.

use crate::text::same_text;
use vstd::prelude::*;

verus! {

/// The label of the main window.
pub const MAIN_WINDOW: &'static str = "main";

/// The file whose lock the running instance holds.
pub const LOCK_FILE: &'static str = "codex-switcher.lock";

/// What happens when a window is asked to close.
#[derive(Debug, Clone, Copy, PartialEq, Eq, Structural)]
pub enum CloseAction {
    /// It closes.
    Close,
    /// It stays open, and is hidden.
    Hide,
    /// It stays open, and the user is asked what closing it is to do.
    Prompt,
}

/// What happens when a window is asked to close: the main window never closes. On macOS the user
/// may have to be asked first.
pub open spec fn close_action(label: Seq<char>, macos: bool, should_prompt: bool) -> CloseAction {
    if label != MAIN_WINDOW@ {
        CloseAction::Close
    } else if macos && should_prompt {
        CloseAction::Prompt
    } else {
        CloseAction::Hide
    }
}

/// What happens when a window is asked to close.
pub fn close_requested(label: &str, macos: bool, should_prompt: bool) -> (r: CloseAction)
    ensures
        r == close_action(label@, macos, should_prompt),
{
    if !same_text(label, MAIN_WINDOW) {
        CloseAction::Close
    } else if macos && should_prompt {
        CloseAction::Prompt
    } else {
        CloseAction::Hide
    }
}

/// Tells whether the main window is hidden when the application starts: where the settings could
/// be loaded and ask for it.
pub fn hides_on_launch(start_minimized: Option<bool>) -> (r: bool)
    ensures
        r == (start_minimized == Some(true)),
{
    match start_minimized {
        Some(minimized) => minimized,
        None => false,
    }
}

/// What an instance does once it has tried to lock the file.
#[derive(Debug, Clone, Copy, PartialEq, Eq, Structural)]
pub enum InstanceAction {
    /// It runs, and holds the lock as long as it does.
    Run,
    /// It ends with this exit code.
    Exit(i32),
}

/// Another instance runs where the lock could not be had. That is no failure: this one ends, so
/// that two never refresh the same tokens.
pub fn enforce_single_instance(locked: bool) -> (r: InstanceAction)
    ensures
        r == (if locked {
            InstanceAction::Run
        } else {
            InstanceAction::Exit(0)
        }),
{
    if locked {
        InstanceAction::Run
    } else {
        InstanceAction::Exit(0)
    }
}

/// The main window stays open whatever the settings are, and other windows close.
pub proof fn only_the_main_window_stays_open(label: Seq<char>, macos: bool, should_prompt: bool)
    ensures
        close_action(label, macos, should_prompt) is Close <==> label != MAIN_WINDOW@,
{
}

/// The window labelled `main` is never closed: on macOS, where the user has yet to say what closing
/// does, they are asked, and else the window is hidden.
pub proof fn closing_the_main_window(macos: bool, should_prompt: bool)
    ensures
        macos && should_prompt ==> close_action("main"@, macos, should_prompt)
            == CloseAction::Prompt,
        !(macos && should_prompt) ==> close_action("main"@, macos, should_prompt)
            == CloseAction::Hide,
{
}

/// A window with any other label closes, whatever the system and the settings are.
pub proof fn other_windows_close(label: Seq<char>, macos: bool, should_prompt: bool)
    requires
        label != "main"@,
    ensures
        close_action(label, macos, should_prompt) == CloseAction::Close,
{
}

} // verus!
