use codex_switcher::desktop::{
    close_requested, enforce_single_instance, hides_on_launch, CloseAction, InstanceAction,
    LOCK_FILE, MAIN_WINDOW,
};

#[test]
fn the_main_window_is_hidden_instead_of_closed() {
    assert_eq!(close_requested("main", false, false), CloseAction::Hide);
    assert_eq!(close_requested("main", false, true), CloseAction::Hide);
    assert_eq!(close_requested(MAIN_WINDOW, true, false), CloseAction::Hide);
}

#[test]
fn on_macos_the_user_may_be_asked() {
    assert_eq!(close_requested("main", true, true), CloseAction::Prompt);
}

#[test]
fn other_windows_close() {
    assert_eq!(close_requested("tray", true, true), CloseAction::Close);
    assert_eq!(close_requested("", false, false), CloseAction::Close);
}

#[test]
fn the_window_starts_hidden_where_the_settings_say_so() {
    assert!(hides_on_launch(Some(true)));
    assert!(!hides_on_launch(Some(false)));
    assert!(!hides_on_launch(None));
}

#[test]
fn a_second_instance_ends_quietly() {
    assert_eq!(LOCK_FILE, "codex-switcher.lock");
    assert_eq!(enforce_single_instance(true), InstanceAction::Run);
    assert_eq!(enforce_single_instance(false), InstanceAction::Exit(0));
}
