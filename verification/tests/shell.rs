use ama_agent::events::{Effect, UiEvent};
use ama_agent::shell::{Shell, TrayAction, tray_menu_action, is_main_window};
use ama_agent::shell::{hide_report, HideOutcome};

fn show_effects() -> Vec<Effect> {
    vec![
        Effect::ShowWindow,
        Effect::FocusWindow,
        Effect::Emit(UiEvent::WindowShown),
    ]
}

fn hide_effects() -> Vec<Effect> {
    vec![Effect::HideWindow, Effect::Emit(UiEvent::WindowHidden)]
}

#[test]
fn menu_binding_maps_show_and_quit() {
    assert_eq!(tray_menu_action(&String::from("show")), TrayAction::Show);
    assert_eq!(tray_menu_action(&String::from("quit")), TrayAction::Quit);
    assert_eq!(tray_menu_action(&String::from("settings")), TrayAction::Ignore);
    assert_eq!(tray_menu_action(&String::from("")), TrayAction::Ignore);
    assert_eq!(tray_menu_action(&String::from("Show")), TrayAction::Ignore);
}

#[test]
fn main_window_label_is_recognized() {
    assert!(is_main_window(&String::from("main")));
    assert!(!is_main_window(&String::from("settings")));
    assert!(!is_main_window(&String::from("")));
}

#[test]
fn hotkey_when_hidden_shows_window() {
    let mut shell = Shell::new(false);
    let effects = shell.on_hotkey(1000);
    assert!(shell.is_shown());
    assert_eq!(effects, show_effects());
}

#[test]
fn hotkey_when_shown_emits_shortcut_action_only() {
    let mut shell = Shell::new(true);
    let effects = shell.on_hotkey(1000);
    assert!(shell.is_shown());
    assert_eq!(effects, vec![Effect::Emit(UiEvent::ShortcutAction)]);
}

#[test]
fn hotkey_repeat_within_cooldown_is_dropped_silently() {
    let mut shell = Shell::new(false);
    let first = shell.on_hotkey(1000);
    let second = shell.on_hotkey(1100);
    assert_eq!(first, show_effects());
    assert_eq!(second, Vec::<Effect>::new());
    assert!(shell.is_shown());
}

#[test]
fn hotkey_repeat_after_cooldown_toggles_again() {
    let mut shell = Shell::new(false);
    let first = shell.on_hotkey(1000);
    let second = shell.on_hotkey(1300);
    assert_eq!(first, show_effects());
    assert_eq!(second, vec![Effect::Emit(UiEvent::ShortcutAction)]);
}

#[test]
fn menu_show_shows_window() {
    let mut shell = Shell::new(false);
    let effects = shell.on_menu_select(&String::from("show"));
    assert!(shell.is_shown());
    assert_eq!(effects, show_effects());
}

#[test]
fn menu_quit_exits_without_hiding_when_hidden() {
    let mut shell = Shell::new(false);
    let effects = shell.on_menu_select(&String::from("quit"));
    assert_eq!(effects, vec![Effect::Exit]);
    assert!(!shell.is_shown());
}

#[test]
fn menu_quit_exits_without_hiding_when_shown() {
    let mut shell = Shell::new(true);
    let effects = shell.on_menu_select(&String::from("quit"));
    assert_eq!(effects, vec![Effect::Exit]);
    // Quit bypasses hiding: the state is untouched and no hide is emitted.
    assert!(shell.is_shown());
    assert!(!effects.contains(&Effect::HideWindow));
    assert!(!effects.contains(&Effect::Emit(UiEvent::WindowHidden)));
}

#[test]
fn menu_unknown_item_does_nothing() {
    let mut shell = Shell::new(false);
    let effects = shell.on_menu_select(&String::from("help"));
    assert_eq!(effects, Vec::<Effect>::new());
    assert!(!shell.is_shown());
}

#[test]
fn tray_icon_activation_shows_window() {
    let mut shell = Shell::new(false);
    let effects = shell.on_tray_icon_activation();
    assert!(shell.is_shown());
    assert_eq!(effects, show_effects());
}

#[test]
fn close_request_on_main_window_is_intercepted() {
    let mut shell = Shell::new(true);
    let response = shell.on_close_requested(&String::from("main"));
    assert!(response.prevent_close);
    assert_eq!(response.effects, hide_effects());
    assert!(!shell.is_shown());
}

#[test]
fn close_request_on_main_window_when_hidden_is_intercepted() {
    let mut shell = Shell::new(false);
    let response = shell.on_close_requested(&String::from("main"));
    assert!(response.prevent_close);
    assert_eq!(response.effects, hide_effects());
    assert!(!shell.is_shown());
}

#[test]
fn close_request_on_other_window_is_untouched() {
    let mut shell = Shell::new(true);
    let response = shell.on_close_requested(&String::from("settings"));
    assert!(!response.prevent_close);
    assert_eq!(response.effects, Vec::<Effect>::new());
    assert!(shell.is_shown());
}

#[test]
fn hide_to_tray_hides_and_notifies() {
    let mut shell = Shell::new(true);
    let effects = shell.hide_to_tray();
    assert!(!shell.is_shown());
    assert_eq!(effects, hide_effects());
}

#[test]
fn window_stays_reachable_after_close_interception() {
    let mut shell = Shell::new(true);
    let _ = shell.on_close_requested(&String::from("main"));
    assert!(!shell.is_shown());
    // Still reachable via the hotkey...
    let effects = shell.on_hotkey(5000);
    assert!(shell.is_shown());
    assert_eq!(effects, show_effects());
    // ... and via the tray.
    let _ = shell.on_close_requested(&String::from("main"));
    let effects = shell.on_menu_select(&String::from("show"));
    assert!(shell.is_shown());
    assert_eq!(effects, show_effects());
}

#[test]
fn hide_report_success_only_when_both_steps_succeeded() {
    assert!(hide_report(HideOutcome::Hidden).is_ok());
    assert_eq!(
        hide_report(HideOutcome::HideFailed(String::from("window gone")))
            .err()
            .unwrap(),
        "window gone"
    );
    assert_eq!(
        hide_report(HideOutcome::EmitFailed(String::from("channel closed")))
            .err()
            .unwrap(),
        "channel closed"
    );
}

#[test]
fn hide_notification_follows_the_hide() {
    let mut shell = Shell::new(true);
    let effects = shell.hide_to_tray();
    let hide_at = effects
        .iter()
        .position(|e| *e == Effect::HideWindow)
        .unwrap();
    let emit_at = effects
        .iter()
        .position(|e| *e == Effect::Emit(UiEvent::WindowHidden))
        .unwrap();
    assert!(hide_at < emit_at);
}
