//! Notification events and shell effects.
//!
//! The controllers in this crate never touch the window or the frontend
//! directly: each operation returns the exact sequence of [`Effect`] values
//! the caller must perform, in order. Notification delivery is best-effort
//! (fire-and-forget): a failed emission must never be retried, so that the
//! order of emitted events is never disturbed. Only the frontend's own
//! hide-to-tray request is answered: there the caller reports the failing
//! step back through the shell's hide report.

use vstd::prelude::*;

verus! {

/// A notification event emitted to the frontend collaborator.
#[derive(Clone, Copy, Debug, PartialEq, Eq, Structural)]
pub enum UiEvent {
    /// The window has been made visible (`window-shown`).
    WindowShown,
    /// The window has been hidden (`window-hidden`).
    WindowHidden,
    /// The hotkey fired while the window was already visible
    /// (`shortcut-action`); the frontend decides what to do.
    ShortcutAction,
}

/// One step the caller must perform on behalf of a controller.
#[derive(Clone, Copy, Debug, PartialEq, Eq, Structural)]
pub enum Effect {
    /// Make the window visible.
    ShowWindow,
    /// Give the window input focus.
    FocusWindow,
    /// Make the window invisible.
    HideWindow,
    /// Emit a notification event to the frontend, best-effort.
    Emit(UiEvent),
    /// Terminate the process immediately with exit code 0.
    Exit,
}

/// The wire name of a notification event, as the frontend receives it.
pub open spec fn spec_event_name(event: UiEvent) -> Seq<char> {
    match event {
        UiEvent::WindowShown => "window-shown"@,
        UiEvent::WindowHidden => "window-hidden"@,
        UiEvent::ShortcutAction => "shortcut-action"@,
    }
}

/// The wire name under which an event is emitted.
pub fn event_name(event: UiEvent) -> (name: &'static str)
    ensures
        name@ == spec_event_name(event),
{
    match event {
        UiEvent::WindowShown => "window-shown",
        UiEvent::WindowHidden => "window-hidden",
        UiEvent::ShortcutAction => "shortcut-action",
    }
}

/// The full effect sequence of showing the window: make it visible, focus
/// it, then tell the frontend.
pub open spec fn show_effects() -> Seq<Effect> {
    seq![
        Effect::ShowWindow,
        Effect::FocusWindow,
        Effect::Emit(UiEvent::WindowShown),
    ]
}

/// The full effect sequence of hiding the window: make it invisible, then
/// tell the frontend that the hide completed.
pub open spec fn hide_effects() -> Seq<Effect> {
    seq![Effect::HideWindow, Effect::Emit(UiEvent::WindowHidden)]
}

/// The events among a sequence of effects, in emission order.
pub open spec fn emitted(effects: Seq<Effect>) -> Seq<UiEvent>
    decreases effects.len(),
{
    if effects.len() == 0 {
        Seq::empty()
    } else {
        match effects.first() {
            Effect::Emit(e) => seq![e] + emitted(effects.drop_first()),
            _ => emitted(effects.drop_first()),
        }
    }
}

/// Showing emits exactly one `window-shown` and in particular never a
/// `shortcut-action`.
pub proof fn lemma_show_emits_window_shown_only()
    ensures
        emitted(show_effects()) == seq![UiEvent::WindowShown],
{
    reveal_with_fuel(emitted, 4);
    assert(emitted(show_effects()) =~= seq![UiEvent::WindowShown]);
}

/// Hiding emits exactly one `window-hidden`.
pub proof fn lemma_hide_emits_window_hidden_only()
    ensures
        emitted(hide_effects()) == seq![UiEvent::WindowHidden],
{
    reveal_with_fuel(emitted, 3);
    assert(emitted(hide_effects()) =~= seq![UiEvent::WindowHidden]);
}

} // verus!
