//! The single-threaded dispatcher that owns the visibility state.
//!
//! Every input source — tray menu, tray icon gesture, the one fixed global
//! hotkey (Control+Shift+Space, registered by the caller at startup), window
//! close request, frontend hide request — posts a logical event here; the
//! shell routes it through the debouncer (hotkey only) into the visibility
//! controller and returns the effects to perform. Funneling every event
//! through one dispatcher keeps the visibility state out of reach of
//! concurrent contexts; only the debouncer's timestamp ever crosses contexts,
//! and its lock is the caller's.

use vstd::prelude::*;

use crate::debounce::ShortcutDebouncer;
use crate::events::{show_effects, hide_effects, Effect, UiEvent};
use crate::visibility::VisibilityController;

verus! {

/// What a tray-menu selection asks for.
#[derive(Clone, Copy, Debug, PartialEq, Eq, Structural)]
pub enum TrayAction {
    /// The `show` item: make the window visible.
    Show,
    /// The `quit` item: terminate the process. The only sanctioned full
    /// termination path; it bypasses hiding and close interception.
    Quit,
    /// Any other identifier: do nothing.
    Ignore,
}

/// The close-interception state of the main window.
#[derive(Clone, Copy, Debug, PartialEq, Eq, Structural)]
pub enum WindowCloseState {
    /// No close request has been intercepted yet.
    Open,
    /// A close request was intercepted and redirected to hiding.
    InterceptedClose,
}

/// The answer to a native close request.
pub struct CloseResponse {
    /// Cancel the underlying close, so the window is never destroyed.
    pub prevent_close: bool,
    /// What to perform instead.
    pub effects: Vec<Effect>,
}

/// The static binding from a menu-item identifier to its action.
pub open spec fn menu_action_of(id: Seq<char>) -> TrayAction {
    if id == "show"@ {
        TrayAction::Show
    } else if id == "quit"@ {
        TrayAction::Quit
    } else {
        TrayAction::Ignore
    }
}

/// The label of the one window whose close requests are intercepted.
pub open spec fn is_main_label(label: Seq<char>) -> bool {
    label == "main"@
}

/// Decide what a menu-item identifier asks for, per [`menu_action_of`].
pub fn tray_menu_action(id: &String) -> (action: TrayAction)
    ensures
        action == menu_action_of(id@),
{
    let show_id: String = "show".to_owned();
    let quit_id: String = "quit".to_owned();
    if *id == show_id {
        TrayAction::Show
    } else if *id == quit_id {
        TrayAction::Quit
    } else {
        TrayAction::Ignore
    }
}

/// Whether a window label names the main window.
pub fn is_main_window(label: &String) -> (main: bool)
    ensures
        main == is_main_label(label@),
{
    let main_label: String = "main".to_owned();
    *label == main_label
}

/// Owns the visibility controller, the hotkey debouncer and the
/// close-interception state, and routes every logical input event.
pub struct Shell {
    vis: VisibilityController,
    deb: ShortcutDebouncer,
    main_close: WindowCloseState,
}

impl Shell {
    /// The window-visibility state machine.
    pub closed spec fn controller(self) -> VisibilityController {
        self.vis
    }

    /// The hotkey debouncer.
    pub closed spec fn debouncer(self) -> ShortcutDebouncer {
        self.deb
    }

    /// The close-interception state of the main window.
    pub closed spec fn close_state(self) -> WindowCloseState {
        self.main_close
    }

    /// The window is currently visible.
    pub open spec fn shown(self) -> bool {
        self.controller().shown()
    }

    /// A fresh shell: no hotkey accepted yet, no close intercepted;
    /// `start_shown` selects the development-mode variant that starts with
    /// the window visible.
    pub fn new(start_shown: bool) -> (shell: Shell)
        ensures
            shell.shown() == start_shown,
            shell.debouncer().last_accepted() is None,
            shell.close_state() is Open,
    {
        Shell {
            vis: VisibilityController::new(start_shown),
            deb: ShortcutDebouncer::new(),
            main_close: WindowCloseState::Open,
        }
    }

    /// The current visibility, for readers; never cache the result.
    pub fn is_shown(&self) -> (shown: bool)
        ensures
            shown == self.shown(),
    {
        self.vis.is_shown()
    }

    /// One global-hotkey activation at instant `now` (milliseconds on a
    /// monotonic clock). A debounced activation is dropped silently — no
    /// effects, nothing changed. An accepted one toggles: it shows a hidden
    /// window in full, and on a visible window emits exactly one
    /// `shortcut-action` without touching visibility.
    pub fn on_hotkey(&mut self, now: u64) -> (effects: Vec<Effect>)
        ensures
            !old(self).debouncer().accepts(now) ==> {
                &&& *final(self) == *old(self)
                &&& effects@ == Seq::<Effect>::empty()
            },
            old(self).debouncer().accepts(now) ==> {
                &&& final(self).debouncer().last_accepted() == Option::Some(now)
                &&& final(self).close_state() == old(self).close_state()
                &&& final(self).shown()
            },
            old(self).debouncer().accepts(now) && old(self).shown() ==> {
                &&& final(self).controller() == old(self).controller()
                &&& effects@ == seq![Effect::Emit(UiEvent::ShortcutAction)]
            },
            old(self).debouncer().accepts(now) && !old(self).shown() ==> effects@
                == show_effects(),
    {
        let accepted = self.deb.accept(now);
        if accepted {
            self.vis.toggle()
        } else {
            Vec::new()
        }
    }

    /// One tray-menu selection. `show` performs the full show sequence;
    /// `quit` asks for immediate process termination (exit code 0) and
    /// nothing else — in particular no hiding; anything else is ignored.
    /// Tray selections are user-paced, so no debounce applies and the
    /// debouncer is untouched.
    pub fn on_menu_select(&mut self, id: &String) -> (effects: Vec<Effect>)
        ensures
            final(self).debouncer() == old(self).debouncer(),
            final(self).close_state() == old(self).close_state(),
            menu_action_of(id@) is Show ==> {
                &&& final(self).shown()
                &&& effects@ == show_effects()
            },
            menu_action_of(id@) is Quit ==> {
                &&& *final(self) == *old(self)
                &&& effects@ == seq![Effect::Exit]
            },
            menu_action_of(id@) is Ignore ==> {
                &&& *final(self) == *old(self)
                &&& effects@ == Seq::<Effect>::empty()
            },
    {
        match tray_menu_action(id) {
            TrayAction::Show => self.vis.show(),
            TrayAction::Quit => {
                let mut effects: Vec<Effect> = Vec::new();
                effects.push(Effect::Exit);
                proof {
                    assert(effects@ =~= seq![Effect::Exit]);
                }
                effects
            },
            TrayAction::Ignore => Vec::new(),
        }
    }

    /// A direct tray-icon activation gesture (which gesture counts —
    /// single or double activation — is the caller's platform choice):
    /// performs the full show sequence, undebounced.
    pub fn on_tray_icon_activation(&mut self) -> (effects: Vec<Effect>)
        ensures
            final(self).shown(),
            final(self).debouncer() == old(self).debouncer(),
            final(self).close_state() == old(self).close_state(),
            effects@ == show_effects(),
    {
        self.vis.show()
    }

    /// A native close request on the window labelled `label`. On the main
    /// window the close is cancelled — the window is never destroyed by this
    /// path — and the shell hides it instead, so the process stays reachable
    /// via tray and hotkey. Any other window closes normally, untouched.
    pub fn on_close_requested(&mut self, label: &String) -> (response: CloseResponse)
        ensures
            final(self).debouncer() == old(self).debouncer(),
            is_main_label(label@) ==> {
                &&& response.prevent_close
                &&& response.effects@ == hide_effects()
                &&& !final(self).shown()
                &&& final(self).close_state() is InterceptedClose
            },
            !is_main_label(label@) ==> {
                &&& !response.prevent_close
                &&& response.effects@ == Seq::<Effect>::empty()
                &&& *final(self) == *old(self)
            },
    {
        if is_main_window(label) {
            self.main_close = WindowCloseState::InterceptedClose;
            let effects = self.vis.hide_window();
            CloseResponse { prevent_close: true, effects }
        } else {
            CloseResponse { prevent_close: false, effects: Vec::new() }
        }
    }

    /// The frontend's own hide request: hide the window to the tray, with
    /// the usual `window-hidden` notification once the hide completes.
    /// Unlike the shell's best-effort notifications, the frontend awaits
    /// this request's answer: the caller performs the effects, reports how
    /// they went, and [`hide_report`] turns the report into it.
    pub fn hide_to_tray(&mut self) -> (effects: Vec<Effect>)
        ensures
            !final(self).shown(),
            final(self).debouncer() == old(self).debouncer(),
            final(self).close_state() == old(self).close_state(),
            effects@ == hide_effects(),
    {
        self.vis.hide_window()
    }
}

/// How performing the hide-to-tray effects went, as the caller reports it.
pub enum HideOutcome {
    /// Hiding the window failed; the notification was not attempted. The
    /// message describes the failure.
    HideFailed(String),
    /// The window hid, but emitting `window-hidden` failed; the message
    /// describes the failure.
    EmitFailed(String),
    /// Both the hide and the notification succeeded.
    Hidden,
}

/// Decide what the hide-to-tray request answers: success exactly when both
/// the hide and the `window-hidden` emission succeeded, and the failing
/// step's own message verbatim otherwise.
pub fn hide_report(outcome: HideOutcome) -> (result: Result<(), String>)
    ensures
        outcome matches HideOutcome::HideFailed(m) ==> result == Err::<(), String>(m),
        outcome matches HideOutcome::EmitFailed(m) ==> result == Err::<(), String>(m),
        outcome is Hidden ==> result == Ok::<(), String>(()),
{
    match outcome {
        HideOutcome::HideFailed(m) => Err(m),
        HideOutcome::EmitFailed(m) => Err(m),
        HideOutcome::Hidden => Ok(()),
    }
}

} // verus!
