//! The window-visibility state machine.
//!
//! One authoritative copy of the visible/hidden state lives in
//! [`VisibilityController`]; every reader queries the controller rather than
//! caching the value. Each operation returns the effects the caller must
//! perform; no return value carries state beyond those effects.

use vstd::prelude::*;

use crate::events::{show_effects, hide_effects, Effect, UiEvent};

verus! {

/// Whether the application window is currently visible.
#[derive(Clone, Copy, Debug, PartialEq, Eq, Structural)]
pub enum VisibilityState {
    Shown,
    Hidden,
}

/// Owns the single process-wide [`VisibilityState`].
///
/// Created `Hidden` at process start (or `Shown` in a development-mode
/// variant); mutated only by `show`, `hide` and `toggle`.
pub struct VisibilityController {
    state: VisibilityState,
}

impl VisibilityController {
    /// The window is currently visible.
    pub closed spec fn shown(self) -> bool {
        self.state == VisibilityState::Shown
    }

    /// A fresh controller; `start_shown` selects the development-mode
    /// variant that opens with the window visible.
    pub fn new(start_shown: bool) -> (c: VisibilityController)
        ensures
            c.shown() == start_shown,
    {
        VisibilityController {
            state: if start_shown {
                VisibilityState::Shown
            } else {
                VisibilityState::Hidden
            },
        }
    }

    /// The current state, for readers; never cache the result.
    pub fn is_shown(&self) -> (b: bool)
        ensures
            b == self.shown(),
    {
        match self.state {
            VisibilityState::Shown => true,
            VisibilityState::Hidden => false,
        }
    }

    /// Make the window visible, focus it, and emit `window-shown`.
    /// Idempotent if already shown: the event is re-emitted and focusing is
    /// harmless.
    pub fn show(&mut self) -> (effects: Vec<Effect>)
        ensures
            final(self).shown(),
            effects@ == show_effects(),
    {
        self.state = VisibilityState::Shown;
        let mut effects: Vec<Effect> = Vec::new();
        effects.push(Effect::ShowWindow);
        effects.push(Effect::FocusWindow);
        effects.push(Effect::Emit(UiEvent::WindowShown));
        proof {
            assert(effects@ =~= show_effects());
        }
        effects
    }

    /// Make the window invisible, then emit `window-hidden` once the hide
    /// completes. Idempotent if already hidden.
    pub fn hide_window(&mut self) -> (effects: Vec<Effect>)
        ensures
            !final(self).shown(),
            effects@ == hide_effects(),
    {
        self.state = VisibilityState::Hidden;
        let mut effects: Vec<Effect> = Vec::new();
        effects.push(Effect::HideWindow);
        effects.push(Effect::Emit(UiEvent::WindowHidden));
        proof {
            assert(effects@ =~= hide_effects());
        }
        effects
    }

    /// If the window is hidden, perform the full show sequence; if it is
    /// already shown, leave the state alone and emit exactly one
    /// `shortcut-action`, letting the frontend decide what to do.
    pub fn toggle(&mut self) -> (effects: Vec<Effect>)
        ensures
            old(self).shown() ==> {
                &&& *final(self) == *old(self)
                &&& effects@ == seq![Effect::Emit(UiEvent::ShortcutAction)]
            },
            !old(self).shown() ==> {
                &&& final(self).shown()
                &&& effects@ == show_effects()
            },
    {
        if self.is_shown() {
            let mut effects: Vec<Effect> = Vec::new();
            effects.push(Effect::Emit(UiEvent::ShortcutAction));
            proof {
                assert(effects@ =~= seq![Effect::Emit(UiEvent::ShortcutAction)]);
            }
            effects
        } else {
            self.show()
        }
    }
}

} // verus!
