//! Suppression of repeated global-hotkey activations within a fixed cooldown.
//!
//! Physical key repeat or double delivery of one hardware event must not
//! toggle the window twice. The debouncer keeps the instant of the last
//! accepted activation, in milliseconds on a monotonic clock, and the
//! read-compare-write of [`ShortcutDebouncer::accept`] is one step: the
//! caller that shares a debouncer across execution contexts holds its lock
//! around the whole call, never across I/O or event emission.

use vstd::prelude::*;

verus! {

/// Cooldown between accepted hotkey activations, in milliseconds.
pub const SHORTCUT_DEBOUNCE_MS: u64 = 300;

/// Keeps the instant of the last accepted hotkey activation and decides
/// whether a new activation is far enough from it.
pub struct ShortcutDebouncer {
    last: Option<u64>,
}

impl ShortcutDebouncer {
    /// The instant of the last accepted activation, if any was accepted yet.
    ///
    /// Monotonically non-decreasing: it only ever moves to an instant at
    /// least one full cooldown later.
    pub closed spec fn last_accepted(self) -> Option<u64> {
        self.last
    }

    /// Whether an activation at `now` is out of the cooldown window: the
    /// first activation always is, a later one only when at least
    /// [`SHORTCUT_DEBOUNCE_MS`] milliseconds have passed since the last
    /// accepted one.
    pub open spec fn accepts(self, now: u64) -> bool {
        match self.last_accepted() {
            Option::None => true,
            Option::Some(t) => t + SHORTCUT_DEBOUNCE_MS <= now,
        }
    }

    /// A fresh debouncer that will accept its first activation.
    pub fn new() -> (d: ShortcutDebouncer)
        ensures
            d.last_accepted() is None,
    {
        ShortcutDebouncer { last: Option::None }
    }

    /// Decide one activation: returns `true` and records `now` iff `now` is
    /// out of the cooldown window of the last accepted activation; otherwise
    /// returns `false` and leaves the record unchanged (the rejection is
    /// silent by design).
    pub fn accept(&mut self, now: u64) -> (accepted: bool)
        ensures
            accepted == old(self).accepts(now),
            accepted ==> final(self).last_accepted() == Option::Some(now),
            !accepted ==> *final(self) == *old(self),
    {
        let out_of_cooldown = match self.last {
            Option::None => true,
            Option::Some(t) => now >= t && now - t >= SHORTCUT_DEBOUNCE_MS,
        };
        if out_of_cooldown {
            self.last = Option::Some(now);
        }
        out_of_cooldown
    }
}

/// Two activations closer together than the cooldown never both succeed:
/// when the first is accepted, the second, less than
/// [`SHORTCUT_DEBOUNCE_MS`] milliseconds later, is rejected.
pub proof fn lemma_second_activation_within_cooldown_rejected(
    before: ShortcutDebouncer,
    after_first: ShortcutDebouncer,
    now1: u64,
    now2: u64,
)
    requires
        before.accepts(now1),
        after_first.last_accepted() == Option::Some(now1),
        now1 <= now2,
        now2 - now1 < SHORTCUT_DEBOUNCE_MS,
    ensures
        !after_first.accepts(now2),
{
}

/// An activation a full cooldown or more after an accepted one is accepted
/// in turn: when the first is accepted, the second, at least
/// [`SHORTCUT_DEBOUNCE_MS`] milliseconds later, is too.
pub proof fn lemma_second_activation_after_cooldown_accepted(
    before: ShortcutDebouncer,
    after_first: ShortcutDebouncer,
    now1: u64,
    now2: u64,
)
    requires
        before.accepts(now1),
        after_first.last_accepted() == Option::Some(now1),
        now1 <= now2,
        now2 - now1 >= SHORTCUT_DEBOUNCE_MS,
    ensures
        after_first.accepts(now2),
{
}

} // verus!
