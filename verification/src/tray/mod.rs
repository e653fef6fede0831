//! The Popover's reopen guard. macOS blurs (and so hides) the Popover an
//! instant before the tray click that caused the blur arrives; a click that
//! lands within [`REOPEN_GUARD_MS`] of a hide is that same click and must not
//! reopen it.

use vstd::prelude::*;

use std::time::Instant;

use crate::clock::{duration_millis, instant_elapsed, instant_now};

verus! {

/// How long after a hide a tray click is taken for the click that caused it,
/// in milliseconds.
pub const REOPEN_GUARD_MS: u128 = 150;

/// When the Popover was last hidden; `None` until the first hide, so the
/// first-ever open is never blocked.
pub struct PopoverGuard {
    last_hidden: Option<Instant>,
}

/// Whether `elapsed_ms` whole milliseconds since a hide still fall inside the
/// guard.
pub fn within_reopen_guard(elapsed_ms: u128) -> (inside: bool)
    ensures
        inside == (elapsed_ms < REOPEN_GUARD_MS),
{
    elapsed_ms < REOPEN_GUARD_MS
}

/// What a left-click on the Eye does to the Popover.
#[derive(Clone, Copy, Debug, PartialEq, Eq, Structural)]
pub enum ClickAction {
    /// The Popover is up: take it down.
    Hide,
    /// The Popover was hidden just now by the blur this same click caused:
    /// leave it down.
    Ignore,
    /// Position the Popover under the Eye and show it.
    Show,
}

/// Decide a left-click: a visible Popover hides; a hidden one stays down when
/// it was hidden within the guard, and otherwise shows.
pub fn click_action(visible: bool, recently_hidden: bool) -> (action: ClickAction)
    ensures
        action == (if visible {
            ClickAction::Hide
        } else if recently_hidden {
            ClickAction::Ignore
        } else {
            ClickAction::Show
        }),
{
    if visible {
        ClickAction::Hide
    } else if recently_hidden {
        ClickAction::Ignore
    } else {
        ClickAction::Show
    }
}

impl PopoverGuard {
    /// Whether the Popover has been hidden at least once.
    pub closed spec fn ever_hidden(&self) -> bool {
        self.last_hidden is Some
    }

    /// A guard that has seen no hide yet.
    pub fn new() -> (guard: PopoverGuard)
        ensures
            !guard.ever_hidden(),
    {
        PopoverGuard { last_hidden: None }
    }

    /// Stamp the current instant as the last hide.
    pub fn mark_hidden(&mut self)
        ensures
            final(self).ever_hidden(),
    {
        self.last_hidden = Some(instant_now());
    }

    /// True if the Popover was hidden within the last [`REOPEN_GUARD_MS`]; never
    /// true before the first hide.
    pub fn recently_hidden(&self) -> (recent: bool)
        ensures
            recent ==> self.ever_hidden(),
    {
        match &self.last_hidden {
            Some(hidden) => {
                let elapsed = instant_elapsed(hidden);
                within_reopen_guard(duration_millis(&elapsed))
            },
            None => false,
        }
    }
}

} // verus!
