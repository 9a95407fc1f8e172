//! The confirm-or-revert countdown that follows a guarded switch.
//!
//! After a switch the user has a number of seconds to keep the new state; a
//! typed line keeps it, and silence (or a closed input) lets the countdown run
//! out, which reverts. The shell runs the clock and reads the input; the
//! decisions are here, one event at a time.

use vstd::prelude::*;
use crate::model::DisplayState;

verus! {

/// Seconds left before an unconfirmed switch is reverted.
#[derive(Clone, Copy, PartialEq, Eq, Structural, Debug)]
pub struct ConfirmCountdown {
    pub remaining: u32,
}

/// What happened during one second of the countdown.
#[derive(Clone, Copy, PartialEq, Eq, Structural, Debug)]
pub enum ConfirmEvent {
    /// The second passed with no input.
    Tick,
    /// A line of this many bytes was read (0 bytes: the input ended).
    Line(usize),
    /// The input is closed; nothing more can arrive.
    Closed,
}

/// What the shell does next.
#[derive(Clone, Copy, PartialEq, Eq, Structural, Debug)]
pub enum ConfirmAction {
    /// Show this many seconds left and wait one second for input.
    Show(u32),
    /// Keep the new state.
    Confirm,
    /// Go back to the state saved before the switch.
    Revert,
}

/// The event keeps the new state: a line with something in it.
pub open spec fn confirms(e: ConfirmEvent) -> bool {
    e matches ConfirmEvent::Line(n) && n > 0
}

/// What follows a guarded switch from `previous` to `target`: nothing to
/// confirm when nothing changed or confirmation was skipped; otherwise a
/// countdown of `timeout_s` seconds, which a zero timeout ends at once.
pub open spec fn spec_after_guarded_apply(previous: DisplayState, target: DisplayState, skip: bool, timeout_s: u32) -> Result<
    ConfirmCountdown,
    ConfirmAction,
> {
    if previous == target || skip {
        Err(ConfirmAction::Confirm)
    } else if timeout_s > 0 {
        Ok(ConfirmCountdown { remaining: timeout_s })
    } else {
        Err(ConfirmAction::Revert)
    }
}

/// Start the confirmation that follows a guarded switch.
pub fn after_guarded_apply(previous: DisplayState, target: DisplayState, skip: bool, timeout_s: u32) -> (r: Result<
    ConfirmCountdown,
    ConfirmAction,
>)
    ensures
        r == spec_after_guarded_apply(previous, target, skip, timeout_s),
        previous == target || skip ==> r == Err::<ConfirmCountdown, ConfirmAction>(ConfirmAction::Confirm),
{
    if previous == target || skip {
        Err(ConfirmAction::Confirm)
    } else if timeout_s > 0 {
        Ok(ConfirmCountdown { remaining: timeout_s })
    } else {
        Err(ConfirmAction::Revert)
    }
}

impl ConfirmCountdown {
    /// One second of the countdown: a typed line confirms; anything else
    /// takes a second off, and the last second reverts.
    pub open spec fn spec_next(self, e: ConfirmEvent) -> (ConfirmCountdown, ConfirmAction) {
        if confirms(e) {
            (self, ConfirmAction::Confirm)
        } else if self.remaining <= 1 {
            (ConfirmCountdown { remaining: 0 }, ConfirmAction::Revert)
        } else {
            (
                ConfirmCountdown { remaining: (self.remaining - 1) as u32 },
                ConfirmAction::Show((self.remaining - 1) as u32),
            )
        }
    }

    pub fn next(self, e: ConfirmEvent) -> (r: (ConfirmCountdown, ConfirmAction))
        ensures
            r == self.spec_next(e),
    {
        let confirmed = match e {
            ConfirmEvent::Line(n) => n > 0,
            _ => false,
        };
        if confirmed {
            (self, ConfirmAction::Confirm)
        } else if self.remaining <= 1 {
            (ConfirmCountdown { remaining: 0 }, ConfirmAction::Revert)
        } else {
            (ConfirmCountdown { remaining: self.remaining - 1 }, ConfirmAction::Show(self.remaining - 1))
        }
    }

    /// Where the countdown stands after `events`, in order: the action that
    /// ended it, or the seconds still shown.
    pub open spec fn outcome(self, events: Seq<ConfirmEvent>) -> ConfirmAction
        decreases events.len(),
    {
        if events.len() == 0 {
            ConfirmAction::Show(self.remaining)
        } else {
            let (c, a) = self.spec_next(events[0]);
            match a {
                ConfirmAction::Show(_) => c.outcome(events.drop_first()),
                _ => a,
            }
        }
    }
}

/// Any change of state, a scale change on the same mode included, runs the
/// full countdown unless confirmation is skipped; a switch to the state
/// already in place is confirmed at once.
pub proof fn law_any_change_runs_the_countdown(previous: DisplayState, target: DisplayState, skip: bool, timeout_s: u32)
    ensures
        (previous.mode != target.mode || previous.scale != target.scale) && !skip && timeout_s > 0
            ==> spec_after_guarded_apply(previous, target, skip, timeout_s) == Ok::<ConfirmCountdown, ConfirmAction>(
            ConfirmCountdown { remaining: timeout_s },
        ),
        (previous.mode != target.mode || previous.scale != target.scale) && !skip && timeout_s == 0
            ==> spec_after_guarded_apply(previous, target, skip, timeout_s) == Err::<ConfirmCountdown, ConfirmAction>(
            ConfirmAction::Revert,
        ),
        previous.mode == target.mode && previous.scale == target.scale
            ==> spec_after_guarded_apply(previous, target, skip, timeout_s) == Err::<ConfirmCountdown, ConfirmAction>(
            ConfirmAction::Confirm,
        ),
        skip ==> spec_after_guarded_apply(previous, target, skip, timeout_s) == Err::<ConfirmCountdown, ConfirmAction>(
            ConfirmAction::Confirm,
        ),
{
}

/// A countdown of `k` seconds that sees no typed line for `k` seconds reverts.
pub proof fn law_silence_reverts(c: ConfirmCountdown, events: Seq<ConfirmEvent>)
    requires
        c.remaining > 0,
        events.len() >= c.remaining,
        forall|i: int| 0 <= i < events.len() ==> !confirms(#[trigger] events[i]),
    ensures
        c.outcome(events) == ConfirmAction::Revert,
    decreases events.len(),
{
    assert(!confirms(events[0]));
    if c.remaining > 1 {
        let rest = events.drop_first();
        assert forall|i: int| 0 <= i < rest.len() implies !confirms(#[trigger] rest[i]) by {
            assert(rest[i] == events[i + 1]);
        }
        law_silence_reverts(ConfirmCountdown { remaining: (c.remaining - 1) as u32 }, rest);
    }
}

/// Before its last second runs out, a countdown never reverts on its own: after
/// fewer than `k` silent seconds it still shows the seconds left.
pub proof fn law_no_early_revert(c: ConfirmCountdown, events: Seq<ConfirmEvent>)
    requires
        events.len() < c.remaining,
        forall|i: int| 0 <= i < events.len() ==> !confirms(#[trigger] events[i]),
    ensures
        c.outcome(events) == ConfirmAction::Show((c.remaining - events.len()) as u32),
    decreases events.len(),
{
    if events.len() > 0 {
        assert(!confirms(events[0]));
        let rest = events.drop_first();
        assert forall|i: int| 0 <= i < rest.len() implies !confirms(#[trigger] rest[i]) by {
            assert(rest[i] == events[i + 1]);
        }
        law_no_early_revert(ConfirmCountdown { remaining: (c.remaining - 1) as u32 }, rest);
    }
}

/// A line typed within the countdown keeps the new state.
pub proof fn law_typed_line_confirms(c: ConfirmCountdown, events: Seq<ConfirmEvent>, i: int)
    requires
        0 <= i < c.remaining,
        i < events.len(),
        confirms(events[i]),
        forall|j: int| 0 <= j < i ==> !confirms(#[trigger] events[j]),
    ensures
        c.outcome(events) == ConfirmAction::Confirm,
    decreases i,
{
    if i > 0 {
        assert(!confirms(events[0]));
        let rest = events.drop_first();
        assert(rest[i - 1] == events[i]);
        assert forall|j: int| 0 <= j < i - 1 implies !confirms(#[trigger] rest[j]) by {
            assert(rest[j] == events[j + 1]);
        }
        law_typed_line_confirms(ConfirmCountdown { remaining: (c.remaining - 1) as u32 }, rest, i - 1);
    }
}

} // verus!
