//! The display control plane's decisions, as resumable operations.
//!
//! Every operation of the control plane (read the state, resolve a profile,
//! apply a state, the guarded variants, revert) interleaves calls into the
//! operating system with decisions. Here each operation is a state machine:
//! it asks for one [`Request`] at a time, the shell performs it and hands the
//! outcome back as a [`Reply`], until the operation finishes with a result.

use vstd::prelude::*;
use crate::display::{resolve_mode, spec_resolve_mode};
use crate::guard::PendingRevert;
use crate::model::{DisplayState, Failure, Mode, Profile};

verus! {

/// One call into the operating-system layer.
#[derive(Clone, Debug)]
pub enum Request {
    /// The current display mode of the primary display.
    ReadMode,
    /// The current effective scale percent.
    ReadScale,
    /// The panel's native resolution.
    ReadNative,
    /// The driver's mode catalogue (sorted, deduplicated).
    ListModes,
    /// A dynamic (non-persisted) mode switch.
    SwitchMode(Mode),
    /// The (min%, max%) scale range supported at the current mode.
    ReadScaleRange,
    /// A verified scale write.
    SetScale(u32),
    /// The pending revert record, if any.
    ReadGuard,
    /// Persist a pending revert back to this state.
    SaveGuard(DisplayState),
    /// Drop the pending revert record.
    ClearGuard,
}

/// The outcome of a [`Request`].
#[derive(Clone, Debug)]
pub enum Reply {
    Mode(Mode),
    Scale(u32),
    Native(u32, u32),
    Modes(Vec<Mode>),
    Range(u32, u32),
    Guard(Option<PendingRevert>),
    Done,
    Failed(Failure),
}

/// What an operation wants next: another request, or it is over.
#[derive(Debug)]
pub enum Step<T> {
    Ask(Request),
    Finish(Result<T, Failure>),
}

/// `reply` is an outcome that `request` can have.
pub open spec fn answers(request: Request, reply: Reply) -> bool {
    match reply {
        Reply::Failed(_) => !(request is ListModes),
        Reply::Mode(_) => request is ReadMode,
        Reply::Scale(_) => request is ReadScale,
        Reply::Native(_, _) => request is ReadNative,
        Reply::Modes(_) => request is ListModes,
        Reply::Range(lo, hi) => request is ReadScaleRange && lo <= hi,
        Reply::Guard(_) => request is ReadGuard,
        Reply::Done => request is SwitchMode || request is SetScale || request is SaveGuard
            || request is ClearGuard,
    }
}

/// The outcome of a reply the operation does not accept. The step functions
/// refuse such replies (`accepts` is their precondition), so it is left open.
pub open spec fn off_protocol<M, T>(m: M) -> (M, Step<T>) {
    (m, Step::Finish(Err(Failure::System(arbitrary()))))
}

/// `x` clamped into `[lo, hi]`.
pub open spec fn clamp(x: u32, lo: u32, hi: u32) -> u32 {
    if x < lo {
        lo
    } else if x > hi {
        hi
    } else {
        x
    }
}

fn clamp_scale(x: u32, lo: u32, hi: u32) -> (r: u32)
    requires
        lo <= hi,
    ensures
        r == clamp(x, lo, hi),
{
    if x < lo {
        lo
    } else if x > hi {
        hi
    } else {
        x
    }
}

// ---------------------------------------------------------------- state()

/// Reading the current display state: mode, then scale.
#[derive(Clone, Debug)]
pub enum StateQuery {
    AwaitMode,
    AwaitScale(Mode),
    Finished,
}

impl StateQuery {
    /// The request this operation is waiting on.
    pub open spec fn pending(self) -> Option<Request> {
        match self {
            StateQuery::AwaitMode => Some(Request::ReadMode),
            StateQuery::AwaitScale(_) => Some(Request::ReadScale),
            StateQuery::Finished => None,
        }
    }

    pub open spec fn accepts(self, reply: Reply) -> bool {
        self.pending() matches Some(q) && answers(q, reply)
    }

    pub open spec fn spec_next(self, reply: Reply) -> (StateQuery, Step<DisplayState>) {
        match (self, reply) {
            (StateQuery::AwaitMode, Reply::Mode(m)) => (StateQuery::AwaitScale(m), Step::Ask(Request::ReadScale)),
            (StateQuery::AwaitScale(m), Reply::Scale(s)) => (
                StateQuery::Finished,
                Step::Finish(Ok(DisplayState { mode: m, scale: s })),
            ),
            (_, Reply::Failed(e)) => (StateQuery::Finished, Step::Finish(Err(e))),
            (q, _) => off_protocol(q),
        }
    }

    pub fn next(self, reply: Reply) -> (r: (StateQuery, Step<DisplayState>))
        requires
            self.accepts(reply),
        ensures
            r == self.spec_next(reply),
    {
        match (self, reply) {
            (StateQuery::AwaitMode, Reply::Mode(m)) => (StateQuery::AwaitScale(m), Step::Ask(Request::ReadScale)),
            (StateQuery::AwaitScale(m), Reply::Scale(s)) => (
                StateQuery::Finished,
                Step::Finish(Ok(DisplayState { mode: m, scale: s })),
            ),
            (_, Reply::Failed(e)) => (StateQuery::Finished, Step::Finish(Err(e))),
            (_, _) => {
                proof { assert(false); }
                (StateQuery::Finished, Step::Finish(Err(Failure::System(String::new()))))
            },
        }
    }
}

/// The first step of reading the state: read the mode.
pub open spec fn state_start() -> (StateQuery, Step<DisplayState>) {
    (StateQuery::AwaitMode, Step::Ask(Request::ReadMode))
}

/// Current display state (mode + scale) of the primary display.
pub fn state() -> (r: (StateQuery, Step<DisplayState>))
    ensures
        r == state_start(),
{
    (StateQuery::AwaitMode, Step::Ask(Request::ReadMode))
}

// ---------------------------------------------------------------- apply()

/// Applying a display state: mode first, then scale.
#[derive(Clone, Debug)]
pub enum Application {
    /// Reading the state before the switch.
    Sampling { target: DisplayState, inner: StateQuery },
    /// Waiting for the switch to the target mode.
    Switching { target: DisplayState, previous: DisplayState },
    /// Waiting for the scale range supported at the new mode.
    Ranging { target: DisplayState, previous: DisplayState },
    /// Waiting for the current scale, to compare with the clamped target scale.
    Checking { target: DisplayState, previous: DisplayState, scale: u32 },
    /// Waiting for the scale write.
    Scaling { target: DisplayState, previous: DisplayState, scale: u32 },
    /// The scale write failed after a mode switch: switching the mode back.
    RollingBack { previous: DisplayState, error: Failure },
    Finished,
}

impl Application {
    pub open spec fn pending(self) -> Option<Request> {
        match self {
            Application::Sampling { inner, .. } => inner.pending(),
            Application::Switching { target, .. } => Some(Request::SwitchMode(target.mode)),
            Application::Ranging { .. } => Some(Request::ReadScaleRange),
            Application::Checking { .. } => Some(Request::ReadScale),
            Application::Scaling { scale, .. } => Some(Request::SetScale(scale)),
            Application::RollingBack { previous, .. } => Some(Request::SwitchMode(previous.mode)),
            Application::Finished => None,
        }
    }

    pub open spec fn accepts(self, reply: Reply) -> bool {
        self.pending() matches Some(q) && answers(q, reply)
    }

    /// What happens once the state before the switch is known.
    pub open spec fn after_sampling(target: DisplayState, previous: DisplayState) -> (Application, Step<DisplayState>) {
        if previous == target {
            (Application::Finished, Step::Finish(Ok(previous)))
        } else if previous.mode != target.mode {
            (Application::Switching { target, previous }, Step::Ask(Request::SwitchMode(target.mode)))
        } else {
            (Application::Ranging { target, previous }, Step::Ask(Request::ReadScaleRange))
        }
    }

    pub open spec fn spec_next(self, reply: Reply) -> (Application, Step<DisplayState>) {
        match self {
            Application::Sampling { target, inner } => {
                let (inner2, st) = inner.spec_next(reply);
                match st {
                    Step::Ask(q) => (Application::Sampling { target, inner: inner2 }, Step::Ask(q)),
                    Step::Finish(Ok(previous)) => Application::after_sampling(target, previous),
                    Step::Finish(Err(e)) => (Application::Finished, Step::Finish(Err(e))),
                }
            },
            Application::Switching { target, previous } => match reply {
                Reply::Done => (Application::Ranging { target, previous }, Step::Ask(Request::ReadScaleRange)),
                Reply::Failed(e) => (Application::Finished, Step::Finish(Err(e))),
                _ => off_protocol(self),
            },
            Application::Ranging { target, previous } => match reply {
                Reply::Range(lo, hi) => (
                    Application::Checking { target, previous, scale: clamp(target.scale, lo, hi) },
                    Step::Ask(Request::ReadScale),
                ),
                Reply::Failed(e) => (Application::Finished, Step::Finish(Err(e))),
                _ => off_protocol(self),
            },
            Application::Checking { target, previous, scale } => match reply {
                Reply::Scale(current) => if current != scale {
                    (Application::Scaling { target, previous, scale }, Step::Ask(Request::SetScale(scale)))
                } else {
                    (Application::Finished, Step::Finish(Ok(previous)))
                },
                Reply::Failed(e) => (Application::Finished, Step::Finish(Err(e))),
                _ => off_protocol(self),
            },
            Application::Scaling { target, previous, scale } => match reply {
                Reply::Done => (Application::Finished, Step::Finish(Ok(previous))),
                Reply::Failed(e) => if previous.mode != target.mode {
                    (Application::RollingBack { previous, error: e }, Step::Ask(Request::SwitchMode(previous.mode)))
                } else {
                    (Application::Finished, Step::Finish(Err(e)))
                },
                _ => off_protocol(self),
            },
            Application::RollingBack { previous, error } => match reply {
                Reply::Done => (Application::Finished, Step::Finish(Err(error))),
                Reply::Failed(e) => (Application::Finished, Step::Finish(Err(e))),
                _ => off_protocol(self),
            },
            Application::Finished => off_protocol(self),
        }
    }

    pub fn next(self, reply: Reply) -> (r: (Application, Step<DisplayState>))
        requires
            self.accepts(reply),
        ensures
            r == self.spec_next(reply),
    {
        match self {
            Application::Sampling { target, inner } => {
                let (inner2, st) = inner.next(reply);
                match st {
                    Step::Ask(q) => (Application::Sampling { target, inner: inner2 }, Step::Ask(q)),
                    Step::Finish(Ok(previous)) => {
                        if previous == target {
                            (Application::Finished, Step::Finish(Ok(previous)))
                        } else if previous.mode != target.mode {
                            (Application::Switching { target, previous }, Step::Ask(Request::SwitchMode(target.mode)))
                        } else {
                            (Application::Ranging { target, previous }, Step::Ask(Request::ReadScaleRange))
                        }
                    },
                    Step::Finish(Err(e)) => (Application::Finished, Step::Finish(Err(e))),
                }
            },
            Application::Switching { target, previous } => match reply {
                Reply::Done => (Application::Ranging { target, previous }, Step::Ask(Request::ReadScaleRange)),
                Reply::Failed(e) => (Application::Finished, Step::Finish(Err(e))),
                _ => {
                    proof { assert(false); }
                    (Application::Finished, Step::Finish(Err(Failure::System(String::new()))))
                },
            },
            Application::Ranging { target, previous } => match reply {
                Reply::Range(lo, hi) => {
                    let scale = clamp_scale(target.scale, lo, hi);
                    (Application::Checking { target, previous, scale }, Step::Ask(Request::ReadScale))
                },
                Reply::Failed(e) => (Application::Finished, Step::Finish(Err(e))),
                _ => {
                    proof { assert(false); }
                    (Application::Finished, Step::Finish(Err(Failure::System(String::new()))))
                },
            },
            Application::Checking { target, previous, scale } => match reply {
                Reply::Scale(current) => if current != scale {
                    (Application::Scaling { target, previous, scale }, Step::Ask(Request::SetScale(scale)))
                } else {
                    (Application::Finished, Step::Finish(Ok(previous)))
                },
                Reply::Failed(e) => (Application::Finished, Step::Finish(Err(e))),
                _ => {
                    proof { assert(false); }
                    (Application::Finished, Step::Finish(Err(Failure::System(String::new()))))
                },
            },
            Application::Scaling { target, previous, scale } => match reply {
                Reply::Done => (Application::Finished, Step::Finish(Ok(previous))),
                Reply::Failed(e) => if previous.mode != target.mode {
                    (Application::RollingBack { previous, error: e }, Step::Ask(Request::SwitchMode(previous.mode)))
                } else {
                    (Application::Finished, Step::Finish(Err(e)))
                },
                _ => {
                    proof { assert(false); }
                    (Application::Finished, Step::Finish(Err(Failure::System(String::new()))))
                },
            },
            Application::RollingBack { previous, error } => match reply {
                Reply::Done => (Application::Finished, Step::Finish(Err(error))),
                Reply::Failed(e) => (Application::Finished, Step::Finish(Err(e))),
                _ => {
                    proof { assert(false); }
                    (Application::Finished, Step::Finish(Err(Failure::System(String::new()))))
                },
            },
            Application::Finished => {
                proof { assert(false); }
                (Application::Finished, Step::Finish(Err(Failure::System(String::new()))))
            },
        }
    }
}

/// The first step of applying `target`: read the current mode.
pub open spec fn apply_start(target: DisplayState) -> (Application, Step<DisplayState>) {
    (Application::Sampling { target, inner: StateQuery::AwaitMode }, Step::Ask(Request::ReadMode))
}

/// Apply a display state: mode first, then scale; the result is the state
/// before the switch.
///
/// The scale is clamped to the range the display supports at the new mode,
/// which can only be known after the switch. If the scale write fails after a
/// mode switch, the mode is switched back before the failure is reported.
/// Guard bookkeeping is the caller's; this only performs the transition.
pub fn apply(target: DisplayState) -> (r: (Application, Step<DisplayState>))
    ensures
        r == apply_start(target),
{
    (Application::Sampling { target, inner: StateQuery::AwaitMode }, Step::Ask(Request::ReadMode))
}

// ---------------------------------------------------------------- native_state()

/// Resolving the native state: the panel's preferred resolution at its highest
/// refresh, at 100% scale.
#[derive(Clone, Debug)]
pub enum NativeQuery {
    AwaitNative,
    AwaitModes { width: u32, height: u32 },
    Finished,
}

impl NativeQuery {
    pub open spec fn pending(self) -> Option<Request> {
        match self {
            NativeQuery::AwaitNative => Some(Request::ReadNative),
            NativeQuery::AwaitModes { .. } => Some(Request::ListModes),
            NativeQuery::Finished => None,
        }
    }

    pub open spec fn accepts(self, reply: Reply) -> bool {
        self.pending() matches Some(q) && answers(q, reply)
    }

    pub open spec fn spec_next(self, reply: Reply) -> (NativeQuery, Step<DisplayState>) {
        match (self, reply) {
            (NativeQuery::AwaitNative, Reply::Native(w, h)) => (
                NativeQuery::AwaitModes { width: w, height: h },
                Step::Ask(Request::ListModes),
            ),
            (NativeQuery::AwaitModes { width, height }, Reply::Modes(modes)) => (
                NativeQuery::Finished,
                Step::Finish(match spec_resolve_mode(width, height, None, modes@) {
                    Ok(mode) => Ok(DisplayState { mode, scale: 100 }),
                    Err(e) => Err(e),
                }),
            ),
            (_, Reply::Failed(e)) => (NativeQuery::Finished, Step::Finish(Err(e))),
            (q, _) => off_protocol(q),
        }
    }

    pub fn next(self, reply: Reply) -> (r: (NativeQuery, Step<DisplayState>))
        requires
            self.accepts(reply),
        ensures
            r == self.spec_next(reply),
    {
        match (self, reply) {
            (NativeQuery::AwaitNative, Reply::Native(w, h)) => (
                NativeQuery::AwaitModes { width: w, height: h },
                Step::Ask(Request::ListModes),
            ),
            (NativeQuery::AwaitModes { width, height }, Reply::Modes(modes)) => {
                let r = match resolve_mode(width, height, None, &modes) {
                    Ok(mode) => Ok(DisplayState { mode, scale: 100 }),
                    Err(e) => Err(e),
                };
                (NativeQuery::Finished, Step::Finish(r))
            },
            (_, Reply::Failed(e)) => (NativeQuery::Finished, Step::Finish(Err(e))),
            (_, _) => {
                    proof { assert(false); }
                    (NativeQuery::Finished, Step::Finish(Err(Failure::System(String::new()))))
                },
        }
    }
}

/// The first step of resolving the native state: read the native resolution.
pub open spec fn native_start() -> (NativeQuery, Step<DisplayState>) {
    (NativeQuery::AwaitNative, Step::Ask(Request::ReadNative))
}

/// The native state: panel-preferred mode at its highest refresh, 100% scale.
pub fn native_state() -> (r: (NativeQuery, Step<DisplayState>))
    ensures
        r == native_start(),
{
    (NativeQuery::AwaitNative, Step::Ask(Request::ReadNative))
}

// ---------------------------------------------------------------- resolve()

/// Resolving a profile into a concrete target state for this machine.
#[derive(Clone, Debug)]
pub enum Resolution {
    AwaitNative { refresh: Option<u32>, scale: Option<u32> },
    AwaitModes { width: u32, height: u32, refresh: Option<u32>, scale: Option<u32> },
    AwaitScale { mode: Mode },
    Finished,
}

impl Resolution {
    pub open spec fn pending(self) -> Option<Request> {
        match self {
            Resolution::AwaitNative { .. } => Some(Request::ReadNative),
            Resolution::AwaitModes { .. } => Some(Request::ListModes),
            Resolution::AwaitScale { .. } => Some(Request::ReadScale),
            Resolution::Finished => None,
        }
    }

    pub open spec fn accepts(self, reply: Reply) -> bool {
        self.pending() matches Some(q) && answers(q, reply)
    }

    /// Once the mode is known: the profile's scale, or the current one.
    pub open spec fn after_mode(mode: Mode, scale: Option<u32>) -> (Resolution, Step<DisplayState>) {
        match scale {
            Some(s) => (Resolution::Finished, Step::Finish(Ok(DisplayState { mode, scale: s }))),
            None => (Resolution::AwaitScale { mode }, Step::Ask(Request::ReadScale)),
        }
    }

    pub open spec fn spec_next(self, reply: Reply) -> (Resolution, Step<DisplayState>) {
        match (self, reply) {
            (Resolution::AwaitNative { refresh, scale }, Reply::Native(w, h)) => (
                Resolution::AwaitModes { width: w, height: h, refresh, scale },
                Step::Ask(Request::ListModes),
            ),
            (Resolution::AwaitModes { width, height, refresh, scale }, Reply::Modes(modes)) =>
                match spec_resolve_mode(width, height, refresh, modes@) {
                    Ok(mode) => Resolution::after_mode(mode, scale),
                    Err(e) => (Resolution::Finished, Step::Finish(Err(e))),
                },
            (Resolution::AwaitScale { mode }, Reply::Scale(s)) => (
                Resolution::Finished,
                Step::Finish(Ok(DisplayState { mode, scale: s })),
            ),
            (_, Reply::Failed(e)) => (Resolution::Finished, Step::Finish(Err(e))),
            (q, _) => off_protocol(q),
        }
    }

    pub fn next(self, reply: Reply) -> (r: (Resolution, Step<DisplayState>))
        requires
            self.accepts(reply),
        ensures
            r == self.spec_next(reply),
    {
        match (self, reply) {
            (Resolution::AwaitNative { refresh, scale }, Reply::Native(w, h)) => (
                Resolution::AwaitModes { width: w, height: h, refresh, scale },
                Step::Ask(Request::ListModes),
            ),
            (Resolution::AwaitModes { width, height, refresh, scale }, Reply::Modes(modes)) =>
                match resolve_mode(width, height, refresh, &modes) {
                    Ok(mode) => match scale {
                        Some(s) => (Resolution::Finished, Step::Finish(Ok(DisplayState { mode, scale: s }))),
                        None => (Resolution::AwaitScale { mode }, Step::Ask(Request::ReadScale)),
                    },
                    Err(e) => (Resolution::Finished, Step::Finish(Err(e))),
                },
            (Resolution::AwaitScale { mode }, Reply::Scale(s)) => (
                Resolution::Finished,
                Step::Finish(Ok(DisplayState { mode, scale: s })),
            ),
            (_, Reply::Failed(e)) => (Resolution::Finished, Step::Finish(Err(e))),
            (_, _) => {
                    proof { assert(false); }
                    (Resolution::Finished, Step::Finish(Err(Failure::System(String::new()))))
                },
        }
    }
}

/// The first step of resolving `profile`: its resolution, or the native one.
pub open spec fn spec_resolve(profile: Profile) -> (Resolution, Step<DisplayState>) {
    match profile.resolution {
        Some((w, h)) => (
            Resolution::AwaitModes { width: w, height: h, refresh: profile.refresh, scale: profile.scale },
            Step::Ask(Request::ListModes),
        ),
        None => (
            Resolution::AwaitNative { refresh: profile.refresh, scale: profile.scale },
            Step::Ask(Request::ReadNative),
        ),
    }
}

/// Resolve a profile into a concrete target state for this machine: its
/// resolution (or the native one) at the best refresh the driver offers, and
/// its scale (or the current one).
pub fn resolve(profile: &Profile) -> (r: (Resolution, Step<DisplayState>))
    ensures
        r == spec_resolve(*profile),
{
    match profile.resolution {
        Some((w, h)) => (
            Resolution::AwaitModes { width: w, height: h, refresh: profile.refresh, scale: profile.scale },
            Step::Ask(Request::ListModes),
        ),
        None => (
            Resolution::AwaitNative { refresh: profile.refresh, scale: profile.scale },
            Step::Ask(Request::ReadNative),
        ),
    }
}

// ---------------------------------------------------------------- apply_guarded()

/// A guarded transition: the previous state is persisted before switching.
#[derive(Clone, Debug)]
pub enum GuardedApplication {
    Sampling { target: DisplayState, inner: StateQuery },
    Saving { target: DisplayState, previous: DisplayState },
    Applying(Application),
    Finished,
}

impl GuardedApplication {
    pub open spec fn pending(self) -> Option<Request> {
        match self {
            GuardedApplication::Sampling { inner, .. } => inner.pending(),
            GuardedApplication::Saving { previous, .. } => Some(Request::SaveGuard(previous)),
            GuardedApplication::Applying(inner) => inner.pending(),
            GuardedApplication::Finished => None,
        }
    }

    pub open spec fn accepts(self, reply: Reply) -> bool {
        self.pending() matches Some(q) && answers(q, reply)
    }

    pub open spec fn spec_next(self, reply: Reply) -> (GuardedApplication, Step<DisplayState>) {
        match self {
            GuardedApplication::Sampling { target, inner } => {
                let (inner2, st) = inner.spec_next(reply);
                match st {
                    Step::Ask(q) => (GuardedApplication::Sampling { target, inner: inner2 }, Step::Ask(q)),
                    Step::Finish(Ok(previous)) => if previous == target {
                        (GuardedApplication::Finished, Step::Finish(Ok(previous)))
                    } else {
                        (GuardedApplication::Saving { target, previous }, Step::Ask(Request::SaveGuard(previous)))
                    },
                    Step::Finish(Err(e)) => (GuardedApplication::Finished, Step::Finish(Err(e))),
                }
            },
            GuardedApplication::Saving { target, previous } => match reply {
                Reply::Done => (
                    GuardedApplication::Applying(Application::Sampling { target, inner: StateQuery::AwaitMode }),
                    Step::Ask(Request::ReadMode),
                ),
                Reply::Failed(e) => (GuardedApplication::Finished, Step::Finish(Err(e))),
                _ => off_protocol(self),
            },
            GuardedApplication::Applying(inner) => {
                let (inner2, st) = inner.spec_next(reply);
                match st {
                    Step::Ask(q) => (GuardedApplication::Applying(inner2), Step::Ask(q)),
                    Step::Finish(r) => (GuardedApplication::Finished, Step::Finish(r)),
                }
            },
            GuardedApplication::Finished => off_protocol(self),
        }
    }

    pub fn next(self, reply: Reply) -> (r: (GuardedApplication, Step<DisplayState>))
        requires
            self.accepts(reply),
        ensures
            r == self.spec_next(reply),
    {
        match self {
            GuardedApplication::Sampling { target, inner } => {
                let (inner2, st) = inner.next(reply);
                match st {
                    Step::Ask(q) => (GuardedApplication::Sampling { target, inner: inner2 }, Step::Ask(q)),
                    Step::Finish(Ok(previous)) => if previous == target {
                        (GuardedApplication::Finished, Step::Finish(Ok(previous)))
                    } else {
                        (GuardedApplication::Saving { target, previous }, Step::Ask(Request::SaveGuard(previous)))
                    },
                    Step::Finish(Err(e)) => (GuardedApplication::Finished, Step::Finish(Err(e))),
                }
            },
            GuardedApplication::Saving { target, previous } => match reply {
                Reply::Done => (
                    GuardedApplication::Applying(Application::Sampling { target, inner: StateQuery::AwaitMode }),
                    Step::Ask(Request::ReadMode),
                ),
                Reply::Failed(e) => (GuardedApplication::Finished, Step::Finish(Err(e))),
                _ => {
                    proof { assert(false); }
                    (GuardedApplication::Finished, Step::Finish(Err(Failure::System(String::new()))))
                },
            },
            GuardedApplication::Applying(inner) => {
                let (inner2, st) = inner.next(reply);
                match st {
                    Step::Ask(q) => (GuardedApplication::Applying(inner2), Step::Ask(q)),
                    Step::Finish(r) => (GuardedApplication::Finished, Step::Finish(r)),
                }
            },
            GuardedApplication::Finished => {
                    proof { assert(false); }
                    (GuardedApplication::Finished, Step::Finish(Err(Failure::System(String::new()))))
                },
        }
    }
}

/// The first step of a guarded transition: read the current mode.
pub open spec fn guarded_start(target: DisplayState) -> (GuardedApplication, Step<DisplayState>) {
    (GuardedApplication::Sampling { target, inner: StateQuery::AwaitMode }, Step::Ask(Request::ReadMode))
}

/// Guarded transition: persists the previous state before switching, so that
/// a crash at any point leaves the system recoverable. The result is the
/// previous state. On failure the guard record is kept, so that a later
/// invocation can still restore the saved state.
pub fn apply_guarded(target: DisplayState) -> (r: (GuardedApplication, Step<DisplayState>))
    ensures
        r == guarded_start(target),
{
    (GuardedApplication::Sampling { target, inner: StateQuery::AwaitMode }, Step::Ask(Request::ReadMode))
}

// ---------------------------------------------------------------- restore_pending()

/// Restoring a pending revert left by a process that died mid-switch.
#[derive(Clone, Debug)]
pub enum PendingRestore {
    Reading,
    Applying { saved: DisplayState, inner: Application },
    Clearing { saved: DisplayState },
    Finished,
}

impl PendingRestore {
    pub open spec fn pending(self) -> Option<Request> {
        match self {
            PendingRestore::Reading => Some(Request::ReadGuard),
            PendingRestore::Applying { inner, .. } => inner.pending(),
            PendingRestore::Clearing { .. } => Some(Request::ClearGuard),
            PendingRestore::Finished => None,
        }
    }

    pub open spec fn accepts(self, reply: Reply) -> bool {
        self.pending() matches Some(q) && answers(q, reply)
    }

    pub open spec fn spec_next(self, reply: Reply) -> (PendingRestore, Step<Option<DisplayState>>) {
        match self {
            PendingRestore::Reading => match reply {
                Reply::Guard(None) => (PendingRestore::Finished, Step::Finish(Ok(None))),
                Reply::Guard(Some(p)) => (
                    PendingRestore::Applying {
                        saved: p.saved,
                        inner: Application::Sampling { target: p.saved, inner: StateQuery::AwaitMode },
                    },
                    Step::Ask(Request::ReadMode),
                ),
                Reply::Failed(e) => (PendingRestore::Finished, Step::Finish(Err(e))),
                _ => off_protocol(self),
            },
            PendingRestore::Applying { saved, inner } => {
                let (inner2, st) = inner.spec_next(reply);
                match st {
                    Step::Ask(q) => (PendingRestore::Applying { saved, inner: inner2 }, Step::Ask(q)),
                    Step::Finish(Ok(_)) => (PendingRestore::Clearing { saved }, Step::Ask(Request::ClearGuard)),
                    Step::Finish(Err(e)) => (PendingRestore::Finished, Step::Finish(Err(e))),
                }
            },
            PendingRestore::Clearing { saved } => match reply {
                Reply::Done => (PendingRestore::Finished, Step::Finish(Ok(Some(saved)))),
                Reply::Failed(e) => (PendingRestore::Finished, Step::Finish(Err(e))),
                _ => off_protocol(self),
            },
            PendingRestore::Finished => off_protocol(self),
        }
    }

    pub fn next(self, reply: Reply) -> (r: (PendingRestore, Step<Option<DisplayState>>))
        requires
            self.accepts(reply),
        ensures
            r == self.spec_next(reply),
    {
        match self {
            PendingRestore::Reading => match reply {
                Reply::Guard(None) => (PendingRestore::Finished, Step::Finish(Ok(None))),
                Reply::Guard(Some(p)) => (
                    PendingRestore::Applying {
                        saved: p.saved,
                        inner: Application::Sampling { target: p.saved, inner: StateQuery::AwaitMode },
                    },
                    Step::Ask(Request::ReadMode),
                ),
                Reply::Failed(e) => (PendingRestore::Finished, Step::Finish(Err(e))),
                _ => {
                    proof { assert(false); }
                    (PendingRestore::Finished, Step::Finish(Err(Failure::System(String::new()))))
                },
            },
            PendingRestore::Applying { saved, inner } => {
                let (inner2, st) = inner.next(reply);
                match st {
                    Step::Ask(q) => (PendingRestore::Applying { saved, inner: inner2 }, Step::Ask(q)),
                    Step::Finish(Ok(_)) => (PendingRestore::Clearing { saved }, Step::Ask(Request::ClearGuard)),
                    Step::Finish(Err(e)) => (PendingRestore::Finished, Step::Finish(Err(e))),
                }
            },
            PendingRestore::Clearing { saved } => match reply {
                Reply::Done => (PendingRestore::Finished, Step::Finish(Ok(Some(saved)))),
                Reply::Failed(e) => (PendingRestore::Finished, Step::Finish(Err(e))),
                _ => {
                    proof { assert(false); }
                    (PendingRestore::Finished, Step::Finish(Err(Failure::System(String::new()))))
                },
            },
            PendingRestore::Finished => {
                    proof { assert(false); }
                    (PendingRestore::Finished, Step::Finish(Err(Failure::System(String::new()))))
                },
        }
    }
}

/// The first step of restoring a pending revert: read the guard.
pub open spec fn restore_start() -> (PendingRestore, Step<Option<DisplayState>>) {
    (PendingRestore::Reading, Step::Ask(Request::ReadGuard))
}

/// If a pending revert exists (crash mid-switch, unconfirmed switch from a dead
/// process), restore it and drop the record. The result is the restored state,
/// if a restore happened.
pub fn restore_pending() -> (r: (PendingRestore, Step<Option<DisplayState>>))
    ensures
        r == restore_start(),
{
    (PendingRestore::Reading, Step::Ask(Request::ReadGuard))
}

// ---------------------------------------------------------------- confirm()

/// Confirming the current state: the pending revert is dropped.
#[derive(Clone, Debug)]
pub enum Confirmation {
    Clearing,
    Finished,
}

impl Confirmation {
    pub open spec fn pending(self) -> Option<Request> {
        match self {
            Confirmation::Clearing => Some(Request::ClearGuard),
            Confirmation::Finished => None,
        }
    }

    pub open spec fn accepts(self, reply: Reply) -> bool {
        self.pending() matches Some(q) && answers(q, reply)
    }

    pub open spec fn spec_next(self, reply: Reply) -> (Confirmation, Step<()>) {
        match (self, reply) {
            (Confirmation::Clearing, Reply::Done) => (Confirmation::Finished, Step::Finish(Ok(()))),
            (Confirmation::Clearing, Reply::Failed(e)) => (Confirmation::Finished, Step::Finish(Err(e))),
            (q, _) => off_protocol(q),
        }
    }

    pub fn next(self, reply: Reply) -> (r: (Confirmation, Step<()>))
        requires
            self.accepts(reply),
        ensures
            r == self.spec_next(reply),
    {
        match (self, reply) {
            (Confirmation::Clearing, Reply::Done) => (Confirmation::Finished, Step::Finish(Ok(()))),
            (Confirmation::Clearing, Reply::Failed(e)) => (Confirmation::Finished, Step::Finish(Err(e))),
            (_, _) => {
                    proof { assert(false); }
                    (Confirmation::Finished, Step::Finish(Err(Failure::System(String::new()))))
                },
        }
    }
}

/// The first step of confirming: drop the guard.
pub open spec fn confirm_start() -> (Confirmation, Step<()>) {
    (Confirmation::Clearing, Step::Ask(Request::ClearGuard))
}

/// Confirm the current state as intentional: drop the pending revert.
pub fn confirm() -> (r: (Confirmation, Step<()>))
    ensures
        r == confirm_start(),
{
    (Confirmation::Clearing, Step::Ask(Request::ClearGuard))
}

// ---------------------------------------------------------------- revert()

/// Reverting to the guarded previous state, or to native if there is none.
#[derive(Clone, Debug)]
pub enum Reversion {
    Reading,
    Native(NativeQuery),
    Applying { target: DisplayState, inner: Application },
    Clearing { target: DisplayState },
    Finished,
}

impl Reversion {
    pub open spec fn pending(self) -> Option<Request> {
        match self {
            Reversion::Reading => Some(Request::ReadGuard),
            Reversion::Native(inner) => inner.pending(),
            Reversion::Applying { inner, .. } => inner.pending(),
            Reversion::Clearing { .. } => Some(Request::ClearGuard),
            Reversion::Finished => None,
        }
    }

    pub open spec fn accepts(self, reply: Reply) -> bool {
        self.pending() matches Some(q) && answers(q, reply)
    }

    /// Once the target is known: apply it.
    pub open spec fn applying(target: DisplayState) -> (Reversion, Step<DisplayState>) {
        (
            Reversion::Applying { target, inner: Application::Sampling { target, inner: StateQuery::AwaitMode } },
            Step::Ask(Request::ReadMode),
        )
    }

    pub open spec fn spec_next(self, reply: Reply) -> (Reversion, Step<DisplayState>) {
        match self {
            Reversion::Reading => match reply {
                Reply::Guard(Some(p)) => Reversion::applying(p.saved),
                Reply::Guard(None) => (Reversion::Native(NativeQuery::AwaitNative), Step::Ask(Request::ReadNative)),
                Reply::Failed(e) => (Reversion::Finished, Step::Finish(Err(e))),
                _ => off_protocol(self),
            },
            Reversion::Native(inner) => {
                let (inner2, st) = inner.spec_next(reply);
                match st {
                    Step::Ask(q) => (Reversion::Native(inner2), Step::Ask(q)),
                    Step::Finish(Ok(t)) => Reversion::applying(t),
                    Step::Finish(Err(e)) => (Reversion::Finished, Step::Finish(Err(e))),
                }
            },
            Reversion::Applying { target, inner } => {
                let (inner2, st) = inner.spec_next(reply);
                match st {
                    Step::Ask(q) => (Reversion::Applying { target, inner: inner2 }, Step::Ask(q)),
                    Step::Finish(Ok(_)) => (Reversion::Clearing { target }, Step::Ask(Request::ClearGuard)),
                    Step::Finish(Err(e)) => (Reversion::Finished, Step::Finish(Err(e))),
                }
            },
            Reversion::Clearing { target } => match reply {
                Reply::Done => (Reversion::Finished, Step::Finish(Ok(target))),
                Reply::Failed(e) => (Reversion::Finished, Step::Finish(Err(e))),
                _ => off_protocol(self),
            },
            Reversion::Finished => off_protocol(self),
        }
    }

    pub fn next(self, reply: Reply) -> (r: (Reversion, Step<DisplayState>))
        requires
            self.accepts(reply),
        ensures
            r == self.spec_next(reply),
    {
        match self {
            Reversion::Reading => match reply {
                Reply::Guard(Some(p)) => (
                    Reversion::Applying {
                        target: p.saved,
                        inner: Application::Sampling { target: p.saved, inner: StateQuery::AwaitMode },
                    },
                    Step::Ask(Request::ReadMode),
                ),
                Reply::Guard(None) => (Reversion::Native(NativeQuery::AwaitNative), Step::Ask(Request::ReadNative)),
                Reply::Failed(e) => (Reversion::Finished, Step::Finish(Err(e))),
                _ => {
                    proof { assert(false); }
                    (Reversion::Finished, Step::Finish(Err(Failure::System(String::new()))))
                },
            },
            Reversion::Native(inner) => {
                let (inner2, st) = inner.next(reply);
                match st {
                    Step::Ask(q) => (Reversion::Native(inner2), Step::Ask(q)),
                    Step::Finish(Ok(t)) => (
                        Reversion::Applying {
                            target: t,
                            inner: Application::Sampling { target: t, inner: StateQuery::AwaitMode },
                        },
                        Step::Ask(Request::ReadMode),
                    ),
                    Step::Finish(Err(e)) => (Reversion::Finished, Step::Finish(Err(e))),
                }
            },
            Reversion::Applying { target, inner } => {
                let (inner2, st) = inner.next(reply);
                match st {
                    Step::Ask(q) => (Reversion::Applying { target, inner: inner2 }, Step::Ask(q)),
                    Step::Finish(Ok(_)) => (Reversion::Clearing { target }, Step::Ask(Request::ClearGuard)),
                    Step::Finish(Err(e)) => (Reversion::Finished, Step::Finish(Err(e))),
                }
            },
            Reversion::Clearing { target } => match reply {
                Reply::Done => (Reversion::Finished, Step::Finish(Ok(target))),
                Reply::Failed(e) => (Reversion::Finished, Step::Finish(Err(e))),
                _ => {
                    proof { assert(false); }
                    (Reversion::Finished, Step::Finish(Err(Failure::System(String::new()))))
                },
            },
            Reversion::Finished => {
                    proof { assert(false); }
                    (Reversion::Finished, Step::Finish(Err(Failure::System(String::new()))))
                },
        }
    }
}

/// The first step of reverting: read the guard.
pub open spec fn revert_start() -> (Reversion, Step<DisplayState>) {
    (Reversion::Reading, Step::Ask(Request::ReadGuard))
}

/// Revert to the guarded previous state (or native if no guard exists), then
/// drop the guard. The result is the state reverted to.
pub fn revert() -> (r: (Reversion, Step<DisplayState>))
    ensures
        r == revert_start(),
{
    (Reversion::Reading, Step::Ask(Request::ReadGuard))
}

/// Check that a mode is at (or above) another resolution in both dimensions.
pub fn is_above(mode: Mode, base: (u32, u32)) -> (r: bool)
    ensures
        r == (mode.width >= base.0 && mode.height >= base.1),
{
    mode.width >= base.0 && mode.height >= base.1
}

} // verus!
