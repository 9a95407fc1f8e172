//! A reference model of the operating-system layer, and the laws the display
//! operations obey against it.
//!
//! The model display carries out every request as documented: a mode switch
//! changes the mode, a scale write changes the scale, the guard store keeps
//! the last record saved until it is cleared. Requests listed in `faults` fail
//! instead, without effect.

use vstd::prelude::*;
use crate::guard::PendingRevert;
use crate::model::{DisplayState, Failure, Mode, Profile};
use crate::display::spec_resolve_mode;
use crate::dpi::{clamp_rel, ladder, spec_rollback_rel, ClampedScaleWrite, ScaleRange, ScaleReply, ScaleRequest, ScaleStep, ScaleWrite};
use crate::tuner::{
    apply_start, clamp, confirm_start, guarded_start, native_start, restore_start, revert_start, spec_resolve,
    state_start, Application, Confirmation, GuardedApplication, NativeQuery, PendingRestore, Reply, Request,
    Resolution, Reversion, StateQuery, Step,
};

verus! {

/// The display, its catalogue and the guard store.
pub struct World {
    pub display: DisplayState,
    pub native: (u32, u32),
    pub modes: Vec<Mode>,
    /// The (min%, max%) scale range the display supports at each mode.
    pub range: spec_fn(Mode) -> (u32, u32),
    pub guard: Option<PendingRevert>,
    /// The clock that stamps guard records.
    pub now: u64,
    /// Requests that fail, and how.
    pub faults: spec_fn(Request) -> Option<Failure>,
}

/// A world in which nothing fails.
pub open spec fn no_faults() -> spec_fn(Request) -> Option<Failure> {
    |q: Request| None::<Failure>
}

/// How the model carries out one request.
pub open spec fn respond(w: World, q: Request) -> (World, Reply) {
    if (w.faults)(q) is Some && !(q is ListModes) {
        (w, Reply::Failed((w.faults)(q)->0))
    } else {
        match q {
            Request::ReadMode => (w, Reply::Mode(w.display.mode)),
            Request::ReadScale => (w, Reply::Scale(w.display.scale)),
            Request::ReadNative => (w, Reply::Native(w.native.0, w.native.1)),
            Request::ListModes => (w, Reply::Modes(w.modes)),
            Request::SwitchMode(m) => (World { display: DisplayState { mode: m, ..w.display }, ..w }, Reply::Done),
            Request::ReadScaleRange => (w, Reply::Range((w.range)(w.display.mode).0, (w.range)(w.display.mode).1)),
            Request::SetScale(s) => (World { display: DisplayState { scale: s, ..w.display }, ..w }, Reply::Done),
            Request::ReadGuard => (w, Reply::Guard(w.guard)),
            Request::SaveGuard(d) => (
                World { guard: Some(PendingRevert { saved: d, created: w.now }), ..w },
                Reply::Done,
            ),
            Request::ClearGuard => (World { guard: None, ..w }, Reply::Done),
        }
    }
}

/// Run an application against the model for at most `fuel` requests.
pub open spec fn run_apply(m: Application, st: Step<DisplayState>, w: World, fuel: nat) -> (World, Option<Result<DisplayState, Failure>>)
    decreases fuel,
{
    match st {
        Step::Finish(r) => (w, Some(r)),
        Step::Ask(q) => if fuel == 0 {
            (w, None)
        } else {
            let (w2, reply) = respond(w, q);
            let (m2, st2) = m.spec_next(reply);
            run_apply(m2, st2, w2, (fuel - 1) as nat)
        },
    }
}

/// Run a StateQuery operation against the model for at most `fuel` requests.
pub open spec fn run_state(m: StateQuery, st: Step<DisplayState>, w: World, fuel: nat) -> (World, Option<Result<DisplayState, Failure>>)
    decreases fuel,
{
    match st {
        Step::Finish(r) => (w, Some(r)),
        Step::Ask(q) => if fuel == 0 {
            (w, None)
        } else {
            let (w2, reply) = respond(w, q);
            let (m2, st2) = m.spec_next(reply);
            run_state(m2, st2, w2, (fuel - 1) as nat)
        },
    }
}

/// Run a GuardedApplication operation against the model for at most `fuel` requests.
pub open spec fn run_guarded(m: GuardedApplication, st: Step<DisplayState>, w: World, fuel: nat) -> (World, Option<Result<DisplayState, Failure>>)
    decreases fuel,
{
    match st {
        Step::Finish(r) => (w, Some(r)),
        Step::Ask(q) => if fuel == 0 {
            (w, None)
        } else {
            let (w2, reply) = respond(w, q);
            let (m2, st2) = m.spec_next(reply);
            run_guarded(m2, st2, w2, (fuel - 1) as nat)
        },
    }
}

/// Run a PendingRestore operation against the model for at most `fuel` requests.
pub open spec fn run_restore(m: PendingRestore, st: Step<Option<DisplayState>>, w: World, fuel: nat) -> (World, Option<Result<Option<DisplayState>, Failure>>)
    decreases fuel,
{
    match st {
        Step::Finish(r) => (w, Some(r)),
        Step::Ask(q) => if fuel == 0 {
            (w, None)
        } else {
            let (w2, reply) = respond(w, q);
            let (m2, st2) = m.spec_next(reply);
            run_restore(m2, st2, w2, (fuel - 1) as nat)
        },
    }
}

/// Run a Confirmation operation against the model for at most `fuel` requests.
pub open spec fn run_confirm(m: Confirmation, st: Step<()>, w: World, fuel: nat) -> (World, Option<Result<(), Failure>>)
    decreases fuel,
{
    match st {
        Step::Finish(r) => (w, Some(r)),
        Step::Ask(q) => if fuel == 0 {
            (w, None)
        } else {
            let (w2, reply) = respond(w, q);
            let (m2, st2) = m.spec_next(reply);
            run_confirm(m2, st2, w2, (fuel - 1) as nat)
        },
    }
}

/// Run a Reversion operation against the model for at most `fuel` requests.
pub open spec fn run_revert(m: Reversion, st: Step<DisplayState>, w: World, fuel: nat) -> (World, Option<Result<DisplayState, Failure>>)
    decreases fuel,
{
    match st {
        Step::Finish(r) => (w, Some(r)),
        Step::Ask(q) => if fuel == 0 {
            (w, None)
        } else {
            let (w2, reply) = respond(w, q);
            let (m2, st2) = m.spec_next(reply);
            run_revert(m2, st2, w2, (fuel - 1) as nat)
        },
    }
}

/// Run a native-state query against the model for at most `fuel` requests.
pub open spec fn run_native(m: NativeQuery, st: Step<DisplayState>, w: World, fuel: nat) -> (World, Option<Result<DisplayState, Failure>>)
    decreases fuel,
{
    match st {
        Step::Finish(r) => (w, Some(r)),
        Step::Ask(q) => if fuel == 0 {
            (w, None)
        } else {
            let (w2, reply) = respond(w, q);
            let (m2, st2) = m.spec_next(reply);
            run_native(m2, st2, w2, (fuel - 1) as nat)
        },
    }
}

/// Run a resolution against the model for at most `fuel` requests.
pub open spec fn run_resolve(m: Resolution, st: Step<DisplayState>, w: World, fuel: nat) -> (World, Option<Result<DisplayState, Failure>>)
    decreases fuel,
{
    match st {
        Step::Finish(r) => (w, Some(r)),
        Step::Ask(q) => if fuel == 0 {
            (w, None)
        } else {
            let (w2, reply) = respond(w, q);
            let (m2, st2) = m.spec_next(reply);
            run_resolve(m2, st2, w2, (fuel - 1) as nat)
        },
    }
}

/// The display after applying `target` from `previous`: the scale is clamped
/// to the range the display supports at the target mode.
pub open spec fn applied(previous: DisplayState, target: DisplayState, range: spec_fn(Mode) -> (u32, u32)) -> DisplayState {
    if previous == target {
        previous
    } else {
        DisplayState { mode: target.mode, scale: clamp(target.scale, range(target.mode).0, range(target.mode).1) }
    }
}

/// Every mode's scale range is ordered.
pub open spec fn ordered_ranges(w: World) -> bool {
    forall|m: Mode| #[trigger] (w.range)(m).0 <= (w.range)(m).1
}

/// Applying a state switches to its mode and its scale (clamped to the
/// supported range), leaves the guard alone, and reports the state before.
pub proof fn law_apply_reaches_target(w: World, target: DisplayState)
    requires
        w.faults == no_faults(),
        ordered_ranges(w),
    ensures
        ({
            let (w2, r) = run_apply(apply_start(target).0, apply_start(target).1, w, 6);
            &&& r == Some(Ok::<DisplayState, Failure>(w.display))
            &&& w2.display == applied(w.display, target, w.range)
            &&& w2.guard == w.guard
        }),
{
    reveal_with_fuel(run_apply, 7);
}

/// A world in which exactly the scale write fails, with `e`.
pub open spec fn scale_write_fails(e: Failure) -> spec_fn(Request) -> Option<Failure> {
    |q: Request| if q is SetScale { Some(e) } else { None::<Failure> }
}

/// A world in which exactly the guard save fails, with `e`.
pub open spec fn guard_save_fails(e: Failure) -> spec_fn(Request) -> Option<Failure> {
    |q: Request| if q is SaveGuard { Some(e) } else { None::<Failure> }
}

/// Reading the state reports the display and changes nothing.
pub proof fn law_state_reads_display(w: World)
    requires
        w.faults == no_faults(),
    ensures
        run_state(state_start().0, state_start().1, w, 2) == (w, Some(Ok::<DisplayState, Failure>(w.display))),
{
    reveal_with_fuel(run_state, 3);
}

/// When the scale write fails, applying a different state leaves the display
/// as it was: a mode switch made before is switched back.
pub proof fn law_apply_rolls_back(w: World, target: DisplayState, e: Failure)
    requires
        w.faults == scale_write_fails(e),
        ordered_ranges(w),
        w.display != target,
        clamp(target.scale, (w.range)(target.mode).0, (w.range)(target.mode).1) != w.display.scale,
    ensures
        ({
            let (w2, r) = run_apply(apply_start(target).0, apply_start(target).1, w, 7);
            &&& r == Some(Err::<DisplayState, Failure>(e))
            &&& w2.display == w.display
            &&& w2.guard == w.guard
        }),
{
    reveal_with_fuel(run_apply, 8);
}

/// A guarded transition saves the state before the switch, then applies the
/// target; when the display is already there, nothing is saved or switched.
pub proof fn law_guarded_apply(w: World, target: DisplayState)
    requires
        w.faults == no_faults(),
        ordered_ranges(w),
    ensures
        ({
            let (w2, r) = run_guarded(guarded_start(target).0, guarded_start(target).1, w, 9);
            &&& r == Some(Ok::<DisplayState, Failure>(w.display))
            &&& w2.display == applied(w.display, target, w.range)
            &&& w2.faults == w.faults && w2.range == w.range && w2.native == w.native
            &&& w2.modes == w.modes && w2.now == w.now
            &&& w2.guard == if w.display == target {
                w.guard
            } else {
                Some(PendingRevert { saved: w.display, created: w.now })
            }
        }),
{
    reveal_with_fuel(run_guarded, 10);
}

/// No switch happens unless the previous state was saved first.
pub proof fn law_guard_saved_before_switch(w: World, target: DisplayState, e: Failure)
    requires
        w.faults == guard_save_fails(e),
        w.display != target,
    ensures
        ({
            let (w2, r) = run_guarded(guarded_start(target).0, guarded_start(target).1, w, 9);
            &&& r == Some(Err::<DisplayState, Failure>(e))
            &&& w2.display == w.display
            &&& w2.guard == w.guard
        }),
{
    reveal_with_fuel(run_guarded, 10);
}

/// A guarded transition that fails keeps the guard record, so the saved state
/// can still be restored later.
pub proof fn law_guard_kept_on_failure(w: World, target: DisplayState, e: Failure)
    requires
        w.faults == scale_write_fails(e),
        ordered_ranges(w),
        w.display != target,
        clamp(target.scale, (w.range)(target.mode).0, (w.range)(target.mode).1) != w.display.scale,
    ensures
        ({
            let (w2, r) = run_guarded(guarded_start(target).0, guarded_start(target).1, w, 10);
            &&& r == Some(Err::<DisplayState, Failure>(e))
            &&& w2.display == w.display
            &&& w2.guard == Some(PendingRevert { saved: w.display, created: w.now })
        }),
{
    reveal_with_fuel(run_guarded, 11);
}

/// Reverting with a guard record applies the saved state and drops the record.
pub proof fn law_revert_restores_saved(w: World, p: PendingRevert)
    requires
        w.faults == no_faults(),
        ordered_ranges(w),
        w.guard == Some(p),
    ensures
        ({
            let (w2, r) = run_revert(revert_start().0, revert_start().1, w, 8);
            &&& r == Some(Ok::<DisplayState, Failure>(p.saved))
            &&& w2.display == applied(w.display, p.saved, w.range)
            &&& w2.guard is None
        }),
{
    reveal_with_fuel(run_revert, 9);
}

/// Reverting without a guard record goes to the native state: the native
/// resolution at its highest refresh, at 100%.
pub proof fn law_revert_without_guard_goes_native(w: World, m: Mode)
    requires
        w.faults == no_faults(),
        ordered_ranges(w),
        w.guard is None,
        spec_resolve_mode(w.native.0, w.native.1, None, w.modes@) == Ok::<Mode, Failure>(m),
    ensures
        ({
            let native = DisplayState { mode: m, scale: 100 };
            let (w2, r) = run_revert(revert_start().0, revert_start().1, w, 10);
            &&& r == Some(Ok::<DisplayState, Failure>(native))
            &&& w2.display == applied(w.display, native, w.range)
            &&& w2.guard is None
        }),
{
    reveal_with_fuel(run_revert, 11);
}

/// A guarded transition followed by a revert returns the display to where it
/// was (when its scale is one the display supports) and leaves no guard behind.
pub proof fn law_revert_undoes_guarded_apply(w: World, target: DisplayState)
    requires
        w.faults == no_faults(),
        ordered_ranges(w),
        (w.range)(w.display.mode).0 <= w.display.scale <= (w.range)(w.display.mode).1,
        w.display != target,
    ensures
        ({
            let (w2, r1) = run_guarded(guarded_start(target).0, guarded_start(target).1, w, 9);
            let (w3, r2) = run_revert(revert_start().0, revert_start().1, w2, 8);
            &&& r1 == Some(Ok::<DisplayState, Failure>(w.display))
            &&& r2 == Some(Ok::<DisplayState, Failure>(w.display))
            &&& w3.display == w.display
            &&& w3.guard is None
        }),
{
    law_guarded_apply(w, target);
    let (w2, r1) = run_guarded(guarded_start(target).0, guarded_start(target).1, w, 9);
    law_revert_restores_saved(w2, PendingRevert { saved: w.display, created: w.now });
}

/// Restoring a pending revert applies the saved state and drops the record.
pub proof fn law_restore_pending(w: World, p: PendingRevert)
    requires
        w.faults == no_faults(),
        ordered_ranges(w),
        w.guard == Some(p),
    ensures
        ({
            let (w2, r) = run_restore(restore_start().0, restore_start().1, w, 8);
            &&& r == Some(Ok::<Option<DisplayState>, Failure>(Some(p.saved)))
            &&& w2.display == applied(w.display, p.saved, w.range)
            &&& w2.guard is None
        }),
{
    reveal_with_fuel(run_restore, 9);
}

/// With no pending revert, restoring does nothing.
pub proof fn law_restore_nothing_pending(w: World)
    requires
        w.faults == no_faults(),
        w.guard is None,
    ensures
        run_restore(restore_start().0, restore_start().1, w, 1) == (w, Some(Ok::<Option<DisplayState>, Failure>(None))),
{
    reveal_with_fuel(run_restore, 2);
}

/// Restoring twice is restoring once: after a restore, a second one finds
/// nothing pending, returns `Ok(None)` and changes nothing.
pub proof fn law_restore_pending_twice(w: World)
    requires
        w.faults == no_faults(),
        ordered_ranges(w),
    ensures
        ({
            let (w2, r1) = run_restore(restore_start().0, restore_start().1, w, 8);
            let (w3, r2) = run_restore(restore_start().0, restore_start().1, w2, 8);
            &&& r1 is Some
            &&& r2 == Some(Ok::<Option<DisplayState>, Failure>(None))
            &&& w3 == w2
        }),
{
    reveal_with_fuel(run_restore, 9);
}

/// Confirming drops the guard record and leaves the display alone.
pub proof fn law_confirm_clears_guard(w: World)
    requires
        w.faults == no_faults(),
    ensures
        ({
            let (w2, r) = run_confirm(confirm_start().0, confirm_start().1, w, 1);
            &&& r == Some(Ok::<(), Failure>(()))
            &&& w2.display == w.display
            &&& w2.guard is None
        }),
{
    reveal_with_fuel(run_confirm, 2);
}

/// What resolving `profile` yields on the model: its resolution (or the
/// native one) at the best refresh offered, and its scale (or the current one).
pub open spec fn resolved(w: World, profile: Profile) -> Result<DisplayState, Failure> {
    let (width, height) = match profile.resolution {
        Some(res) => res,
        None => w.native,
    };
    match spec_resolve_mode(width, height, profile.refresh, w.modes@) {
        Ok(mode) => Ok(DisplayState {
            mode,
            scale: match profile.scale {
                Some(s) => s,
                None => w.display.scale,
            },
        }),
        Err(e) => Err(e),
    }
}

/// Resolving a profile reads the display and its catalogue, and changes nothing.
pub proof fn law_resolve_profile(w: World, profile: Profile)
    requires
        w.faults == no_faults(),
    ensures
        run_resolve(spec_resolve(profile).0, spec_resolve(profile).1, w, 3) == (w, Some(resolved(w, profile))),
{
    reveal_with_fuel(run_resolve, 4);
}

/// The native state is the native resolution at its highest refresh, at 100%;
/// finding it changes nothing.
pub proof fn law_native_state(w: World)
    requires
        w.faults == no_faults(),
    ensures
        run_native(native_start().0, native_start().1, w, 2) == (w, Some(
            match spec_resolve_mode(w.native.0, w.native.1, None, w.modes@) {
                Ok(mode) => Ok(DisplayState { mode, scale: 100 }),
                Err(e) => Err(e),
            },
        )),
{
    reveal_with_fuel(run_native, 3);
}

/// A display that takes relative scale steps around a recommended step.
pub struct ScaleModel {
    pub scale: u32,
    pub min_rel: i32,
    pub max_rel: i32,
    /// Whether writes take effect at all.
    pub responsive: bool,
    /// The relative steps written so far, oldest first.
    pub writes: Seq<i32>,
}

/// How the scale model carries out one request.
pub open spec fn scale_respond(d: ScaleModel, q: ScaleRequest) -> (ScaleModel, ScaleReply) {
    match q {
        ScaleRequest::ReadScale => (d, ScaleReply::Scale(d.scale)),
        ScaleRequest::ProbeRange => (d, ScaleReply::Probe { min_rel: d.min_rel, max_rel: d.max_rel }),
        ScaleRequest::WriteRelative(rel) => (
            ScaleModel {
                scale: if d.responsive { ladder()[-d.min_rel + rel] } else { d.scale },
                writes: d.writes.push(rel),
                ..d
            },
            ScaleReply::Done,
        ),
        ScaleRequest::Pause => (d, ScaleReply::Done),
    }
}

/// Run a scale write against the model for at most `fuel` requests.
pub open spec fn run_scale(m: ScaleWrite, st: ScaleStep, d: ScaleModel, fuel: nat) -> (ScaleModel, Option<Result<(), Failure>>)
    decreases fuel,
{
    match st {
        ScaleStep::Finish(r) => (d, Some(r)),
        ScaleStep::Ask(q) => if fuel == 0 {
            (d, None)
        } else {
            let (d2, reply) = scale_respond(d, q);
            let (m2, st2) = m.spec_next(reply);
            run_scale(m2, st2, d2, (fuel - 1) as nat)
        },
    }
}

/// A probe the display can give: its bottom step is a ladder position.
pub open spec fn sane_probe(d: ScaleModel) -> bool {
    -11 <= d.min_rel <= 0
}

/// Writing a ladder step the display supports sets the scale to it.
pub proof fn law_set_scale_applies(d: ScaleModel, t: int)
    requires
        d.responsive,
        sane_probe(d),
        0 <= t < 12,
        d.min_rel <= t + d.min_rel <= d.max_rel,
    ensures
        ({
            let percent = ladder()[t];
            let (d2, r) = run_scale(ScaleWrite::Initial { percent }, ScaleStep::Ask(ScaleRequest::ReadScale), d, 4);
            r == Some(Ok::<(), Failure>(())) && d2.scale == percent
        }),
{
    let percent = ladder()[t];
    crate::dpi::lemma_ladder_index(percent, t);
    reveal_with_fuel(run_scale, 5);
}

/// A scale that is not a ladder step is refused before anything is written.
pub proof fn law_set_scale_refuses_off_ladder(d: ScaleModel, percent: u32)
    requires
        !ladder().contains(percent),
        d.scale != percent,
    ensures
        run_scale(ScaleWrite::Initial { percent }, ScaleStep::Ask(ScaleRequest::ReadScale), d, 1)
            == (d, Some(Err::<(), Failure>(Failure::ScaleUnsupported(percent)))),
{
    reveal_with_fuel(run_scale, 2);
}

/// Read-backs that keep seeing another scale end in a lost write.
proof fn lemma_polling_gives_up(d: ScaleModel, percent: u32, start: u32, range: ScaleRange, reads: u32, k: nat)
    requires
        !d.responsive,
        d.scale != percent,
        reads < 20,
    ensures
        run_scale(ScaleWrite::Polling { percent, start, range, reads }, ScaleStep::Ask(ScaleRequest::ReadScale), d, (2 * (20 - reads) + k) as nat)
            == run_scale(ScaleWrite::Lost { percent, start, range }, ScaleStep::Ask(ScaleRequest::ReadScale), d, k),
    decreases 20 - reads,
{
    reveal_with_fuel(run_scale, 3);
    if reads + 1 < 20 {
        lemma_polling_gives_up(d, percent, start, range, (reads + 1) as u32, k);
    }
}

/// The range a model display reports.
pub open spec fn probed_range(d: ScaleModel) -> ScaleRange {
    ScaleRange { recommended_idx: -d.min_rel as i32, min_rel: d.min_rel, max_rel: d.max_rel }
}

/// A write the display ignores is reported as not applied, with the scale the
/// display kept, after the read-backs run out; then the scale read before the
/// write is written back, where the display's range can express it.
pub proof fn law_set_scale_detects_lost_write(d: ScaleModel, t: int)
    requires
        !d.responsive,
        sane_probe(d),
        0 <= t < 12,
        d.min_rel <= t + d.min_rel <= d.max_rel,
        d.scale != ladder()[t],
    ensures
        ({
            let percent = ladder()[t];
            let (d2, r) = run_scale(ScaleWrite::Initial { percent }, ScaleStep::Ask(ScaleRequest::ReadScale), d, 45);
            &&& r == Some(Err::<(), Failure>(Failure::ScaleNotApplied { wanted: percent, actual: d.scale }))
            &&& d2.scale == d.scale
            &&& d2.writes == match spec_rollback_rel(d.scale, probed_range(d)) {
                Some(back) => d.writes.push((t + d.min_rel) as i32).push(back),
                None => d.writes.push((t + d.min_rel) as i32),
            }
        }),
{
    let percent = ladder()[t];
    let range = probed_range(d);
    crate::dpi::lemma_ladder_index(percent, t);
    let d1 = ScaleModel { writes: d.writes.push((t + d.min_rel) as i32), ..d };
    reveal_with_fuel(run_scale, 4);
    assert(run_scale(ScaleWrite::Initial { percent }, ScaleStep::Ask(ScaleRequest::ReadScale), d, 45)
        == run_scale(ScaleWrite::Polling { percent, start: d.scale, range, reads: 0 }, ScaleStep::Ask(ScaleRequest::ReadScale), d1, 42));
    lemma_polling_gives_up(d1, percent, d.scale, range, 0, 2);
    reveal_with_fuel(run_scale, 3);
}

/// Run a clamped scale write against the model for at most `fuel` requests.
pub open spec fn run_clamped(m: ClampedScaleWrite, st: ScaleStep, d: ScaleModel, fuel: nat) -> (ScaleModel, Option<Result<(), Failure>>)
    decreases fuel,
{
    match st {
        ScaleStep::Finish(r) => (d, Some(r)),
        ScaleStep::Ask(q) => if fuel == 0 {
            (d, None)
        } else {
            let (d2, reply) = scale_respond(d, q);
            let (m2, st2) = m.spec_next(reply);
            run_clamped(m2, st2, d2, (fuel - 1) as nat)
        },
    }
}

/// A ladder step the display supports is written and read back; one outside
/// its range is clamped to the nearest end of the range and written without
/// reading back.
pub proof fn law_dpi_set_clamps(d: ScaleModel, t: int)
    requires
        d.responsive,
        sane_probe(d),
        d.min_rel <= d.max_rel,
        d.max_rel <= 11 + d.min_rel,
        0 <= t < 12,
    ensures
        ({
            let percent = ladder()[t];
            let (d2, r) = run_clamped(
                ClampedScaleWrite::Probing { percent, target_idx: t as usize },
                ScaleStep::Ask(ScaleRequest::ProbeRange),
                d,
                3,
            );
            let rel = clamp_rel(t + d.min_rel, d.min_rel as int, d.max_rel as int);
            &&& r == Some(Ok::<(), Failure>(()))
            &&& d2.scale == ladder()[rel - d.min_rel]
            &&& d2.writes == d.writes.push(rel as i32)
        }),
{
    reveal_with_fuel(run_clamped, 4);
}

} // verus!
