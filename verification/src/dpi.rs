//! Per-monitor DPI scale ladder and the arithmetic of the relative-step protocol.
//!
//! The display reports its supported range as steps relative to a recommended
//! step of the ladder; a write names the target step the same way.

use vstd::prelude::*;
use crate::model::Failure;

verus! {

/// The fixed DPI ladder used by the Windows Settings app.
pub const DPI_STEPS: [u32; 12] = [100, 125, 150, 175, 200, 225, 250, 300, 350, 400, 450, 500];

/// The ladder as a sequence.
pub open spec fn ladder() -> Seq<u32> {
    seq![100u32, 125, 150, 175, 200, 225, 250, 300, 350, 400, 450, 500]
}

fn step(idx: usize) -> (s: u32)
    requires
        idx < 12,
    ensures
        s == ladder()[idx as int],
{
    let s = DPI_STEPS[idx];
    assert(DPI_STEPS@ == ladder());
    s
}

/// The display's supported range, as relative steps around a recommended step.
#[derive(Clone, Copy, PartialEq, Eq, Structural, Debug)]
pub struct ScaleRange {
    pub recommended_idx: i32,
    pub min_rel: i32,
    pub max_rel: i32,
}

/// Index into the ladder, clamped to its ends.
pub open spec fn clamp_index(x: int) -> int {
    if x < 0 {
        0
    } else if x > 11 {
        11
    } else {
        x
    }
}

/// The ladder step that `rel` steps from the recommended one names (clamped).
pub open spec fn spec_step_at(range: ScaleRange, rel: i32) -> u32 {
    ladder()[clamp_index(range.recommended_idx + rel)]
}

impl ScaleRange {
    /// The range reported by the display: the recommended step sits `-min_rel`
    /// steps above the bottom of the ladder.
    pub fn from_probe(min_rel: i32, max_rel: i32) -> (r: ScaleRange)
        requires
            min_rel != i32::MIN,
        ensures
            r.recommended_idx == -min_rel,
            r.min_rel == min_rel,
            r.max_rel == max_rel,
    {
        ScaleRange { recommended_idx: -min_rel, min_rel, max_rel }
    }
}

/// The ladder step `rel` steps away from the recommended one, clamped to the ladder.
pub fn step_at(range: &ScaleRange, rel: i32) -> (s: u32)
    ensures
        s == spec_step_at(*range, rel),
{
    let x: i64 = range.recommended_idx as i64 + rel as i64;
    let idx: usize = if x < 0 {
        0
    } else if x > 11 {
        11
    } else {
        x as usize
    };
    step(idx)
}

/// (min%, max%) supported scale.
pub fn scale_range(range: &ScaleRange) -> (r: (u32, u32))
    ensures
        r == (spec_step_at(*range, range.min_rel), spec_step_at(*range, range.max_rel)),
{
    (step_at(range, range.min_rel), step_at(range, range.max_rel))
}

/// Position of `percent` on the ladder.
pub fn ladder_position(percent: u32) -> (r: Option<usize>)
    ensures
        match r {
            Some(i) => i < 12 && ladder()[i as int] == percent,
            None => !ladder().contains(percent),
        },
{
    let mut i: usize = 0;
    while i < 12
        invariant
            i <= 12,
            forall|j: int| 0 <= j < i ==> ladder()[j] != percent,
        decreases 12 - i,
    {
        if step(i) == percent {
            return Some(i);
        }
        i = i + 1;
    }
    assert forall|j: int| 0 <= j < ladder().len() implies ladder()[j] != percent by {}
    None
}

/// The relative step that selects ladder step `target_idx`, if the display supports it.
pub fn relative_step(percent: u32, target_idx: usize, range: &ScaleRange) -> (r: Result<i32, Failure>)
    requires
        target_idx < 12,
        range.recommended_idx >= target_idx - i32::MAX,
    ensures
        ({
            let rel = target_idx - range.recommended_idx;
            if range.min_rel <= rel <= range.max_rel {
                r == Ok::<i32, Failure>(rel as i32)
            } else {
                r == Err::<i32, Failure>(Failure::ScaleOutOfRange {
                    percent,
                    min: spec_step_at(*range, range.min_rel),
                    max: spec_step_at(*range, range.max_rel),
                })
            }
        }),
{
    let rel: i32 = target_idx as i32 - range.recommended_idx;
    if rel < range.min_rel || rel > range.max_rel {
        return Err(Failure::ScaleOutOfRange {
            percent,
            min: step_at(range, range.min_rel),
            max: step_at(range, range.max_rel),
        });
    }
    Ok(rel)
}

/// One call into the operating-system layer during a scale write.
#[derive(Clone, Copy, Debug)]
pub enum ScaleRequest {
    /// The current effective scale percent.
    ReadScale,
    /// The display's (min_rel, max_rel) range packet.
    ProbeRange,
    /// Write the scale `rel` steps from the recommended one.
    WriteRelative(i32),
    /// Wait a short while (100 ms) before reading back.
    Pause,
}

/// The outcome of a [`ScaleRequest`].
#[derive(Clone, Debug)]
pub enum ScaleReply {
    Scale(u32),
    Probe { min_rel: i32, max_rel: i32 },
    Done,
    Failed(Failure),
}

/// What a scale write wants next.
#[derive(Debug)]
pub enum ScaleStep {
    Ask(ScaleRequest),
    Finish(Result<(), Failure>),
}

/// How many read-backs a write waits for before it is declared lost.
pub open spec fn read_backs() -> u32 {
    20
}

/// The relative step that writes `start` back, when the display can take it:
/// `start` is a ladder step inside the range.
pub open spec fn spec_rollback_rel(start: u32, range: ScaleRange) -> Option<i32> {
    if ladder().contains(start) {
        let rel = ladder().index_of(start) - range.recommended_idx;
        if range.min_rel <= rel <= range.max_rel {
            Some(rel as i32)
        } else {
            None
        }
    } else {
        None
    }
}

/// The relative step that writes `start` back, if the display supports it.
pub fn rollback_step(start: u32, range: &ScaleRange) -> (r: Option<i32>)
    ensures
        r == spec_rollback_rel(start, *range),
{
    match ladder_position(start) {
        Some(i) => {
            proof {
                lemma_ladder_index(start, i as int);
            }
            let rel: i64 = i as i64 - range.recommended_idx as i64;
            if rel < range.min_rel as i64 || rel > range.max_rel as i64 {
                None
            } else {
                Some(rel as i32)
            }
        },
        None => None,
    }
}

/// Setting the scale, verified by reading the effective scale back. A write
/// that does not stick is undone: the scale read before the write (`start`) is
/// written back, where the display's range can express it.
#[derive(Clone, Copy, Debug)]
pub enum ScaleWrite {
    /// Reading the scale before anything is written.
    Initial { percent: u32 },
    /// Reading the supported range for ladder step `target_idx`.
    Probing { percent: u32, start: u32, target_idx: usize },
    /// Waiting for the write of relative step `rel`.
    Writing { percent: u32, start: u32, range: ScaleRange, rel: i32 },
    /// Reading back; `reads` read-backs were made before this one.
    Polling { percent: u32, start: u32, range: ScaleRange, reads: u32 },
    /// Waiting between read-backs; `reads` read-backs were made.
    Pausing { percent: u32, start: u32, range: ScaleRange, reads: u32 },
    /// The write did not stick: reading the scale to report it.
    Lost { percent: u32, start: u32, range: ScaleRange },
    /// Writing the starting scale back after a lost write that left `actual`.
    RollingBack { percent: u32, actual: u32, rel: i32 },
    Finished,
}

impl ScaleWrite {
    pub open spec fn pending(self) -> Option<ScaleRequest> {
        match self {
            ScaleWrite::Initial { .. } => Some(ScaleRequest::ReadScale),
            ScaleWrite::Probing { .. } => Some(ScaleRequest::ProbeRange),
            ScaleWrite::Writing { rel, .. } => Some(ScaleRequest::WriteRelative(rel)),
            ScaleWrite::Polling { .. } => Some(ScaleRequest::ReadScale),
            ScaleWrite::Pausing { .. } => Some(ScaleRequest::Pause),
            ScaleWrite::Lost { .. } => Some(ScaleRequest::ReadScale),
            ScaleWrite::RollingBack { rel, .. } => Some(ScaleRequest::WriteRelative(rel)),
            ScaleWrite::Finished => None,
        }
    }

    /// `reply` is an outcome of the pending request that this operation can take.
    /// A probe whose bottom step is `i32::MIN` has no recommended step, and one so
    /// far below the ladder that the relative target step overflows is refused.
    pub open spec fn accepts(self, reply: ScaleReply) -> bool {
        match (self, reply) {
            (ScaleWrite::Finished, _) => false,
            (ScaleWrite::RollingBack { .. }, ScaleReply::Done) => true,
            (_, ScaleReply::Failed(_)) => !(self is Pausing),
            (ScaleWrite::Initial { .. }, ScaleReply::Scale(_)) => true,
            (ScaleWrite::Probing { target_idx, .. }, ScaleReply::Probe { min_rel, .. }) => min_rel != i32::MIN
                && -min_rel >= target_idx - i32::MAX && target_idx < 12,
            (ScaleWrite::Writing { .. }, ScaleReply::Done) => true,
            (ScaleWrite::Polling { reads, .. }, ScaleReply::Scale(_)) => reads < read_backs(),
            (ScaleWrite::Pausing { .. }, ScaleReply::Done) => true,
            (ScaleWrite::Lost { .. }, ScaleReply::Scale(_)) => true,
            _ => false,
        }
    }

    pub open spec fn spec_next(self, reply: ScaleReply) -> (ScaleWrite, ScaleStep) {
        match (self, reply) {
            (ScaleWrite::Initial { percent }, ScaleReply::Scale(current)) => if current == percent {
                (ScaleWrite::Finished, ScaleStep::Finish(Ok(())))
            } else if ladder().contains(percent) {
                (
                    ScaleWrite::Probing { percent, start: current, target_idx: ladder().index_of(percent) as usize },
                    ScaleStep::Ask(ScaleRequest::ProbeRange),
                )
            } else {
                (ScaleWrite::Finished, ScaleStep::Finish(Err(Failure::ScaleUnsupported(percent))))
            },
            (ScaleWrite::Probing { percent, start, target_idx }, ScaleReply::Probe { min_rel, max_rel }) => {
                let range = ScaleRange { recommended_idx: -min_rel as i32, min_rel, max_rel };
                let rel = target_idx - range.recommended_idx;
                if min_rel <= rel <= max_rel {
                    (
                        ScaleWrite::Writing { percent, start, range, rel: rel as i32 },
                        ScaleStep::Ask(ScaleRequest::WriteRelative(rel as i32)),
                    )
                } else {
                    (ScaleWrite::Finished, ScaleStep::Finish(Err(Failure::ScaleOutOfRange {
                        percent,
                        min: spec_step_at(range, min_rel),
                        max: spec_step_at(range, max_rel),
                    })))
                }
            },
            (ScaleWrite::Writing { percent, start, range, .. }, ScaleReply::Done) => (
                ScaleWrite::Polling { percent, start, range, reads: 0 },
                ScaleStep::Ask(ScaleRequest::ReadScale),
            ),
            (ScaleWrite::Polling { percent, start, range, reads }, ScaleReply::Scale(current)) => if current == percent {
                (ScaleWrite::Finished, ScaleStep::Finish(Ok(())))
            } else {
                (
                    ScaleWrite::Pausing { percent, start, range, reads: (reads + 1) as u32 },
                    ScaleStep::Ask(ScaleRequest::Pause),
                )
            },
            (ScaleWrite::Pausing { percent, start, range, reads }, ScaleReply::Done) => if reads < read_backs() {
                (ScaleWrite::Polling { percent, start, range, reads }, ScaleStep::Ask(ScaleRequest::ReadScale))
            } else {
                (ScaleWrite::Lost { percent, start, range }, ScaleStep::Ask(ScaleRequest::ReadScale))
            },
            (ScaleWrite::Lost { percent, start, range }, ScaleReply::Scale(actual)) => match spec_rollback_rel(start, range) {
                Some(rel) => (
                    ScaleWrite::RollingBack { percent, actual, rel },
                    ScaleStep::Ask(ScaleRequest::WriteRelative(rel)),
                ),
                None => (
                    ScaleWrite::Finished,
                    ScaleStep::Finish(Err(Failure::ScaleNotApplied { wanted: percent, actual })),
                ),
            },
            // the lost write is what is reported, whether or not the write-back went through
            (ScaleWrite::RollingBack { percent, actual, .. }, _) => (
                ScaleWrite::Finished,
                ScaleStep::Finish(Err(Failure::ScaleNotApplied { wanted: percent, actual })),
            ),
            (_, ScaleReply::Failed(e)) => (ScaleWrite::Finished, ScaleStep::Finish(Err(e))),
            // a reply this operation does not accept: `next` refuses it, so it is left open
            (q, _) => (q, ScaleStep::Finish(Err(Failure::System(arbitrary())))),
        }
    }

    pub fn next(self, reply: ScaleReply) -> (r: (ScaleWrite, ScaleStep))
        requires
            self.accepts(reply),
        ensures
            r == self.spec_next(reply),
    {
        match (self, reply) {
            (ScaleWrite::Initial { percent }, ScaleReply::Scale(current)) => {
                if current == percent {
                    return (ScaleWrite::Finished, ScaleStep::Finish(Ok(())));
                }
                match ladder_position(percent) {
                    Some(target_idx) => {
                        proof {
                            assert(ladder().contains(percent));
                            lemma_ladder_index(percent, target_idx as int);
                        }
                        (
                            ScaleWrite::Probing { percent, start: current, target_idx },
                            ScaleStep::Ask(ScaleRequest::ProbeRange),
                        )
                    },
                    None => (ScaleWrite::Finished, ScaleStep::Finish(Err(Failure::ScaleUnsupported(percent)))),
                }
            },
            (ScaleWrite::Probing { percent, start, target_idx }, ScaleReply::Probe { min_rel, max_rel }) => {
                let range = ScaleRange::from_probe(min_rel, max_rel);
                match relative_step(percent, target_idx, &range) {
                    Ok(rel) => (
                        ScaleWrite::Writing { percent, start, range, rel },
                        ScaleStep::Ask(ScaleRequest::WriteRelative(rel)),
                    ),
                    Err(e) => (ScaleWrite::Finished, ScaleStep::Finish(Err(e))),
                }
            },
            (ScaleWrite::Writing { percent, start, range, .. }, ScaleReply::Done) => (
                ScaleWrite::Polling { percent, start, range, reads: 0 },
                ScaleStep::Ask(ScaleRequest::ReadScale),
            ),
            (ScaleWrite::Polling { percent, start, range, reads }, ScaleReply::Scale(current)) => if current == percent {
                (ScaleWrite::Finished, ScaleStep::Finish(Ok(())))
            } else {
                (ScaleWrite::Pausing { percent, start, range, reads: reads + 1 }, ScaleStep::Ask(ScaleRequest::Pause))
            },
            (ScaleWrite::Pausing { percent, start, range, reads }, ScaleReply::Done) => if reads < 20 {
                (ScaleWrite::Polling { percent, start, range, reads }, ScaleStep::Ask(ScaleRequest::ReadScale))
            } else {
                (ScaleWrite::Lost { percent, start, range }, ScaleStep::Ask(ScaleRequest::ReadScale))
            },
            (ScaleWrite::Lost { percent, start, range }, ScaleReply::Scale(actual)) => match rollback_step(start, &range) {
                Some(rel) => (ScaleWrite::RollingBack { percent, actual, rel }, ScaleStep::Ask(ScaleRequest::WriteRelative(rel))),
                None => (ScaleWrite::Finished, ScaleStep::Finish(Err(Failure::ScaleNotApplied { wanted: percent, actual }))),
            },
            (ScaleWrite::RollingBack { percent, actual, .. }, _) => (
                ScaleWrite::Finished,
                ScaleStep::Finish(Err(Failure::ScaleNotApplied { wanted: percent, actual })),
            ),
            (_, ScaleReply::Failed(e)) => (ScaleWrite::Finished, ScaleStep::Finish(Err(e))),
            (_, _) => {
                    proof { assert(false); }
                    (ScaleWrite::Finished, ScaleStep::Finish(Err(Failure::System(String::new()))))
                },
        }
    }
}

/// `x` clamped to `lo..=hi`.
pub open spec fn clamp_rel(x: int, lo: int, hi: int) -> int {
    if x < lo {
        lo
    } else if x > hi {
        hi
    } else {
        x
    }
}

/// Setting the scale the quick way: the target step is clamped into the
/// display's range instead of refused, and only an unclamped write is checked
/// by reading back. Nothing is read before the write and nothing is undone.
#[derive(Clone, Copy, Debug)]
pub enum ClampedScaleWrite {
    /// Reading the supported range for ladder step `target_idx`.
    Probing { percent: u32, target_idx: usize },
    /// Waiting for the write; `checked` when it names the target step itself.
    Writing { percent: u32, checked: bool },
    /// Reading back; `reads` read-backs were made before this one.
    Polling { percent: u32, reads: u32 },
    /// Waiting between read-backs; `reads` read-backs were made.
    Pausing { percent: u32, reads: u32 },
    /// The write did not stick: reading the scale to report it.
    Lost { percent: u32 },
    Finished,
}

impl ClampedScaleWrite {
    /// `reply` is an outcome of the pending request that this operation can
    /// take. A probe must have a recommended step, a bottom step not above its
    /// top step, and a relative target step that fits an `i32`.
    pub open spec fn accepts(self, reply: ScaleReply) -> bool {
        match (self, reply) {
            (ClampedScaleWrite::Finished, _) => false,
            (_, ScaleReply::Failed(_)) => !(self is Pausing),
            (ClampedScaleWrite::Probing { target_idx, .. }, ScaleReply::Probe { min_rel, max_rel }) => min_rel != i32::MIN
                && min_rel <= max_rel && target_idx + min_rel <= i32::MAX && target_idx < 12,
            (ClampedScaleWrite::Writing { .. }, ScaleReply::Done) => true,
            (ClampedScaleWrite::Polling { reads, .. }, ScaleReply::Scale(_)) => reads < read_backs(),
            (ClampedScaleWrite::Pausing { .. }, ScaleReply::Done) => true,
            (ClampedScaleWrite::Lost { .. }, ScaleReply::Scale(_)) => true,
            _ => false,
        }
    }

    pub open spec fn spec_next(self, reply: ScaleReply) -> (ClampedScaleWrite, ScaleStep) {
        match (self, reply) {
            (ClampedScaleWrite::Probing { percent, target_idx }, ScaleReply::Probe { min_rel, max_rel }) => {
                let exact = target_idx + min_rel;
                let rel = clamp_rel(exact, min_rel as int, max_rel as int);
                (
                    ClampedScaleWrite::Writing { percent, checked: rel == exact },
                    ScaleStep::Ask(ScaleRequest::WriteRelative(rel as i32)),
                )
            },
            (ClampedScaleWrite::Writing { percent, checked }, ScaleReply::Done) => if checked {
                (ClampedScaleWrite::Polling { percent, reads: 0 }, ScaleStep::Ask(ScaleRequest::ReadScale))
            } else {
                (ClampedScaleWrite::Finished, ScaleStep::Finish(Ok(())))
            },
            (ClampedScaleWrite::Polling { percent, reads }, ScaleReply::Scale(current)) => if current == percent {
                (ClampedScaleWrite::Finished, ScaleStep::Finish(Ok(())))
            } else {
                (ClampedScaleWrite::Pausing { percent, reads: (reads + 1) as u32 }, ScaleStep::Ask(ScaleRequest::Pause))
            },
            (ClampedScaleWrite::Pausing { percent, reads }, ScaleReply::Done) => if reads < read_backs() {
                (ClampedScaleWrite::Polling { percent, reads }, ScaleStep::Ask(ScaleRequest::ReadScale))
            } else {
                (ClampedScaleWrite::Lost { percent }, ScaleStep::Ask(ScaleRequest::ReadScale))
            },
            (ClampedScaleWrite::Lost { percent }, ScaleReply::Scale(actual)) => (
                ClampedScaleWrite::Finished,
                ScaleStep::Finish(Err(Failure::ScaleNotApplied { wanted: percent, actual })),
            ),
            (_, ScaleReply::Failed(e)) => (ClampedScaleWrite::Finished, ScaleStep::Finish(Err(e))),
            // a reply this operation does not accept: `next` refuses it, so it is left open
            (q, _) => (q, ScaleStep::Finish(Err(Failure::System(arbitrary())))),
        }
    }

    pub fn next(self, reply: ScaleReply) -> (r: (ClampedScaleWrite, ScaleStep))
        requires
            self.accepts(reply),
        ensures
            r == self.spec_next(reply),
    {
        match (self, reply) {
            (ClampedScaleWrite::Probing { percent, target_idx }, ScaleReply::Probe { min_rel, max_rel }) => {
                let exact: i32 = target_idx as i32 + min_rel;
                let rel: i32 = if exact < min_rel {
                    min_rel
                } else if exact > max_rel {
                    max_rel
                } else {
                    exact
                };
                (ClampedScaleWrite::Writing { percent, checked: rel == exact }, ScaleStep::Ask(ScaleRequest::WriteRelative(rel)))
            },
            (ClampedScaleWrite::Writing { percent, checked }, ScaleReply::Done) => if checked {
                (ClampedScaleWrite::Polling { percent, reads: 0 }, ScaleStep::Ask(ScaleRequest::ReadScale))
            } else {
                (ClampedScaleWrite::Finished, ScaleStep::Finish(Ok(())))
            },
            (ClampedScaleWrite::Polling { percent, reads }, ScaleReply::Scale(current)) => if current == percent {
                (ClampedScaleWrite::Finished, ScaleStep::Finish(Ok(())))
            } else {
                (ClampedScaleWrite::Pausing { percent, reads: reads + 1 }, ScaleStep::Ask(ScaleRequest::Pause))
            },
            (ClampedScaleWrite::Pausing { percent, reads }, ScaleReply::Done) => if reads < 20 {
                (ClampedScaleWrite::Polling { percent, reads }, ScaleStep::Ask(ScaleRequest::ReadScale))
            } else {
                (ClampedScaleWrite::Lost { percent }, ScaleStep::Ask(ScaleRequest::ReadScale))
            },
            (ClampedScaleWrite::Lost { percent }, ScaleReply::Scale(actual)) => (
                ClampedScaleWrite::Finished,
                ScaleStep::Finish(Err(Failure::ScaleNotApplied { wanted: percent, actual })),
            ),
            (_, ScaleReply::Failed(e)) => (ClampedScaleWrite::Finished, ScaleStep::Finish(Err(e))),
            (_, _) => {
                    proof { assert(false); }
                    (ClampedScaleWrite::Finished, ScaleStep::Finish(Err(Failure::System(String::new()))))
                },
        }
    }
}

/// Set the scale to a ladder step, clamped into the display's range: a scale
/// off the ladder is refused before anything is asked; otherwise the range is
/// probed first.
pub fn dpi_set(percent: u32) -> (r: (ClampedScaleWrite, ScaleStep))
    ensures
        ladder().contains(percent) ==> r == (
            ClampedScaleWrite::Probing { percent, target_idx: ladder().index_of(percent) as usize },
            ScaleStep::Ask(ScaleRequest::ProbeRange),
        ),
        !ladder().contains(percent) ==> r == (
            ClampedScaleWrite::Finished,
            ScaleStep::Finish(Err(Failure::ScaleUnsupported(percent))),
        ),
{
    match ladder_position(percent) {
        Some(target_idx) => {
            proof {
                lemma_ladder_index(percent, target_idx as int);
            }
            (ClampedScaleWrite::Probing { percent, target_idx }, ScaleStep::Ask(ScaleRequest::ProbeRange))
        },
        None => (ClampedScaleWrite::Finished, ScaleStep::Finish(Err(Failure::ScaleUnsupported(percent)))),
    }
}

/// The step written back after a lost write is the scale read before it.
pub proof fn law_rollback_names_start(start: u32, range: ScaleRange)
    requires
        spec_rollback_rel(start, range) is Some,
    ensures
        spec_step_at(range, spec_rollback_rel(start, range)->0) == start,
{
    let i = ladder().index_of(start);
    assert(ladder()[i] == start);
}

/// Whether scale writes are allowed in this session. A write that does not
/// stick turns them off until the process ends.
#[derive(Clone, Copy, PartialEq, Eq, Structural, Debug)]
pub struct DpiPlane {
    pub enabled: bool,
}

/// The outcome ends a scale write that did not stick.
pub open spec fn is_lost_write(outcome: Result<(), Failure>) -> bool {
    outcome matches Err(Failure::ScaleNotApplied { .. })
}

impl DpiPlane {
    /// The plane after a scale write ended with `outcome`.
    pub open spec fn after(self, outcome: Result<(), Failure>) -> DpiPlane {
        DpiPlane { enabled: self.enabled && !is_lost_write(outcome) }
    }

    /// The plane after scale writes ended with `outcomes`, in order.
    pub open spec fn after_all(self, outcomes: Seq<Result<(), Failure>>) -> DpiPlane
        decreases outcomes.len(),
    {
        if outcomes.len() == 0 {
            self
        } else {
            self.after_all(outcomes.drop_last()).after(outcomes.last())
        }
    }

    /// A session starts with scale writes allowed.
    pub fn new() -> (p: DpiPlane)
        ensures
            p.enabled,
    {
        DpiPlane { enabled: true }
    }

    /// Start setting the scale to `percent`, unless scale writes are off.
    pub fn begin(&self, percent: u32) -> (r: Result<(ScaleWrite, ScaleStep), Failure>)
        ensures
            self.enabled ==> r == Ok::<(ScaleWrite, ScaleStep), Failure>(
                (ScaleWrite::Initial { percent }, ScaleStep::Ask(ScaleRequest::ReadScale)),
            ),
            !self.enabled ==> r == Err::<(ScaleWrite, ScaleStep), Failure>(Failure::ScaleWritesDisabled(percent)),
    {
        if self.enabled {
            Ok(set_scale(percent))
        } else {
            Err(Failure::ScaleWritesDisabled(percent))
        }
    }

    /// Take note of how a scale write ended: one that did not stick turns
    /// scale writes off.
    pub fn record(&mut self, outcome: &Result<(), Failure>)
        ensures
            *final(self) == old(self).after(*outcome),
    {
        if let Err(Failure::ScaleNotApplied { .. }) = outcome {
            self.enabled = false;
        }
    }
}

/// Once a write did not stick, scale writes stay off for the rest of the
/// session, whatever later writes end with.
pub proof fn law_lost_write_disables_scale_writes(
    plane: DpiPlane,
    lost: Result<(), Failure>,
    later: Seq<Result<(), Failure>>,
)
    requires
        is_lost_write(lost),
    ensures
        !plane.after(lost).after_all(later).enabled,
    decreases later.len(),
{
    if later.len() > 0 {
        law_lost_write_disables_scale_writes(plane, lost, later.drop_last());
    }
}

/// Ladder steps are distinct, so a step's position is where it occurs.
pub proof fn lemma_ladder_index(percent: u32, i: int)
    requires
        0 <= i < 12,
        ladder()[i] == percent,
    ensures
        ladder().index_of(percent) == i,
{
    let j = ladder().index_of(percent);
    assert(ladder().contains(percent));
    assert(ladder()[j] == percent);
    assert(0 <= j < 12);
}

/// Set the primary display scale to a ladder step, verified by read-back.
/// Nothing is written when the display is already at `percent`.
pub fn set_scale(percent: u32) -> (r: (ScaleWrite, ScaleStep))
    ensures
        r == (ScaleWrite::Initial { percent }, ScaleStep::Ask(ScaleRequest::ReadScale)),
{
    (ScaleWrite::Initial { percent }, ScaleStep::Ask(ScaleRequest::ReadScale))
}

/// The ladder never falls.
pub proof fn lemma_ladder_rises(i: int, j: int)
    requires
        0 <= i <= j < 12,
    ensures
        ladder()[i] <= ladder()[j],
{
}

/// A range whose bottom step is not above its top step reports min% <= max%.
pub proof fn law_scale_range_ordered(range: ScaleRange)
    requires
        range.min_rel <= range.max_rel,
    ensures
        spec_step_at(range, range.min_rel) <= spec_step_at(range, range.max_rel),
{
    lemma_ladder_rises(
        clamp_index(range.recommended_idx + range.min_rel),
        clamp_index(range.recommended_idx + range.max_rel),
    );
}

} // verus!
