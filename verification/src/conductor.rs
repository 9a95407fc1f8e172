//! The rules engine: observable system state, trigger matching and the
//! decision of which profile should be active.
//!
//! Rules are evaluated by priority (descending), then declaration order; the
//! first rule whose trigger matches wins. A manual pin beats every rule.

use vstd::prelude::*;
use crate::rules::{PowerSource, Rule, Trigger};
use crate::text::{chars_of, eq_ignore_ascii_case, eq_ignore_case, from_utf16_lossy, lower_chars_to_string, lower_seq, utf16_lossy};

verus! {

/// Snapshot of everything triggers can observe.
#[derive(Clone, Debug, Default, PartialEq, Eq)]
pub struct SystemState {
    /// Lower-cased image name of the foreground process, e.g. "photoshop.exe".
    pub foreground: Option<String>,
    /// Lower-cased image names of all running processes.
    pub running: Vec<String>,
    pub power: Option<PowerSource>,
    /// Profile pinned manually by the user (beats every rule).
    pub pinned_profile: Option<String>,
}

/// Does `trigger` fire for the observed `state`?
pub open spec fn fires(trigger: Trigger, state: SystemState) -> bool {
    match trigger {
        Trigger::Foreground(image) => match state.foreground {
            Some(fg) => eq_ignore_case(fg@, image@),
            None => false,
        },
        Trigger::Running(image) => exists|i: int|
            0 <= i < state.running.len() && eq_ignore_case(#[trigger] state.running@[i]@, image@),
        Trigger::Power(source) => state.power == Some(source),
    }
}

/// Rule `i` is evaluated before rule `j`: higher priority first, then
/// declaration order.
pub open spec fn evaluated_before(rules: Seq<Rule>, i: int, j: int) -> bool {
    rules[i].priority > rules[j].priority || (rules[i].priority == rules[j].priority && i < j)
}

/// Rule `i` fires and every other firing rule is evaluated after it.
pub open spec fn wins(rules: Seq<Rule>, state: SystemState, i: int) -> bool {
    &&& 0 <= i < rules.len()
    &&& fires(rules[i].trigger, state)
    &&& forall|j: int|
        0 <= j < rules.len() && j != i && #[trigger] fires(rules[j].trigger, state)
            ==> evaluated_before(rules, i, j)
}

/// Some rule fires.
pub open spec fn any_fires(rules: Seq<Rule>, state: SystemState) -> bool {
    exists|i: int| 0 <= i < rules.len() && #[trigger] fires(rules[i].trigger, state)
}

/// Does this trigger fire for the given observed state?
pub fn trigger_matches(trigger: &Trigger, state: &SystemState) -> (r: bool)
    ensures
        r == fires(*trigger, *state),
{
    match trigger {
        Trigger::Foreground(image) => match &state.foreground {
            Some(fg) => eq_ignore_ascii_case(fg.as_str(), image.as_str()),
            None => false,
        },
        Trigger::Running(image) => {
            let mut i: usize = 0;
            while i < state.running.len()
                invariant
                    *trigger == Trigger::Running(*image),
                    i <= state.running.len(),
                    forall|j: int| 0 <= j < i ==> !eq_ignore_case(#[trigger] state.running@[j]@, image@),
                decreases state.running.len() - i,
            {
                if eq_ignore_ascii_case(state.running[i].as_str(), image.as_str()) {
                    assert(eq_ignore_case(state.running@[i as int]@, image@));
                    return true;
                }
                i = i + 1;
            }
            false
        },
        Trigger::Power(source) => match state.power {
            Some(p) => p == *source,
            None => false,
        },
    }
}

/// The outcome of a decision pass.
#[derive(Clone, PartialEq, Eq, Debug)]
pub enum Decision<'a> {
    /// User pin wins; apply this profile name.
    Pinned(&'a str),
    /// This rule matched first.
    Rule(&'a Rule),
    /// Nothing matched: the baseline (usually native) applies.
    Baseline,
}

/// Resolve which profile should be active for the given state.
///
/// Deterministic: priority descending, then declaration order.
pub fn decide<'a>(rules: &'a [Rule], state: &'a SystemState) -> (d: Decision<'a>)
    ensures
        state.pinned_profile matches Some(p) ==> (d matches Decision::Pinned(s) && s@ == p@),
        state.pinned_profile is None && any_fires(rules@, *state) ==> exists|i: int|
            wins(rules@, *state, i) && d == Decision::Rule(&rules@[i]),
        state.pinned_profile is None && !any_fires(rules@, *state) ==> d is Baseline,
{
    match &state.pinned_profile {
        Some(p) => {
            return Decision::Pinned(p.as_str());
        },
        None => {},
    }
    let mut best: Option<usize> = None;
    let mut i: usize = 0;
    while i < rules.len()
        invariant
            i <= rules.len(),
            match best {
                None => forall|j: int| 0 <= j < i ==> !#[trigger] fires(rules@[j].trigger, *state),
                Some(b) => {
                    &&& b < i
                    &&& fires(rules@[b as int].trigger, *state)
                    &&& forall|j: int|
                        0 <= j < i && j != b && #[trigger] fires(rules@[j].trigger, *state)
                            ==> evaluated_before(rules@, b as int, j)
                },
            },
        decreases rules.len() - i,
    {
        if trigger_matches(&rules[i].trigger, state) {
            match best {
                None => {
                    best = Some(i);
                },
                Some(b) => {
                    if rules[i].priority > rules[b].priority {
                        best = Some(i);
                    }
                },
            }
        }
        i = i + 1;
    }
    match best {
        Some(b) => {
            assert(wins(rules@, *state, b as int));
            Decision::Rule(&rules[b])
        },
        None => Decision::Baseline,
    }
}

/// Trigger matching ignores ASCII case in image names: two triggers of the
/// same kind whose names differ only in case fire in the same states.
pub proof fn law_trigger_case_insensitive(a: String, b: String, state: SystemState)
    requires
        eq_ignore_case(a@, b@),
    ensures
        fires(Trigger::Foreground(a), state) == fires(Trigger::Foreground(b), state),
        fires(Trigger::Running(a), state) == fires(Trigger::Running(b), state),
{
    assert forall|i: int| 0 <= i < state.running.len()
        implies eq_ignore_case(#[trigger] state.running@[i]@, a@) == eq_ignore_case(state.running@[i]@, b@) by {
    }
}

/// Each trigger looks at its own part of the observed state only: a
/// foreground trigger fires exactly when the foreground process has its image
/// name (ignoring ASCII case), whatever else runs; a running trigger fires
/// exactly when some running process has it, whatever is in the foreground; a
/// power trigger fires exactly on its power source.
pub proof fn law_trigger_reads_its_own_signal(image: String, source: PowerSource, s: SystemState, t: SystemState)
    ensures
        fires(Trigger::Foreground(image), s) <==> (s.foreground matches Some(fg) && lower_seq(fg@) == lower_seq(image@)),
        fires(Trigger::Running(image), s) <==> (exists|i: int|
            0 <= i < s.running.len() && lower_seq(#[trigger] s.running@[i]@) == lower_seq(image@)),
        fires(Trigger::Power(source), s) <==> s.power == Some(source),
        s.foreground == t.foreground ==> (fires(Trigger::Foreground(image), s) <==> fires(Trigger::Foreground(image), t)),
        s.running == t.running ==> (fires(Trigger::Running(image), s) <==> fires(Trigger::Running(image), t)),
        s.power == t.power ==> (fires(Trigger::Power(source), s) <==> fires(Trigger::Power(source), t)),
{
}

/// A process that runs without owning the foreground window does not fire a
/// foreground trigger for its image name.
pub proof fn law_background_app_is_not_foreground(image: String, s: SystemState)
    requires
        s.foreground matches Some(fg) && lower_seq(fg@) != lower_seq(image@),
    ensures
        !fires(Trigger::Foreground(image), s),
{
}

/// The decision is deterministic: at most one rule wins, because evaluation
/// order (priority descending, then declaration order) is total.
pub proof fn law_single_winner(rules: Seq<Rule>, state: SystemState, i: int, j: int)
    requires
        wins(rules, state, i),
        wins(rules, state, j),
    ensures
        i == j,
{
    if i != j {
        assert(evaluated_before(rules, i, j));
        assert(evaluated_before(rules, j, i));
    }
}

/// Some rule wins whenever some rule fires.
pub proof fn law_some_rule_wins(rules: Seq<Rule>, state: SystemState)
    requires
        any_fires(rules, state),
    ensures
        exists|i: int| wins(rules, state, i),
    decreases rules.len(),
{
    let k = choose|k: int| 0 <= k < rules.len() && #[trigger] fires(rules[k].trigger, state);
    if k == rules.len() - 1 && !any_fires(rules.drop_last(), state) {
        assert forall|j: int| 0 <= j < rules.len() && j != k && #[trigger] fires(rules[j].trigger, state)
            implies evaluated_before(rules, k, j) by {
            assert(rules.drop_last()[j] == rules[j]);
        }
        assert(wins(rules, state, k));
    } else {
        let pre = rules.drop_last();
        if any_fires(pre, state) {
            law_some_rule_wins(pre, state);
            let w = choose|w: int| wins(pre, state, w);
            let last = rules.len() - 1;
            if fires(rules[last].trigger, state) && rules[last].priority > rules[w].priority {
                assert forall|j: int| 0 <= j < rules.len() && j != last && #[trigger] fires(rules[j].trigger, state)
                    implies evaluated_before(rules, last, j) by {
                    assert(pre[j] == rules[j]);
                    if j != w {
                        assert(fires(pre[j].trigger, state));
                        assert(evaluated_before(pre, w, j));
                    }
                }
                assert(wins(rules, state, last));
            } else {
                assert forall|j: int| 0 <= j < rules.len() && j != w && #[trigger] fires(rules[j].trigger, state)
                    implies evaluated_before(rules, w, j) by {
                    if j < last {
                        assert(pre[j] == rules[j]);
                        assert(fires(pre[j].trigger, state));
                    }
                }
                assert(pre[w] == rules[w]);
                assert(wins(rules, state, w));
            }
        } else {
            assert(k == rules.len() - 1) by {
                if k < rules.len() - 1 {
                    assert(pre[k] == rules[k]);
                    assert(fires(pre[k].trigger, state));
                }
            }
        }
    }
}

/// A path separator: backslash or slash.
pub open spec fn is_separator(c: char) -> bool {
    c == '\\' || c == '/'
}

/// The last path component of `s` starts at `k`: right after the last
/// separator, or at 0 when there is none.
pub open spec fn component_start(s: Seq<char>, k: int) -> bool {
    &&& 0 <= k <= s.len()
    &&& (k == 0 || is_separator(s[k - 1]))
    &&& forall|j: int| k <= j < s.len() ==> !is_separator(#[trigger] s[j])
}

/// Lower-cased last path component of a UTF-16 path (lossily decoded).
pub fn file_name_lower(path: &[u16]) -> (name: String)
    ensures
        exists|k: int| component_start(utf16_lossy(path@), k) && name@ == lower_seq(utf16_lossy(path@).skip(k)),
{
    let s = from_utf16_lossy(path);
    let cs = chars_of(s.as_str());
    let mut k: usize = cs.len();
    while k > 0 && !(cs[k - 1] == '\\' || cs[k - 1] == '/')
        invariant
            k <= cs.len(),
            forall|j: int| k <= j < cs.len() ==> !is_separator(#[trigger] cs@[j]),
        decreases k,
    {
        k = k - 1;
    }
    let mut tail: Vec<char> = Vec::new();
    let mut i: usize = k;
    while i < cs.len()
        invariant
            k <= i <= cs.len(),
            tail@ == cs@.subrange(k as int, i as int),
        decreases cs.len() - i,
    {
        tail.push(cs[i]);
        assert(cs@.subrange(k as int, i + 1) =~= cs@.subrange(k as int, i as int).push(cs@[i as int]));
        i = i + 1;
    }
    assert(tail@ =~= cs@.skip(k as int));
    assert(component_start(cs@, k as int));
    lower_chars_to_string(&tail)
}

/// Assemble the observable state from what was sampled. The process list is
/// only kept when some rule needs it (`needs_running`); otherwise it is empty.
pub fn sample(
    needs_running: bool,
    pinned: Option<String>,
    foreground: Option<String>,
    running: Vec<String>,
    power: Option<PowerSource>,
) -> (s: SystemState)
    ensures
        s.foreground == foreground,
        s.running@ == (if needs_running { running@ } else { Seq::<String>::empty() }),
        s.power == power,
        s.pinned_profile == pinned,
{
    SystemState {
        foreground,
        running: if needs_running { running } else { Vec::new() },
        power,
        pinned_profile: pinned,
    }
}

} // verus!
