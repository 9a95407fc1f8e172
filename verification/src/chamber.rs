//! Decisions of the control-center shell: what the UI shows, how rules read in
//! it, how a rule entered in it becomes a rule, and what a manual profile
//! switch pins.

use vstd::prelude::*;
use vstd::string::StringExecFns;
use crate::model::{DisplayState, Mode};
use crate::rules::{PowerSource, Restore, Rule, Trigger};
use crate::text::{chars_of, lower_chars, lower_seq, str_eq, string_from_chars};

verus! {

/// The UI text of a trigger.
pub open spec fn trigger_words(t: Trigger) -> Seq<char> {
    match t {
        Trigger::Foreground(app) => "when "@ + app@ + " is focused"@,
        Trigger::Running(app) => "while "@ + app@ + " runs"@,
        Trigger::Power(PowerSource::Battery) => "on battery"@,
        Trigger::Power(PowerSource::Ac) => "on AC power"@,
    }
}

/// How a trigger reads in the UI, e.g. "when photoshop.exe is focused".
pub fn trigger_text(t: &Trigger) -> (s: String)
    ensures
        s@ == trigger_words(*t),
{
    match t {
        Trigger::Foreground(app) => {
            let mut s = String::from_str("when ");
            s.append(app.as_str());
            s.append(" is focused");
            s
        },
        Trigger::Running(app) => {
            let mut s = String::from_str("while ");
            s.append(app.as_str());
            s.append(" runs");
            s
        },
        Trigger::Power(PowerSource::Battery) => String::from_str("on battery"),
        Trigger::Power(PowerSource::Ac) => String::from_str("on AC power"),
    }
}

/// Unicode white space (the `White_Space` property, as `char::is_whitespace`).
pub open spec fn is_space(c: char) -> bool {
    ('\u{9}' <= c && c <= '\u{D}') || c == ' ' || c == '\u{85}' || c == '\u{A0}' || c == '\u{1680}'
        || ('\u{2000}' <= c && c <= '\u{200A}') || c == '\u{2028}' || c == '\u{2029}' || c == '\u{202F}'
        || c == '\u{205F}' || c == '\u{3000}'
}

fn space(c: char) -> (r: bool)
    ensures
        r == is_space(c),
{
    ('\u{9}' <= c && c <= '\u{D}') || c == ' ' || c == '\u{85}' || c == '\u{A0}' || c == '\u{1680}'
        || ('\u{2000}' <= c && c <= '\u{200A}') || c == '\u{2028}' || c == '\u{2029}' || c == '\u{202F}'
        || c == '\u{205F}' || c == '\u{3000}'
}

/// `s[a..b]` is `s` without leading and trailing white space (`str::trim`).
pub open spec fn trimmed_at(s: Seq<char>, a: int, b: int) -> bool {
    &&& 0 <= a <= b <= s.len()
    &&& forall|i: int| 0 <= i < a ==> is_space(#[trigger] s[i])
    &&& forall|i: int| b <= i < s.len() ==> is_space(#[trigger] s[i])
    &&& a < b ==> !is_space(s[a]) && !is_space(s[b - 1])
}

/// `s` without leading and trailing white space.
pub open spec fn trim(s: Seq<char>) -> Seq<char> {
    let (a, b) = choose|a: int, b: int| trimmed_at(s, a, b);
    s.subrange(a, b)
}

/// Any two trimmings of a string agree.
pub proof fn lemma_trimmed_unique(s: Seq<char>, a: int, b: int, a2: int, b2: int)
    requires
        trimmed_at(s, a, b),
        trimmed_at(s, a2, b2),
    ensures
        s.subrange(a, b) == s.subrange(a2, b2),
{
    if a < b {
        assert(!is_space(s[a]));
        if a2 < b2 {
            assert(!is_space(s[a2]));
            assert(!is_space(s[b2 - 1]));
            assert(a == a2) by {
                if a < a2 {
                    assert(is_space(s[a]));
                } else if a2 < a {
                    assert(is_space(s[a2]));
                }
            }
            assert(b == b2) by {
                if b < b2 {
                    assert(is_space(s[b2 - 1]));
                } else if b2 < b {
                    assert(is_space(s[b - 1]));
                }
            }
        } else {
            if a < a2 {
                assert(is_space(s[a]));
            } else {
                assert(is_space(s[a]));
            }
        }
    } else if a2 < b2 {
        assert(!is_space(s[a2]));
        if a2 < a {
            assert(is_space(s[a2]));
        } else {
            assert(is_space(s[a2]));
        }
    } else {
        assert(s.subrange(a, b) =~= s.subrange(a2, b2));
    }
}

/// `str::trim`, on characters.
pub fn trim_chars(cs: &Vec<char>) -> (r: Vec<char>)
    ensures
        r@ == trim(cs@),
{
    let mut a: usize = 0;
    while a < cs.len() && space(cs[a])
        invariant
            a <= cs.len(),
            forall|i: int| 0 <= i < a ==> is_space(#[trigger] cs@[i]),
        decreases cs.len() - a,
    {
        a = a + 1;
    }
    let mut b: usize = cs.len();
    while b > a && space(cs[b - 1])
        invariant
            a <= b <= cs.len(),
            forall|i: int| b <= i < cs.len() ==> is_space(#[trigger] cs@[i]),
        decreases b - a,
    {
        b = b - 1;
    }
    let mut r: Vec<char> = Vec::new();
    let mut i: usize = a;
    while i < b
        invariant
            a <= i <= b,
            b <= cs.len(),
            r@ == cs@.subrange(a as int, i as int),
        decreases b - i,
    {
        r.push(cs[i]);
        assert(cs@.subrange(a as int, i + 1) =~= cs@.subrange(a as int, i as int).push(cs@[i as int]));
        i = i + 1;
    }
    assert(trimmed_at(cs@, a as int, b as int));
    proof {
        let (a2, b2) = choose|a2: int, b2: int| trimmed_at(cs@, a2, b2);
        lemma_trimmed_unique(cs@, a as int, b as int, a2, b2);
    }
    r
}

/// The outcome of turning UI input into a rule.
pub open spec fn rule_outcome(name: Seq<char>, kind: Seq<char>, value: Seq<char>) -> Option<Seq<char>> {
    if kind != "foreground"@ && kind != "running"@ && kind != "power"@ {
        Some("unknown trigger kind '"@ + kind + "'"@)
    } else if kind == "power"@ && value != "battery"@ && value != "ac"@ {
        Some("power trigger must be 'ac' or 'battery', got '"@ + value + "'"@)
    } else if trim(name).len() == 0 {
        Some("rule name cannot be empty"@)
    } else {
        None
    }
}

/// A rule entered in the UI: `kind` is "foreground", "running" or "power";
/// `value` is an image name (trimmed and lower-cased) or "ac" / "battery".
/// The rule name is trimmed and must not be empty; the rule restores on exit.
pub fn rule_from_input(name: &str, kind: &str, value: &str, profile: String, priority: i32) -> (r: Result<Rule, String>)
    ensures
        match rule_outcome(name@, kind@, value@) {
            Some(msg) => r matches Err(e) && e@ == msg,
            None => r matches Ok(rule) && {
                &&& rule.name@ == trim(name@)
                &&& rule.profile == profile
                &&& rule.priority == priority
                &&& rule.restore == Restore::OnExit
                &&& if kind@ == "power"@ {
                    rule.trigger == Trigger::Power(if value@ == "battery"@ { PowerSource::Battery } else { PowerSource::Ac })
                } else if kind@ == "foreground"@ {
                    rule.trigger matches Trigger::Foreground(app) && app@ == lower_seq(trim(value@))
                } else {
                    rule.trigger matches Trigger::Running(app) && app@ == lower_seq(trim(value@))
                }
            },
        },
{
    proof {
        reveal_strlit("foreground");
        reveal_strlit("running");
        reveal_strlit("power");
        reveal_strlit("battery");
        reveal_strlit("ac");
    }
    let is_fg = str_eq(kind, "foreground");
    let is_run = str_eq(kind, "running");
    let is_power = str_eq(kind, "power");
    if !(is_fg || is_run || is_power) {
        let mut e = String::from_str("unknown trigger kind '");
        e.append(kind);
        e.append("'");
        return Err(e);
    }
    let is_battery = str_eq(value, "battery");
    let is_ac = str_eq(value, "ac");
    if is_power && !(is_battery || is_ac) {
        let mut e = String::from_str("power trigger must be 'ac' or 'battery', got '");
        e.append(value);
        e.append("'");
        return Err(e);
    }
    let n = chars_of(name);
    let tn = trim_chars(&n);
    if tn.len() == 0 {
        return Err(String::from_str("rule name cannot be empty"));
    }
    let trigger = if is_power {
        if is_battery {
            Trigger::Power(PowerSource::Battery)
        } else {
            Trigger::Power(PowerSource::Ac)
        }
    } else {
        let v = chars_of(value);
        let t = trim_chars(&v);
        let l = lower_chars(&t);
        let app = string_from_chars(&l);
        if is_fg {
            Trigger::Foreground(app)
        } else {
            Trigger::Running(app)
        }
    };
    Ok(Rule {
        name: string_from_chars(&tn),
        trigger,
        profile,
        priority,
        restore: Restore::OnExit,
    })
}

/// The text of an optional string.
pub open spec fn text_of(o: Option<String>) -> Option<Seq<char>> {
    match o {
        Some(s) => Some(s@),
        None => None,
    }
}

fn copy_text(o: &Option<String>) -> (r: Option<String>)
    ensures
        text_of(r) == text_of(*o),
{
    match o {
        Some(s) => Some(s.clone()),
        None => None,
    }
}

/// What a manual switch to a profile leaves behind.
#[derive(Clone, Debug)]
pub struct PinOutcome {
    /// The profile the user pinned, which automation then leaves alone.
    pub pin: Option<String>,
    /// Why the current state is active, as the UI shows it.
    pub cause: Option<String>,
    /// The switch is confirmed at once.
    pub confirm_now: bool,
    /// Seconds of the confirm countdown to start.
    pub countdown: Option<u32>,
}

/// After a manual switch to profile `name`: a native profile clears the pin and
/// is confirmed at once; any other is pinned with cause "pinned", and the
/// countdown starts exactly when a revert is pending.
pub fn after_profile_switch(name: &str, is_native: bool, guard_pending: bool, timeout_s: u32) -> (r: PinOutcome)
    ensures
        is_native ==> text_of(r.pin) is None && text_of(r.cause) is None && r.confirm_now && r.countdown is None,
        !is_native ==> text_of(r.pin) == Some(name@) && text_of(r.cause) == Some("pinned"@) && !r.confirm_now
            && r.countdown == (if guard_pending { Some(timeout_s) } else { None::<u32> }),
{
    if is_native {
        PinOutcome { pin: None, cause: None, confirm_now: true, countdown: None }
    } else {
        PinOutcome {
            pin: Some(String::from_str(name)),
            cause: Some(String::from_str("pinned")),
            confirm_now: false,
            countdown: if guard_pending { Some(timeout_s) } else { None },
        }
    }
}

/// A cause set by an automation rule reads "rule: ...".
pub open spec fn is_rule_cause(c: Seq<char>) -> bool {
    "rule:"@.is_prefix_of(c)
}

fn rule_cause(c: &str) -> (r: bool)
    ensures
        r == is_rule_cause(c@),
{
    proof {
        reveal_strlit("rule:");
    }
    let cs = chars_of(c);
    let p = chars_of("rule:");
    if cs.len() < p.len() {
        return false;
    }
    let mut i: usize = 0;
    while i < p.len()
        invariant
            p@ == "rule:"@,
            cs@ == c@,
            p.len() <= cs.len(),
            i <= p.len(),
            forall|j: int| 0 <= j < i ==> cs@[j] == p@[j],
        decreases p.len() - i,
    {
        if cs[i] != p[i] {
            return false;
        }
        i = i + 1;
    }
    assert(cs@.take(p.len() as int) =~= p@);
    true
}

/// How a profile reads in the UI.
#[derive(Clone, Debug)]
pub struct ProfileView {
    pub name: String,
    /// The profile resolves on this display.
    pub available: bool,
    /// The profile resolves to the current mode.
    pub active: bool,
    pub mode: Option<Mode>,
    pub scale: Option<u32>,
}

/// `v` shows profile `name`, which resolved to `target` (`None`: it did not),
/// while the display is in mode `current`.
pub open spec fn shows_profile(v: ProfileView, name: Seq<char>, target: Option<DisplayState>, current: Mode) -> bool {
    &&& v.name@ == name
    &&& v.available == target is Some
    &&& v.active == (target matches Some(t) && t.mode == current)
    &&& v.mode == (match target {
        Some(t) => Some(t.mode),
        None => None::<Mode>,
    })
    &&& v.scale == (match target {
        Some(t) => Some(t.scale),
        None => None::<u32>,
    })
}

/// How a rule reads in the UI.
#[derive(Clone, Debug)]
pub struct RuleView {
    pub name: String,
    pub trigger: String,
    pub profile: String,
    pub priority: i32,
    /// This rule is the one driving the display.
    pub active: bool,
}

/// `v` shows `rule`, given the profile automation holds active and the cause
/// of the current state: a rule is active when its profile is the active one
/// and a rule caused it.
pub open spec fn shows_rule(v: RuleView, rule: Rule, active_profile: Option<Seq<char>>, cause: Option<Seq<char>>) -> bool {
    &&& v.name@ == rule.name@
    &&& v.trigger@ == trigger_words(rule.trigger)
    &&& v.profile@ == rule.profile@
    &&& v.priority == rule.priority
    &&& v.active == (active_profile == Some(rule.profile@) && (cause matches Some(c) && is_rule_cause(c)))
}

/// What the UI shows of the display, the profiles and the automation.
#[derive(Debug)]
pub struct Snapshot {
    pub mode: Mode,
    pub scale: u32,
    pub native: (u32, u32),
    /// The current mode is larger than the panel in some dimension.
    pub super_res: bool,
    pub guard_pending: bool,
    /// The display adapter's name.
    pub adapter: String,
    /// The monitor's name.
    pub monitor: String,
    pub confirm_timeout: u32,
    pub profiles: Vec<ProfileView>,
    pub automation_enabled: bool,
    /// Why the current state is active, e.g. "pinned" or "rule: ...".
    pub active_cause: Option<String>,
    pub pinned: Option<String>,
    pub rules: Vec<RuleView>,
}

/// The snapshot the UI renders, from the current state, the panel's native
/// resolution, the adapter and monitor names, each profile with what it
/// resolved to, the rules, and the session's pin and cause.
pub fn snapshot(
    state: DisplayState,
    native: (u32, u32),
    guard_pending: bool,
    adapter: String,
    monitor: String,
    confirm_timeout: u32,
    profiles: &Vec<(String, Option<DisplayState>)>,
    rules: &Vec<Rule>,
    automation_enabled: bool,
    active_profile: &Option<String>,
    cause: &Option<String>,
    pin: &Option<String>,
) -> (s: Snapshot)
    ensures
        s.mode == state.mode,
        s.scale == state.scale,
        s.native == native,
        s.super_res == (state.mode.width > native.0 || state.mode.height > native.1),
        s.guard_pending == guard_pending,
        s.adapter == adapter,
        s.monitor == monitor,
        s.confirm_timeout == confirm_timeout,
        s.automation_enabled == automation_enabled,
        text_of(s.active_cause) == text_of(*cause),
        text_of(s.pinned) == text_of(*pin),
        s.profiles.len() == profiles.len(),
        forall|i: int|
            0 <= i < profiles.len() ==> shows_profile(
                #[trigger] s.profiles@[i],
                profiles@[i].0@,
                profiles@[i].1,
                state.mode,
            ),
        s.rules.len() == rules.len(),
        forall|i: int|
            0 <= i < rules.len() ==> shows_rule(#[trigger] s.rules@[i], rules@[i], text_of(*active_profile), text_of(*cause)),
{
    let mut pviews: Vec<ProfileView> = Vec::new();
    let mut i: usize = 0;
    while i < profiles.len()
        invariant
            i <= profiles.len(),
            pviews.len() == i,
            forall|j: int|
                0 <= j < i ==> shows_profile(#[trigger] pviews@[j], profiles@[j].0@, profiles@[j].1, state.mode),
        decreases profiles.len() - i,
    {
        let target = profiles[i].1;
        let v = match target {
            Some(t) => ProfileView {
                name: profiles[i].0.clone(),
                available: true,
                active: t.mode == state.mode,
                mode: Some(t.mode),
                scale: Some(t.scale),
            },
            None => ProfileView { name: profiles[i].0.clone(), available: false, active: false, mode: None, scale: None },
        };
        pviews.push(v);
        i = i + 1;
    }
    let by_rule = match cause {
        Some(c) => rule_cause(c.as_str()),
        None => false,
    };
    let mut rviews: Vec<RuleView> = Vec::new();
    let mut k: usize = 0;
    while k < rules.len()
        invariant
            k <= rules.len(),
            rviews.len() == k,
            by_rule == (text_of(*cause) matches Some(c) && is_rule_cause(c)),
            forall|j: int|
                0 <= j < k ==> shows_rule(#[trigger] rviews@[j], rules@[j], text_of(*active_profile), text_of(*cause)),
        decreases rules.len() - k,
    {
        let r = &rules[k];
        let holds = match active_profile {
            Some(a) => str_eq(a.as_str(), r.profile.as_str()),
            None => false,
        };
        rviews.push(RuleView {
            name: r.name.clone(),
            trigger: trigger_text(&r.trigger),
            profile: r.profile.clone(),
            priority: r.priority,
            active: holds && by_rule,
        });
        k = k + 1;
    }
    Snapshot {
        mode: state.mode,
        scale: state.scale,
        native,
        super_res: state.mode.width > native.0 || state.mode.height > native.1,
        guard_pending,
        adapter,
        monitor,
        confirm_timeout,
        profiles: pviews,
        automation_enabled,
        active_cause: copy_text(cause),
        pinned: copy_text(pin),
        rules: rviews,
    }
}

/// Why a profile is active.
#[derive(Clone, Debug)]
pub enum Cause {
    /// The user pinned it.
    Pin,
    /// The named rule fired.
    Rule(String),
}

/// How a cause reads in the UI.
pub open spec fn cause_words(c: Cause) -> Seq<char> {
    match c {
        Cause::Pin => "pinned"@,
        Cause::Rule(name) => "rule: "@ + name@,
    }
}

/// The UI text of a cause: "pinned", or "rule: " and the rule's name.
pub fn cause_text(cause: &Cause) -> (s: String)
    ensures
        s@ == cause_words(*cause),
{
    match cause {
        Cause::Pin => String::from_str("pinned"),
        Cause::Rule(name) => {
            let mut s = String::from_str("rule: ");
            s.append(name.as_str());
            s
        },
    }
}

/// A profile that resolved to `target` shows the current mode `current`.
pub open spec fn shows_current(target: Option<Mode>, current: Option<Mode>) -> bool {
    target is Some && target == current
}

/// Profile `i` is the first that shows the current mode.
pub open spec fn first_showing(resolved: Seq<Option<Mode>>, current: Option<Mode>, i: int) -> bool {
    &&& 0 <= i < resolved.len()
    &&& shows_current(resolved[i], current)
    &&& forall|j: int| 0 <= j < i ==> !shows_current(#[trigger] resolved[j], current)
}

/// No profile shows the current mode.
pub open spec fn none_showing(resolved: Seq<Option<Mode>>, current: Option<Mode>) -> bool {
    forall|j: int| 0 <= j < resolved.len() ==> !shows_current(#[trigger] resolved[j], current)
}

/// The profile a cycle switches to, given what each profile resolved to
/// (`None`: it did not) and the current mode (`None`: unknown): the one after
/// the first profile showing the current mode, wrapping around, or the second
/// one when none shows it. There is nothing to cycle through without profiles.
pub fn next_profile_index(resolved: &Vec<Option<Mode>>, current: Option<Mode>) -> (r: Option<usize>)
    ensures
        resolved.len() == 0 ==> r is None,
        forall|i: int|
            first_showing(resolved@, current, i) ==> r == Some(((i + 1) % (resolved.len() as int)) as usize),
        resolved.len() > 0 && none_showing(resolved@, current) ==> r == Some((1int % (resolved.len() as int)) as usize),
{
    let n = resolved.len();
    if n == 0 {
        return None;
    }
    let mut i: usize = 0;
    while i < n
        invariant
            n == resolved.len(),
            i <= n,
            forall|j: int| 0 <= j < i ==> !shows_current(#[trigger] resolved@[j], current),
        decreases n - i,
    {
        let here = match (resolved[i], current) {
            (Some(m), Some(c)) => m == c,
            _ => false,
        };
        if here {
            assert(first_showing(resolved@, current, i as int));
            assert forall|k: int| first_showing(resolved@, current, k) implies k == i by {
                if k < i {
                    assert(!shows_current(resolved@[k], current));
                } else if k > i {
                    assert(!shows_current(resolved@[i as int], current));
                }
            }
            return Some((i + 1) % n);
        }
        i = i + 1;
    }
    assert forall|k: int| !first_showing(resolved@, current, k) by {
        if 0 <= k < n {
            assert(!shows_current(resolved@[k], current));
        }
    }
    Some(1 % n)
}

/// Cycling moves on: with two or more profiles, the next one differs from the
/// one that shows the current mode.
pub proof fn law_cycle_moves_on(resolved: Seq<Option<Mode>>, current: Option<Mode>, i: int)
    requires
        resolved.len() >= 2,
        first_showing(resolved, current, i),
    ensures
        (i + 1) % (resolved.len() as int) != i,
{
    let n = resolved.len() as int;
    if i + 1 < n {
        assert((i + 1) % n == i + 1) by (nonlinear_arith)
            requires
                0 <= i + 1 < n,
        ;
    } else {
        assert((i + 1) % n == 0) by (nonlinear_arith)
            requires
                i + 1 == n,
                n > 0,
        ;
    }
}

} // verus!
