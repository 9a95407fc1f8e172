//! Capability probe: everything Resonance needs to know about this machine.

use vstd::prelude::*;
use vstd::string::StringExecFns;
use crate::model::{mode_words, Mode};
use crate::text::{decimal, push_decimal};
use crate::vendor::{feature_words, hint_words, vendor_name, Vendor, vendor_of};

verus! {

/// What the probe found.
#[derive(Debug)]
pub struct Report {
    pub adapter: String,
    pub monitor: String,
    pub vendor: Vendor,
    pub nvapi_present: bool,
    pub native: (u32, u32),
    pub current: Mode,
    pub current_scale: u32,
    pub scale_range: (u32, u32),
    /// Distinct above-native resolutions (the super-resolution ladder), each
    /// with its highest refresh: (width, height, max hz).
    pub above_native: Vec<(u32, u32, u32)>,
}

/// A resolution larger than the native one in either dimension.
pub open spec fn exceeds(width: u32, height: u32, native: (u32, u32)) -> bool {
    width > native.0 || height > native.1
}

/// Mode `m` has resolution (w, h).
pub open spec fn has_res(m: Mode, w: u32, h: u32) -> bool {
    m.width == w && m.height == h
}

/// Entry `e` names resolution (w, h) of some mode, at the highest refresh any
/// mode of that resolution has.
pub open spec fn max_refresh_entry(modes: Seq<Mode>, e: (u32, u32, u32)) -> bool {
    &&& exists|i: int| 0 <= i < modes.len() && #[trigger] modes[i] == Mode { width: e.0, height: e.1, hz: e.2 }
    &&& forall|i: int| 0 <= i < modes.len() && #[trigger] has_res(modes[i], e.0, e.1) ==> modes[i].hz <= e.2
}

/// Resolution (w, h) occurs in `modes` before any mode of resolution (w2, h2).
pub open spec fn occurs_before(modes: Seq<Mode>, w: u32, h: u32, w2: u32, h2: u32) -> bool {
    exists|p: int| 0 <= p < modes.len() && #[trigger] has_res(modes[p], w, h)
        && forall|q: int| 0 <= q <= p ==> !#[trigger] has_res(modes[q], w2, h2)
}

/// `l` is the super-resolution ladder of `modes`: the distinct above-native
/// resolutions, in order of first appearance, each at its highest refresh.
pub open spec fn is_ladder(modes: Seq<Mode>, native: (u32, u32), l: Seq<(u32, u32, u32)>) -> bool {
    &&& forall|i: int| 0 <= i < l.len() ==> #[trigger] ladder_entry(modes, native, l[i])
    &&& forall|i: int, j: int| 0 <= i < j < l.len() ==> !(l[i].0 == l[j].0 && l[i].1 == l[j].1)
        && occurs_before(modes, #[trigger] l[i].0, l[i].1, #[trigger] l[j].0, l[j].1)
    &&& forall|k: int| 0 <= k < modes.len() && exceeds(modes[k].width, modes[k].height, native)
        ==> covered(l, #[trigger] modes[k])
}

/// `e` is an above-native resolution at its highest refresh.
pub open spec fn ladder_entry(modes: Seq<Mode>, native: (u32, u32), e: (u32, u32, u32)) -> bool {
    exceeds(e.0, e.1, native) && max_refresh_entry(modes, e)
}

/// Some entry of `l` has the resolution of `m`.
pub open spec fn covered(l: Seq<(u32, u32, u32)>, m: Mode) -> bool {
    exists|i: int| 0 <= i < l.len() && #[trigger] has_res(m, l[i].0, l[i].1)
}

proof fn lemma_max_entry_keeps(pre: Seq<Mode>, m: Mode, e: (u32, u32, u32))
    requires
        max_refresh_entry(pre, e),
        !has_res(m, e.0, e.1),
    ensures
        max_refresh_entry(pre.push(m), e),
{
    let post = pre.push(m);
    let i = choose|i: int| 0 <= i < pre.len() && #[trigger] pre[i] == Mode { width: e.0, height: e.1, hz: e.2 };
    assert(post[i] == pre[i]);
    assert forall|t: int| 0 <= t < post.len() && #[trigger] has_res(post[t], e.0, e.1) implies post[t].hz <= e.2 by {
        if t < pre.len() {
            assert(post[t] == pre[t]);
        }
    }
}

proof fn lemma_before_keeps(pre: Seq<Mode>, m: Mode, w: u32, h: u32, w2: u32, h2: u32)
    requires
        occurs_before(pre, w, h, w2, h2),
    ensures
        occurs_before(pre.push(m), w, h, w2, h2),
{
    let post = pre.push(m);
    let p = choose|p: int| 0 <= p < pre.len() && #[trigger] has_res(pre[p], w, h)
        && forall|q: int| 0 <= q <= p ==> !#[trigger] has_res(pre[q], w2, h2);
    assert(post[p] == pre[p]);
    assert forall|q: int| 0 <= q <= p implies !#[trigger] has_res(post[q], w2, h2) by {
        assert(post[q] == pre[q]);
    }
}

/// A mode that is not above native leaves the ladder as it is.
proof fn lemma_ladder_skip(pre: Seq<Mode>, native: (u32, u32), l: Seq<(u32, u32, u32)>, m: Mode)
    requires
        is_ladder(pre, native, l),
        !exceeds(m.width, m.height, native),
    ensures
        is_ladder(pre.push(m), native, l),
{
    let post = pre.push(m);
    assert forall|i: int| 0 <= i < l.len() implies #[trigger] ladder_entry(post, native, l[i]) by {
        assert(ladder_entry(pre, native, l[i]));
        assert(!has_res(m, l[i].0, l[i].1));
        lemma_max_entry_keeps(pre, m, l[i]);
    }
    assert forall|i: int, j: int| 0 <= i < j < l.len() implies !(l[i].0 == l[j].0 && l[i].1 == l[j].1)
        && occurs_before(post, #[trigger] l[i].0, l[i].1, #[trigger] l[j].0, l[j].1) by {
        lemma_before_keeps(pre, m, l[i].0, l[i].1, l[j].0, l[j].1);
    }
    assert forall|k: int| 0 <= k < post.len() && exceeds(post[k].width, post[k].height, native)
        implies covered(l, #[trigger] post[k]) by {
        if k < pre.len() {
            assert(post[k] == pre[k]);
        } else {
            assert(post[k] == m);
        }
    }
}

/// A mode of a resolution already on the ladder raises that entry's refresh.
proof fn lemma_ladder_raise(pre: Seq<Mode>, native: (u32, u32), l: Seq<(u32, u32, u32)>, m: Mode, j: int)
    requires
        is_ladder(pre, native, l),
        0 <= j < l.len(),
        has_res(m, l[j].0, l[j].1),
    ensures
        is_ladder(pre.push(m), native, l.update(j, (l[j].0, l[j].1, if m.hz > l[j].2 { m.hz } else { l[j].2 }))),
{
    let post = pre.push(m);
    let e = l[j];
    let ne = (e.0, e.1, if m.hz > e.2 { m.hz } else { e.2 });
    let l2 = l.update(j, ne);
    assert(ladder_entry(pre, native, e));
    assert(max_refresh_entry(post, ne)) by {
        if m.hz > e.2 {
            assert(post[pre.len() as int] == m);
        } else {
            let i = choose|i: int| 0 <= i < pre.len() && #[trigger] pre[i] == Mode { width: e.0, height: e.1, hz: e.2 };
            assert(post[i] == pre[i]);
        }
        assert forall|t: int| 0 <= t < post.len() && #[trigger] has_res(post[t], ne.0, ne.1) implies post[t].hz <= ne.2 by {
            if t < pre.len() {
                assert(post[t] == pre[t]);
                assert(has_res(pre[t], e.0, e.1));
            }
        }
    }
    assert forall|i: int| 0 <= i < l2.len() implies #[trigger] ladder_entry(post, native, l2[i]) by {
        if i == j {
            assert(l2[i] == ne);
            assert(ladder_entry(pre, native, l[j]));
        } else {
            assert(l2[i] == l[i]);
            assert(ladder_entry(pre, native, l[i]));
            if i < j {
                assert(!(l[i].0 == l[j].0 && l[i].1 == l[j].1));
            } else {
                assert(!(l[j].0 == l[i].0 && l[j].1 == l[i].1));
            }
            lemma_max_entry_keeps(pre, m, l[i]);
        }
    }
    assert forall|a: int, b: int| 0 <= a < b < l2.len() implies !(l2[a].0 == l2[b].0 && l2[a].1 == l2[b].1)
        && occurs_before(post, #[trigger] l2[a].0, l2[a].1, #[trigger] l2[b].0, l2[b].1) by {
        assert(l2[a].0 == l[a].0 && l2[a].1 == l[a].1);
        assert(l2[b].0 == l[b].0 && l2[b].1 == l[b].1);
        assert(occurs_before(pre, l[a].0, l[a].1, l[b].0, l[b].1));
        lemma_before_keeps(pre, m, l[a].0, l[a].1, l[b].0, l[b].1);
    }
    assert forall|k: int| 0 <= k < post.len() && exceeds(post[k].width, post[k].height, native)
        implies covered(l2, #[trigger] post[k]) by {
        if k < pre.len() {
            assert(post[k] == pre[k]);
            assert(covered(l, pre[k]));
            let i = choose|i: int| 0 <= i < l.len() && #[trigger] has_res(pre[k], l[i].0, l[i].1);
            assert(has_res(post[k], l2[i].0, l2[i].1));
        } else {
            assert(post[k] == m);
            assert(has_res(post[k], l2[j].0, l2[j].1));
        }
    }
}

/// A mode of a new above-native resolution joins the ladder at its end.
proof fn lemma_ladder_join(pre: Seq<Mode>, native: (u32, u32), l: Seq<(u32, u32, u32)>, m: Mode)
    requires
        is_ladder(pre, native, l),
        exceeds(m.width, m.height, native),
        forall|t: int| 0 <= t < l.len() ==> !#[trigger] has_res(m, l[t].0, l[t].1),
    ensures
        is_ladder(pre.push(m), native, l.push((m.width, m.height, m.hz))),
{
    let post = pre.push(m);
    let ne = (m.width, m.height, m.hz);
    let l2 = l.push(ne);
    // no earlier mode has the new resolution: it would be covered
    assert forall|q: int| 0 <= q < pre.len() implies !#[trigger] has_res(pre[q], m.width, m.height) by {
        if has_res(pre[q], m.width, m.height) {
            assert(covered(l, pre[q]));
            let i = choose|i: int| 0 <= i < l.len() && #[trigger] has_res(pre[q], l[i].0, l[i].1);
            assert(has_res(m, l[i].0, l[i].1));
        }
    }
    assert(max_refresh_entry(post, ne)) by {
        assert(post[pre.len() as int] == m);
        assert forall|t: int| 0 <= t < post.len() && #[trigger] has_res(post[t], ne.0, ne.1) implies post[t].hz <= ne.2 by {
            if t < pre.len() {
                assert(post[t] == pre[t]);
            }
        }
    }
    assert forall|i: int| 0 <= i < l2.len() implies #[trigger] ladder_entry(post, native, l2[i]) by {
        if i < l.len() {
            assert(l2[i] == l[i]);
            assert(!has_res(m, l[i].0, l[i].1));
            assert(ladder_entry(pre, native, l[i]));
            lemma_max_entry_keeps(pre, m, l[i]);
        }
    }
    assert forall|a: int, b: int| 0 <= a < b < l2.len() implies !(l2[a].0 == l2[b].0 && l2[a].1 == l2[b].1)
        && occurs_before(post, #[trigger] l2[a].0, l2[a].1, #[trigger] l2[b].0, l2[b].1) by {
        assert(l2[a] == l[a]);
        if b < l.len() {
            assert(l2[b] == l[b]);
            lemma_before_keeps(pre, m, l[a].0, l[a].1, l[b].0, l[b].1);
        } else {
            assert(!has_res(m, l[a].0, l[a].1));
            assert(ladder_entry(pre, native, l[a]));
            let p = choose|p: int| 0 <= p < pre.len() && #[trigger] pre[p] == Mode { width: l[a].0, height: l[a].1, hz: l[a].2 };
            assert(post[p] == pre[p]);
            assert(has_res(post[p], l[a].0, l[a].1));
            assert forall|q: int| 0 <= q <= p implies !#[trigger] has_res(post[q], m.width, m.height) by {
                assert(post[q] == pre[q]);
            }
        }
    }
    assert forall|k: int| 0 <= k < post.len() && exceeds(post[k].width, post[k].height, native)
        implies covered(l2, #[trigger] post[k]) by {
        if k < pre.len() {
            assert(post[k] == pre[k]);
            assert(covered(l, pre[k]));
            let i = choose|i: int| 0 <= i < l.len() && #[trigger] has_res(pre[k], l[i].0, l[i].1);
            assert(has_res(post[k], l2[i].0, l2[i].1));
        } else {
            assert(post[k] == m);
            assert(has_res(post[k], l2[l.len() as int].0, l2[l.len() as int].1));
        }
    }
}

/// The distinct above-native resolutions of `modes` with their highest refresh,
/// in order of first appearance.
pub fn above_native(modes: &Vec<Mode>, native: (u32, u32)) -> (l: Vec<(u32, u32, u32)>)
    ensures
        is_ladder(modes@, native, l@),
{
    let mut above: Vec<(u32, u32, u32)> = Vec::new();
    let mut k: usize = 0;
    while k < modes.len()
        invariant
            k <= modes.len(),
            is_ladder(modes@.take(k as int), native, above@),
        decreases modes.len() - k,
    {
        let m = modes[k];
        let ghost pre = modes@.take(k as int);
        assert(modes@.take(k + 1) =~= pre.push(m));
        if m.width > native.0 || m.height > native.1 {
            let mut j: usize = 0;
            while j < above.len() && !(above[j].0 == m.width && above[j].1 == m.height)
                invariant
                    j <= above.len(),
                    forall|t: int| 0 <= t < j ==> !#[trigger] has_res(m, above@[t].0, above@[t].1),
                decreases above.len() - j,
            {
                j = j + 1;
            }
            if j < above.len() {
                let e = above[j];
                let hz = if m.hz > e.2 { m.hz } else { e.2 };
                proof {
                    lemma_ladder_raise(pre, native, above@, m, j as int);
                }
                above.set(j, (e.0, e.1, hz));
            } else {
                proof {
                    lemma_ladder_join(pre, native, above@, m);
                }
                above.push((m.width, m.height, m.hz));
            }
        } else {
            proof {
                lemma_ladder_skip(pre, native, above@, m);
            }
        }
        k = k + 1;
    }
    assert(modes@.take(modes.len() as int) =~= modes@);
    above
}

/// Assemble the capability report from what was probed: adapter and monitor
/// names, whether the NVIDIA driver API loaded (asked only of NVIDIA adapters),
/// the native resolution, the current mode and scale, the supported scale range
/// and the driver's mode catalogue.
pub fn run(
    adapter: String,
    monitor: String,
    nvapi_loaded: bool,
    native: (u32, u32),
    current: Mode,
    current_scale: u32,
    scale_range: (u32, u32),
    modes: &Vec<Mode>,
) -> (r: Report)
    ensures
        r.adapter == adapter,
        r.monitor == monitor,
        r.vendor == vendor_of(adapter@),
        r.nvapi_present == (r.vendor == Vendor::Nvidia && nvapi_loaded),
        r.native == native,
        r.current == current,
        r.current_scale == current_scale,
        r.scale_range == scale_range,
        is_ladder(modes@, native, r.above_native@),
{
    let vendor = Vendor::detect(adapter.as_str());
    let nvapi_present = match vendor {
        Vendor::Nvidia => nvapi_loaded,
        _ => false,
    };
    let above = above_native(modes, native);
    Report {
        adapter,
        monitor,
        vendor,
        nvapi_present,
        native,
        current,
        current_scale,
        scale_range,
        above_native: above,
    }
}

/// The report's text up to its list of above-native modes: the adapter,
/// monitor, current mode, scale range and the super-resolution heading, or
/// how to enable super-resolution when there is nothing to list.
pub open spec fn report_head(r: Report) -> Seq<char> {
    "adapter : "@ + r.adapter@ + " ["@ + vendor_name(r.vendor) + (if r.nvapi_present {
        " · NVAPI present"@
    } else {
        ""@
    }) + "]\n"@ + "monitor : "@ + r.monitor@ + " (native "@ + decimal(r.native.0 as nat) + "x"@ + decimal(
        r.native.1 as nat,
    ) + ")\n"@ + "current : "@ + mode_words(r.current) + " @ "@ + decimal(r.current_scale as nat) + "% scale\n"@
        + "scale   : "@ + decimal(r.scale_range.0 as nat) + "%.."@ + decimal(r.scale_range.1 as nat) + "%\n"@
        + if r.above_native.len() == 0 {
        "super-resolution: none available — no above-native modes exposed\n"@ + "  enable "@ + feature_words(r.vendor)
            + ":\n"@ + "  "@ + hint_words(r.vendor) + "\n"@
    } else {
        "super-resolution: "@ + decimal(r.above_native.len() as nat) + " above-native mode(s) ready:\n"@
    }
}

/// The line of one above-native mode, before its linear ratio.
pub open spec fn ladder_line_head(e: (u32, u32, u32)) -> Seq<char> {
    "  "@ + decimal(e.0 as nat) + "x"@ + decimal(e.1 as nat) + " up to "@ + decimal(e.2 as nat) + "Hz"@
}

/// `s` ends with `t`.
pub open spec fn ends_with(s: Seq<char>, t: Seq<char>) -> bool {
    t.len() <= s.len() && s.subrange(s.len() - t.len(), s.len() as int) == t
}

/// The report's text ends with the count of above-native modes when there
/// are any, and with how to enable super-resolution on this vendor when
/// there are none.
pub proof fn law_report_head_ends_with_the_ladder_count(r: Report)
    ensures
        r.above_native.len() > 0 ==> ends_with(
            report_head(r),
            "super-resolution: "@ + decimal(r.above_native.len() as nat) + " above-native mode(s) ready:\n"@,
        ),
        r.above_native.len() == 0 ==> ends_with(
            report_head(r),
            "super-resolution: none available — no above-native modes exposed\n  enable "@ + feature_words(r.vendor)
                + ":\n  "@ + hint_words(r.vendor) + "\n"@,
        ),
{
    let h = report_head(r);
    if r.above_native.len() > 0 {
        let t = "super-resolution: "@ + decimal(r.above_native.len() as nat) + " above-native mode(s) ready:\n"@;
        assert(h.subrange(h.len() - t.len(), h.len() as int) =~= t);
    } else {
        let t = "super-resolution: none available — no above-native modes exposed\n"@ + "  enable "@ + feature_words(r.vendor)
            + ":\n"@ + "  "@ + hint_words(r.vendor) + "\n"@;
        assert(h.subrange(h.len() - t.len(), h.len() as int) =~= t);
        reveal_strlit("super-resolution: none available — no above-native modes exposed\n  enable ");
        reveal_strlit("super-resolution: none available — no above-native modes exposed\n");
        reveal_strlit("  enable ");
        reveal_strlit(":\n  ");
        reveal_strlit(":\n");
        reveal_strlit("  ");
        assert(t =~= "super-resolution: none available — no above-native modes exposed\n  enable "@ + feature_words(r.vendor)
            + ":\n  "@ + hint_words(r.vendor) + "\n"@);
    }
}

impl Report {
    /// The report's text up to its list of above-native modes.
    pub fn head_text(&self) -> (s: String)
        ensures
            s@ == report_head(*self),
    {
        let mut s = String::from_str("adapter : ");
        s.append(self.adapter.as_str());
        s.append(" [");
        s.append(self.vendor.name());
        if self.nvapi_present {
            s.append(" · NVAPI present");
        } else {
            s.append("");
        }
        s.append("]\n");
        s.append("monitor : ");
        s.append(self.monitor.as_str());
        s.append(" (native ");
        push_decimal(&mut s, self.native.0 as u64);
        s.append("x");
        push_decimal(&mut s, self.native.1 as u64);
        s.append(")\n");
        s.append("current : ");
        let m = self.current.text();
        s.append(m.as_str());
        s.append(" @ ");
        push_decimal(&mut s, self.current_scale as u64);
        s.append("% scale\n");
        s.append("scale   : ");
        push_decimal(&mut s, self.scale_range.0 as u64);
        s.append("%..");
        push_decimal(&mut s, self.scale_range.1 as u64);
        s.append("%\n");
        let ghost upper = s@;
        if self.above_native.len() == 0 {
            s.append("super-resolution: none available — no above-native modes exposed\n");
            s.append("  enable ");
            s.append(self.vendor.feature_name());
            s.append(":\n");
            s.append("  ");
            s.append(self.vendor.enable_hint());
            s.append("\n");
        } else {
            s.append("super-resolution: ");
            push_decimal(&mut s, self.above_native.len() as u64);
            s.append(" above-native mode(s) ready:\n");
        }
        proof {
            let tail = if self.above_native.len() == 0 {
                "super-resolution: none available — no above-native modes exposed\n"@ + "  enable "@ + feature_words(
                    self.vendor,
                ) + ":\n"@ + "  "@ + hint_words(self.vendor) + "\n"@
            } else {
                "super-resolution: "@ + decimal(self.above_native.len() as nat) + " above-native mode(s) ready:\n"@
            };
            assert(s@ =~= upper + tail);
        }
        s
    }

    /// The line of above-native mode `i`, before its linear ratio, e.g.
    /// "  3840x2160 up to 60Hz".
    pub fn ladder_line_head(&self, i: usize) -> (s: String)
        requires
            i < self.above_native.len(),
        ensures
            s@ == ladder_line_head(self.above_native@[i as int]),
    {
        let (w, h, hz) = self.above_native[i];
        let mut s = String::from_str("  ");
        push_decimal(&mut s, w as u64);
        s.append("x");
        push_decimal(&mut s, h as u64);
        s.append(" up to ");
        push_decimal(&mut s, hz as u64);
        s.append("Hz");
        s
    }
}

} // verus!
