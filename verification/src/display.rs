//! Display mode catalogue and mode selection.

use vstd::prelude::*;
use crate::model::{Failure, Mode};
use crate::text::{from_utf16_lossy, utf16_lossy};

verus! {

/// Locally unique adapter identifier.
#[derive(Clone, Copy, Default, PartialEq, Eq, Structural, Debug)]
pub struct Luid {
    pub low: u32,
    pub high: i32,
}

/// Adapter LUID and source/target ids of the primary active display path.
#[derive(Clone, Copy, Debug)]
pub struct PathIds {
    pub adapter: Luid,
    pub source_id: u32,
    pub target_id: u32,
}

/// One entry of the driver's mode enumeration.
#[derive(Clone, Copy, PartialEq, Eq, Structural, Debug)]
pub struct RawMode {
    pub width: u32,
    pub height: u32,
    pub hz: u32,
    pub bits_per_pel: u32,
}

/// Lexicographic order on (width, height, refresh).
pub open spec fn mode_lt(a: Mode, b: Mode) -> bool {
    a.width < b.width || (a.width == b.width && (a.height < b.height || (a.height == b.height
        && a.hz < b.hz)))
}

/// Strictly increasing by (width, height, refresh): sorted and free of duplicates.
pub open spec fn strictly_sorted(s: Seq<Mode>) -> bool {
    forall|i: int, j: int| 0 <= i < j < s.len() ==> mode_lt(#[trigger] s[i], #[trigger] s[j])
}

/// The mode described by a raw enumeration entry.
pub open spec fn mode_of(r: RawMode) -> Mode {
    Mode { width: r.width, height: r.height, hz: r.hz }
}

/// `m` is a 32-bpp mode of the raw enumeration.
pub open spec fn offered(raw: Seq<RawMode>, m: Mode) -> bool {
    exists|i: int| 0 <= i < raw.len() && raw[i].bits_per_pel == 32 && #[trigger] mode_of(raw[i]) == m
}

fn less(a: Mode, b: Mode) -> (r: bool)
    ensures
        r == mode_lt(a, b),
{
    a.width < b.width || (a.width == b.width && (a.height < b.height || (a.height == b.height
        && a.hz < b.hz)))
}

/// Inserts `m` into a strictly sorted list unless it is already there.
fn insert_sorted(v: &mut Vec<Mode>, m: Mode)
    requires
        strictly_sorted(old(v)@),
    ensures
        strictly_sorted(final(v)@),
        forall|x: Mode| final(v)@.contains(x) <==> (old(v)@.contains(x) || x == m),
{
    let mut p: usize = 0;
    while p < v.len() && less(v[p], m)
        invariant
            p <= v.len(),
            v@ == old(v)@,
            strictly_sorted(v@),
            forall|k: int| 0 <= k < p ==> mode_lt(#[trigger] v@[k], m),
        decreases v.len() - p,
    {
        p = p + 1;
    }
    if p < v.len() && v[p] == m {
        assert forall|x: Mode| v@.contains(x) <==> (old(v)@.contains(x) || x == m) by {
            if x == m {
                assert(v@[p as int] == m);
            }
        }
        return;
    }
    let ghost before = v@;
    proof {
        lemma_insert_sorted(before, p as int, m);
        lemma_insert_contents(before, p as int, m);
    }
    v.insert(p, m);
    assert(v@ == before.insert(p as int, m));
    assert(forall|x: Mode| v@.contains(x) <==> (old(v)@.contains(x) || x == m));
}

proof fn lemma_insert_contents(s: Seq<Mode>, p: int, m: Mode)
    requires
        0 <= p <= s.len(),
    ensures
        forall|x: Mode| s.insert(p, m).contains(x) <==> (s.contains(x) || x == m),
{
    let t = s.insert(p, m);
    assert forall|x: Mode| t.contains(x) <==> (s.contains(x) || x == m) by {
        if t.contains(x) {
            let k = choose|k: int| 0 <= k < t.len() && t[k] == x;
            if k < p {
                assert(s[k] == x);
            } else if k > p {
                assert(s[k - 1] == x);
            }
        }
        if s.contains(x) {
            let k = choose|k: int| 0 <= k < s.len() && s[k] == x;
            if k < p {
                assert(t[k] == x);
            } else {
                assert(t[k + 1] == x);
            }
        }
        if x == m {
            assert(t[p] == m);
        }
    }
}

proof fn lemma_insert_sorted(s: Seq<Mode>, p: int, m: Mode)
    requires
        strictly_sorted(s),
        0 <= p <= s.len(),
        forall|k: int| 0 <= k < p ==> mode_lt(#[trigger] s[k], m),
        p < s.len() ==> s[p] != m && !mode_lt(s[p], m),
    ensures
        strictly_sorted(s.insert(p, m)),
{
    let t = s.insert(p, m);
    assert forall|i: int, j: int| 0 <= i < j < t.len() implies mode_lt(#[trigger] t[i], #[trigger] t[j]) by {
        if j < p {
            assert(t[i] == s[i] && t[j] == s[j]);
        } else if j == p {
            assert(t[i] == s[i]);
        } else if i < p {
            assert(t[i] == s[i] && t[j] == s[j - 1]);
            assert(mode_lt(s[i], m));
            assert(!mode_lt(s[p], m) && s[p] != m);
        } else if i == p {
            assert(t[j] == s[j - 1]);
            assert(!mode_lt(s[p], m) && s[p] != m);
        } else {
            assert(t[i] == s[i - 1] && t[j] == s[j - 1]);
        }
    }
}

/// All 32-bpp modes of the enumeration, deduplicated and sorted by
/// (width, height, refresh).
pub fn list_modes(raw: &Vec<RawMode>) -> (modes: Vec<Mode>)
    ensures
        strictly_sorted(modes@),
        forall|m: Mode| modes@.contains(m) <==> offered(raw@, m),
{
    let mut modes: Vec<Mode> = Vec::new();
    let mut i: usize = 0;
    while i < raw.len()
        invariant
            i <= raw.len(),
            strictly_sorted(modes@),
            forall|m: Mode| modes@.contains(m) <==> offered(raw@.take(i as int), m),
        decreases raw.len() - i,
    {
        let r = raw[i];
        let ghost old_modes = modes@;
        if r.bits_per_pel == 32 {
            insert_sorted(&mut modes, Mode { width: r.width, height: r.height, hz: r.hz });
        }
        assert forall|m: Mode| modes@.contains(m) <==> offered(raw@.take(i + 1), m) by {
            if offered(raw@.take(i + 1), m) {
                let k = choose|k: int| 0 <= k < i + 1 && raw@.take(i + 1)[k].bits_per_pel == 32
                    && #[trigger] mode_of(raw@.take(i + 1)[k]) == m;
                if k < i {
                    assert(raw@.take(i as int)[k] == raw@[k]);
                    assert(offered(raw@.take(i as int), m));
                }
            }
            if offered(raw@.take(i as int), m) {
                let k = choose|k: int| 0 <= k < i && raw@.take(i as int)[k].bits_per_pel == 32
                    && #[trigger] mode_of(raw@.take(i as int)[k]) == m;
                assert(raw@.take(i + 1)[k] == raw@[k]);
            }
            if r.bits_per_pel == 32 && m == mode_of(r) {
                assert(raw@.take(i + 1)[i as int] == r);
            }
        }
        i = i + 1;
    }
    assert(raw@.take(raw.len() as int) =~= raw@);
    modes
}

/// The driver offers `m` at the requested resolution (and refresh, when pinned).
pub open spec fn fits(m: Mode, width: u32, height: u32, refresh: Option<u32>) -> bool {
    m.width == width && m.height == height && match refresh {
        Some(hz) => m.hz == hz,
        None => true,
    }
}

/// `modes[i]` is the mode `resolve_mode` picks: it fits, no fitting mode has a
/// higher refresh, and no later fitting mode has the same refresh.
pub open spec fn best_fit(modes: Seq<Mode>, width: u32, height: u32, refresh: Option<u32>, i: int) -> bool {
    &&& 0 <= i < modes.len()
    &&& fits(modes[i], width, height, refresh)
    &&& forall|j: int| 0 <= j < modes.len() && #[trigger] fits(modes[j], width, height, refresh)
        ==> modes[j].hz <= modes[i].hz && (j > i ==> modes[j].hz < modes[i].hz)
}

/// No mode fits the request.
pub open spec fn none_fit(modes: Seq<Mode>, width: u32, height: u32, refresh: Option<u32>) -> bool {
    forall|j: int| 0 <= j < modes.len() ==> !#[trigger] fits(modes[j], width, height, refresh)
}

/// The outcome of mode selection: the best fitting mode, or the failure naming the request.
pub open spec fn spec_resolve_mode(width: u32, height: u32, refresh: Option<u32>, modes: Seq<Mode>) -> Result<Mode, Failure> {
    if exists|i: int| best_fit(modes, width, height, refresh, i) {
        Ok(modes[choose|i: int| best_fit(modes, width, height, refresh, i)])
    } else {
        Err(Failure::ModeNotOffered { width, height, refresh })
    }
}

/// At most one index is the best fit.
pub proof fn lemma_best_fit_unique(modes: Seq<Mode>, width: u32, height: u32, refresh: Option<u32>, i: int, j: int)
    requires
        best_fit(modes, width, height, refresh, i),
        best_fit(modes, width, height, refresh, j),
    ensures
        i == j,
{
    assert(fits(modes[i], width, height, refresh));
    assert(fits(modes[j], width, height, refresh));
}

/// Best (highest-refresh) mode matching a resolution, optionally pinning refresh.
pub fn resolve_mode(width: u32, height: u32, refresh: Option<u32>, modes: &Vec<Mode>) -> (r: Result<Mode, Failure>)
    ensures
        r == spec_resolve_mode(width, height, refresh, modes@),
        match r {
            Ok(m) => exists|i: int| best_fit(modes@, width, height, refresh, i) && m == modes@[i],
            Err(e) => none_fit(modes@, width, height, refresh)
                && e == Failure::ModeNotOffered { width, height, refresh },
        },
{
    let mut best: Option<usize> = None;
    let mut i: usize = 0;
    while i < modes.len()
        invariant
            i <= modes.len(),
            match best {
                None => forall|j: int| 0 <= j < i ==> !#[trigger] fits(modes@[j], width, height, refresh),
                Some(b) => {
                    &&& b < i
                    &&& fits(modes@[b as int], width, height, refresh)
                    &&& forall|j: int| 0 <= j < i && #[trigger] fits(modes@[j], width, height, refresh)
                        ==> modes@[j].hz <= modes@[b as int].hz && (j > b ==> modes@[j].hz < modes@[b as int].hz)
                },
            },
        decreases modes.len() - i,
    {
        let m = modes[i];
        let ok = m.width == width && m.height == height && match refresh {
            Some(hz) => m.hz == hz,
            None => true,
        };
        if ok {
            match best {
                None => {
                    best = Some(i);
                },
                Some(b) => {
                    if m.hz >= modes[b].hz {
                        best = Some(i);
                    }
                },
            }
        }
        i = i + 1;
    }
    match best {
        Some(b) => {
            assert(best_fit(modes@, width, height, refresh, b as int));
            proof {
                let c = choose|i: int| best_fit(modes@, width, height, refresh, i);
                lemma_best_fit_unique(modes@, width, height, refresh, b as int, c);
            }
            Ok(modes[b])
        },
        None => {
            assert(!exists|i: int| best_fit(modes@, width, height, refresh, i));
            Err(Failure::ModeNotOffered { width, height, refresh })
        },
    }
}

/// Scale percent from the effective vertical DPI (96 DPI is 100%), rounded to nearest.
pub fn scale_from_dpi(dpi_y: u32) -> (percent: u32)
    requires
        dpi_y * 100 + 48 <= u32::MAX,
    ensures
        percent == (dpi_y * 100 + 48) / 96,
{
    (dpi_y * 100 + 48) / 96
}

/// The units of a NUL-terminated buffer up to its first NUL (all of it when
/// there is none) end at `n`.
pub open spec fn nul_end(buf: Seq<u16>, n: int) -> bool {
    &&& 0 <= n <= buf.len()
    &&& (n == buf.len() || buf[n] == 0)
    &&& forall|j: int| 0 <= j < n ==> #[trigger] buf[j] != 0
}

/// Where the text of a NUL-terminated buffer ends: at its first NUL, or at
/// its end when there is none.
pub fn nul_len(buf: &[u16]) -> (n: usize)
    ensures
        nul_end(buf@, n as int),
{
    let mut n: usize = 0;
    while n < buf.len() && buf[n] != 0
        invariant
            n <= buf.len(),
            forall|j: int| 0 <= j < n ==> #[trigger] buf@[j] != 0,
        decreases buf.len() - n,
    {
        n = n + 1;
    }
    n
}

/// The text of a NUL-terminated UTF-16 buffer, lossily decoded.
pub fn utf16_str(buf: &[u16]) -> (s: String)
    ensures
        exists|n: int| nul_end(buf@, n) && s@ == utf16_lossy(buf@.take(n)),
{
    let mut units: Vec<u16> = Vec::new();
    let mut n: usize = 0;
    while n < buf.len() && buf[n] != 0
        invariant
            n <= buf.len(),
            units@ == buf@.take(n as int),
            forall|j: int| 0 <= j < n ==> #[trigger] buf@[j] != 0,
        decreases buf.len() - n,
    {
        units.push(buf[n]);
        assert(buf@.take(n + 1) =~= buf@.take(n as int).push(buf@[n as int]));
        n = n + 1;
    }
    assert(nul_end(buf@, n as int));
    from_utf16_lossy(units.as_slice())
}

} // verus!
