//! Helpers of the driver-settings probe: recognising super-resolution settings
//! by name and reading the driver's little-endian setting blobs.

use vstd::prelude::*;
use crate::text::{chars_contain, chars_of, has_infix, lower_chars, lower_seq};

verus! {

/// A driver setting name that looks related to super resolution.
pub open spec fn dsr_like(name: Seq<char>) -> bool {
    has_infix(lower_seq(name), "dsr"@) || has_infix(lower_seq(name), "super resolution"@)
        || has_infix(lower_seq(name), "smooth scaling"@) || has_infix(lower_seq(name), "hyperscaling"@)
}

fn has_word(lower: &Vec<char>, word: &str) -> (r: bool)
    ensures
        r == has_infix(lower@, word@),
{
    let w = chars_of(word);
    chars_contain(lower, &w)
}

/// Does a driver setting name look related to super resolution?
pub fn looks_dsr(name: &str) -> (r: bool)
    ensures
        r == dsr_like(name@),
{
    let raw = chars_of(name);
    let n = lower_chars(&raw);
    has_word(&n, "dsr") || has_word(&n, "super resolution") || has_word(&n, "smooth scaling")
        || has_word(&n, "hyperscaling")
}

/// The little-endian `u32` in the first four bytes of a setting blob.
pub fn u32_from_blob(blob: &[u8]) -> (v: u32)
    requires
        blob@.len() >= 4,
    ensures
        v == blob@[0] + blob@[1] * 0x100 + blob@[2] * 0x10000 + blob@[3] * 0x1000000,
{
    let b0: u32 = blob[0] as u32;
    let b1: u32 = blob[1] as u32;
    let b2: u32 = blob[2] as u32;
    let b3: u32 = blob[3] as u32;
    b0 + b1 * 0x100 + b2 * 0x10000 + b3 * 0x1000000
}

/// The version word of a driver structure: its size, tagged as version 1.
pub fn nvapi_version<T>() -> (v: u32)
    ensures
        v == ((vstd::layout::size_of::<T>() as u32) | 0x10000u32),
{
    let n: usize = core::mem::size_of::<T>();
    (n as u32) | 0x10000u32
}

} // verus!
