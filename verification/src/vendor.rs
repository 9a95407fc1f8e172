//! GPU vendor detection and super-resolution guidance.
//!
//! The core chain (above-native modes, mode switch, DPI compensation) is
//! vendor-agnostic; the vendor only decides which guidance the user gets when
//! no above-native modes are exposed yet.

use vstd::prelude::*;
use crate::text::{chars_contain, chars_of, has_infix, lower_chars, lower_seq};

verus! {

#[derive(Clone, Copy, PartialEq, Eq, Structural, Debug)]
pub enum Vendor {
    Nvidia,
    Amd,
    Intel,
    Unknown,
}

/// The lower-cased adapter description contains `word`.
pub open spec fn mentions(adapter: Seq<char>, word: Seq<char>) -> bool {
    has_infix(lower_seq(adapter), word)
}

/// The vendor an adapter description names, checked NVIDIA, AMD, Intel in turn.
pub open spec fn vendor_of(adapter: Seq<char>) -> Vendor {
    if mentions(adapter, "nvidia"@) || mentions(adapter, "geforce"@) || mentions(adapter, "quadro"@)
        || mentions(adapter, "rtx"@) {
        Vendor::Nvidia
    } else if mentions(adapter, "amd"@) || mentions(adapter, "radeon"@) || mentions(adapter, "ati "@) {
        Vendor::Amd
    } else if mentions(adapter, "intel"@) || mentions(adapter, "arc"@) || mentions(adapter, "iris"@) {
        Vendor::Intel
    } else {
        Vendor::Unknown
    }
}

fn has_word(lower: &Vec<char>, word: &str) -> (r: bool)
    ensures
        r == has_infix(lower@, word@),
{
    let w = chars_of(word);
    chars_contain(lower, &w)
}

/// The vendor's name.
pub open spec fn vendor_name(v: Vendor) -> Seq<char> {
    match v {
        Vendor::Nvidia => "NVIDIA"@,
        Vendor::Amd => "AMD"@,
        Vendor::Intel => "Intel"@,
        Vendor::Unknown => "Unknown"@,
    }
}

/// The vendor's name for its super-resolution feature.
pub open spec fn feature_words(v: Vendor) -> Seq<char> {
    match v {
        Vendor::Nvidia => "DSR / DLDSR"@,
        Vendor::Amd => "Virtual Super Resolution (VSR)"@,
        Vendor::Intel => "Retro Scaling / custom resolutions"@,
        Vendor::Unknown => "GPU super-resolution"@,
    }
}

/// Where the user turns the super-resolution feature on.
pub open spec fn hint_words(v: Vendor) -> Seq<char> {
    match v {
        Vendor::Nvidia => "NVIDIA Control Panel → Manage 3D settings → DSR - Factors (or the NVIDIA app)"@,
        Vendor::Amd => "AMD Software → Display → Virtual Super Resolution → Enabled"@,
        Vendor::Intel => "Intel Graphics Command Center → Display → Custom Resolutions"@,
        Vendor::Unknown => "your GPU's control panel (enable super-resolution / GPU scaling)"@,
    }
}

impl Vendor {
    /// Identify the vendor from an adapter description string.
    pub fn detect(adapter: &str) -> (v: Vendor)
        ensures
            v == vendor_of(adapter@),
    {
        let raw = chars_of(adapter);
        let a = lower_chars(&raw);
        if has_word(&a, "nvidia") || has_word(&a, "geforce") || has_word(&a, "quadro")
            || has_word(&a, "rtx") {
            Vendor::Nvidia
        } else if has_word(&a, "amd") || has_word(&a, "radeon") || has_word(&a, "ati ") {
            Vendor::Amd
        } else if has_word(&a, "intel") || has_word(&a, "arc") || has_word(&a, "iris") {
            Vendor::Intel
        } else {
            Vendor::Unknown
        }
    }

    pub fn name(self) -> (s: &'static str)
        ensures
            s@ == vendor_name(self),
    {
        match self {
            Vendor::Nvidia => "NVIDIA",
            Vendor::Amd => "AMD",
            Vendor::Intel => "Intel",
            Vendor::Unknown => "Unknown",
        }
    }

    /// The vendor's name for the super-resolution feature the user must enable.
    pub fn feature_name(self) -> (s: &'static str)
        ensures
            s@ == feature_words(self),
    {
        match self {
            Vendor::Nvidia => "DSR / DLDSR",
            Vendor::Amd => "Virtual Super Resolution (VSR)",
            Vendor::Intel => "Retro Scaling / custom resolutions",
            Vendor::Unknown => "GPU super-resolution",
        }
    }

    /// Where the user turns that feature on when no above-native modes exist yet.
    pub fn enable_hint(self) -> (s: &'static str)
        ensures
            s@ == hint_words(self),
    {
        match self {
            Vendor::Nvidia => "NVIDIA Control Panel → Manage 3D settings → DSR - Factors (or the NVIDIA app)",
            Vendor::Amd => "AMD Software → Display → Virtual Super Resolution → Enabled",
            Vendor::Intel => "Intel Graphics Command Center → Display → Custom Resolutions",
            Vendor::Unknown => "your GPU's control panel (enable super-resolution / GPU scaling)",
        }
    }
}

/// The lower-cased adapter description names an NVIDIA product.
pub open spec fn names_nvidia(lower: Seq<char>) -> bool {
    has_infix(lower, "nvidia"@) || has_infix(lower, "geforce"@) || has_infix(lower, "quadro"@) || has_infix(lower, "rtx"@)
}

/// Detection by product words, ignoring ASCII case: NVIDIA's words win; else
/// "amd", "radeon" or "ati " mean AMD; else "intel", "arc" or "iris" mean
/// Intel; a description naming none of them is unknown.
pub proof fn law_vendor_by_product_words(adapter: Seq<char>)
    ensures
        ({
            let l = lower_seq(adapter);
            &&& names_nvidia(l) ==> vendor_of(adapter) == Vendor::Nvidia
            &&& !names_nvidia(l) && (has_infix(l, "amd"@) || has_infix(l, "radeon"@) || has_infix(l, "ati "@))
                ==> vendor_of(adapter) == Vendor::Amd
            &&& !names_nvidia(l) && !has_infix(l, "amd"@) && !has_infix(l, "radeon"@) && !has_infix(l, "ati "@)
                && (has_infix(l, "intel"@) || has_infix(l, "arc"@) || has_infix(l, "iris"@))
                ==> vendor_of(adapter) == Vendor::Intel
            &&& vendor_of(adapter) == Vendor::Unknown ==> !names_nvidia(l) && !has_infix(l, "amd"@) && !has_infix(
                l,
                "radeon"@,
            ) && !has_infix(l, "ati "@) && !has_infix(l, "intel"@) && !has_infix(l, "arc"@) && !has_infix(l, "iris"@)
        }),
{
}

/// Detection ignores ASCII case: descriptions that differ only in case name
/// the same vendor.
pub proof fn law_vendor_ignores_case(a: Seq<char>, b: Seq<char>)
    requires
        lower_seq(a) == lower_seq(b),
    ensures
        vendor_of(a) == vendor_of(b),
{
}

} // verus!
