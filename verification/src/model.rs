//! Display domain model shared by the control plane, the rules engine and the shells.

use vstd::prelude::*;
use vstd::string::StringExecFns;
use crate::text::{decimal, push_decimal};

verus! {

/// A concrete display mode.
#[derive(Clone, Copy, PartialEq, Eq, Structural, Debug)]
pub struct Mode {
    pub width: u32,
    pub height: u32,
    pub hz: u32,
}

/// How a mode reads, e.g. "1920x1080 @144Hz".
pub open spec fn mode_words(m: Mode) -> Seq<char> {
    decimal(m.width as nat) + "x"@ + decimal(m.height as nat) + " @"@ + decimal(m.hz as nat) + "Hz"@
}

impl Mode {
    /// The text of the mode, e.g. "1920x1080 @144Hz".
    pub fn text(&self) -> (s: String)
        ensures
            s@ == mode_words(*self),
    {
        let mut s = String::new();
        push_decimal(&mut s, self.width as u64);
        s.append("x");
        push_decimal(&mut s, self.height as u64);
        s.append(" @");
        push_decimal(&mut s, self.hz as u64);
        s.append("Hz");
        s
    }
}

/// Full display state: a mode plus the DPI scale in percent.
#[derive(Clone, Copy, PartialEq, Eq, Structural, Debug)]
pub struct DisplayState {
    pub mode: Mode,
    pub scale: u32,
}

/// A named target the user can switch to.
///
/// `resolution: None` means "the panel's native mode" resolved at apply time;
/// `refresh: None` means "highest available refresh rate for that resolution".
#[derive(Clone, PartialEq, Eq, Debug)]
pub struct Profile {
    pub name: String,
    pub resolution: Option<(u32, u32)>,
    pub refresh: Option<u32>,
    pub scale: Option<u32>,
}

impl Profile {
    /// A profile is native when it leaves the resolution to the panel.
    pub fn is_native(&self) -> (r: bool)
        ensures
            r == self.resolution.is_none(),
    {
        self.resolution.is_none()
    }
}

/// Why a display operation did not complete.
#[derive(Clone, PartialEq, Eq, Debug)]
pub enum Failure {
    /// An error reported by the operating-system layer, passed through as text.
    System(String),
    /// The driver offers no mode with this resolution (and refresh, when pinned).
    ModeNotOffered { width: u32, height: u32, refresh: Option<u32> },
    /// The scale is not a step of the DPI ladder.
    ScaleUnsupported(u32),
    /// The scale is a ladder step outside the display's supported range.
    ScaleOutOfRange { percent: u32, min: u32, max: u32 },
    /// A scale write was accepted but the effective scale did not follow.
    ScaleNotApplied { wanted: u32, actual: u32 },
    /// Scale writes are off for this session after a write did not stick; the
    /// scale that was asked for is carried.
    ScaleWritesDisabled(u32),
}

} // verus!
