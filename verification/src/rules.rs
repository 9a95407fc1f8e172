//! Automation rule data model.

use vstd::prelude::*;

verus! {

/// Machine power source.
#[derive(Clone, Copy, PartialEq, Eq, Structural, Debug)]
pub enum PowerSource {
    Ac,
    Battery,
}

/// What causes a rule to fire.
#[derive(Clone, PartialEq, Eq, Debug)]
pub enum Trigger {
    /// Process owns the foreground window (image name, case-insensitive).
    Foreground(String),
    /// Process is running anywhere (image name, case-insensitive).
    Running(String),
    /// Machine power source.
    Power(PowerSource),
}

/// What to restore when the trigger stops matching.
#[derive(Clone, Copy, PartialEq, Eq, Structural, Debug)]
pub enum Restore {
    /// Return to the state that was active before this rule fired.
    OnExit,
    /// Keep the profile until something else changes it.
    Manual,
}

impl Default for Restore {
    fn default() -> (r: Restore)
        ensures
            r == Restore::OnExit,
    {
        Restore::OnExit
    }
}

/// An automation rule: when `trigger` fires, `profile` should be active.
#[derive(Clone, PartialEq, Eq, Debug)]
pub struct Rule {
    pub name: String,
    pub trigger: Trigger,
    /// Profile name from the Resonance config.
    pub profile: String,
    pub priority: i32,
    pub restore: Restore,
}

} // verus!
