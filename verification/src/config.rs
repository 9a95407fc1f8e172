//! Versioned configuration: profiles, rules and the confirm timeout.

use vstd::prelude::*;
use vstd::string::StringExecFns;
use crate::model::Profile;
use crate::rules::Rule;
use crate::text::{eq_ignore_ascii_case, eq_ignore_case};

verus! {

/// The config schema version this build writes and understands.
pub const CURRENT_VERSION: u32 = 1;

/// Seconds before an unconfirmed switch auto-reverts, when the file says nothing.
pub open spec fn spec_default_confirm_timeout() -> u32 {
    10
}

#[derive(Clone, Debug)]
pub struct Config {
    pub version: u32,
    /// Seconds before an unconfirmed switch auto-reverts.
    pub confirm_timeout_s: u32,
    pub profiles: Vec<Profile>,
    /// Automation rules (evaluated by the conductor). Empty by default.
    pub rules: Vec<Rule>,
}

/// Why a loaded config was refused.
#[derive(Clone, Copy, PartialEq, Eq, Structural, Debug)]
pub enum ConfigError {
    /// The file was written by a newer build (its version is carried).
    NewerVersion(u32),
}

/// Default confirm timeout in seconds.
pub fn default_confirm_timeout() -> (t: u32)
    ensures
        t == spec_default_confirm_timeout(),
{
    10
}

/// Profile `i` is the first whose name equals `name` ignoring ASCII case.
pub open spec fn first_named(profiles: Seq<Profile>, name: Seq<char>, i: int) -> bool {
    &&& 0 <= i < profiles.len()
    &&& eq_ignore_case(profiles[i].name@, name)
    &&& forall|j: int| 0 <= j < i ==> !eq_ignore_case(#[trigger] profiles[j].name@, name)
}

/// No profile is named `name` (ignoring ASCII case).
pub open spec fn none_named(profiles: Seq<Profile>, name: Seq<char>) -> bool {
    forall|j: int| 0 <= j < profiles.len() ==> !eq_ignore_case(#[trigger] profiles[j].name@, name)
}

/// Profile lookup ignores ASCII case: names that differ only in case find the
/// same profile, or none.
pub proof fn law_profile_lookup_ignores_case(profiles: Seq<Profile>, a: Seq<char>, b: Seq<char>, i: int)
    requires
        eq_ignore_case(a, b),
    ensures
        first_named(profiles, a, i) == first_named(profiles, b, i),
        none_named(profiles, a) == none_named(profiles, b),
{
}

impl Config {
    /// Default profile set, themed after the harmonic series:
    /// fundamental (native), fifth (3:2 linear), octave (2:1 linear).
    pub fn default_for(native_w: u32, native_h: u32) -> (c: Config)
        requires
            native_w * 3 <= u32::MAX,
            native_h * 3 <= u32::MAX,
        ensures
            c.version == CURRENT_VERSION,
            c.confirm_timeout_s == spec_default_confirm_timeout(),
            c.rules@.len() == 0,
            c.profiles@.len() == 3,
            c.profiles@[0].name@ == "fundamental"@,
            c.profiles@[0].resolution is None,
            c.profiles@[0].refresh is None,
            c.profiles@[0].scale == Some(100u32),
            c.profiles@[1].name@ == "fifth"@,
            c.profiles@[1].resolution == Some(((native_w * 3 / 2) as u32, (native_h * 3 / 2) as u32)),
            c.profiles@[1].refresh is None,
            c.profiles@[1].scale == Some(150u32),
            c.profiles@[2].name@ == "octave"@,
            c.profiles@[2].resolution == Some(((native_w * 2) as u32, (native_h * 2) as u32)),
            c.profiles@[2].refresh is None,
            c.profiles@[2].scale == Some(200u32),
    {
        let mut profiles: Vec<Profile> = Vec::new();
        profiles.push(Profile {
            name: String::from_str("fundamental"),
            resolution: None,
            refresh: None,
            scale: Some(100),
        });
        profiles.push(Profile {
            name: String::from_str("fifth"),
            resolution: Some((native_w * 3 / 2, native_h * 3 / 2)),
            refresh: None,
            scale: Some(150),
        });
        profiles.push(Profile {
            name: String::from_str("octave"),
            resolution: Some((native_w * 2, native_h * 2)),
            refresh: None,
            scale: Some(200),
        });
        Config {
            version: CURRENT_VERSION,
            confirm_timeout_s: default_confirm_timeout(),
            profiles,
            rules: Vec::new(),
        }
    }

    /// The first profile whose name matches `name`, ignoring ASCII case.
    pub fn profile(&self, name: &str) -> (r: Option<&Profile>)
        ensures
            match r {
                Some(p) => exists|i: int| first_named(self.profiles@, name@, i) && *p == self.profiles@[i],
                None => none_named(self.profiles@, name@),
            },
    {
        let mut i: usize = 0;
        while i < self.profiles.len()
            invariant
                i <= self.profiles.len(),
                forall|j: int| 0 <= j < i ==> !eq_ignore_case(#[trigger] self.profiles@[j].name@, name@),
            decreases self.profiles.len() - i,
        {
            if eq_ignore_ascii_case(self.profiles[i].name.as_str(), name) {
                assert(first_named(self.profiles@, name@, i as int));
                return Some(&self.profiles[i]);
            }
            i = i + 1;
        }
        None
    }

    /// Accept a loaded config if this build understands its schema version.
    /// Older versions migrate here as the schema grows; today they are taken as is.
    pub fn migrate(self) -> (r: Result<Config, ConfigError>)
        ensures
            self.version > CURRENT_VERSION ==> r == Err::<Config, ConfigError>(ConfigError::NewerVersion(self.version)),
            self.version <= CURRENT_VERSION ==> r == Ok::<Config, ConfigError>(self),
    {
        if self.version > CURRENT_VERSION {
            return Err(ConfigError::NewerVersion(self.version));
        }
        Ok(self)
    }
}

} // verus!
