//! The build profile the module was produced under, as read from the
//! build environment's profile string.

use vstd::prelude::*;

use crate::obs::option_ext::OptionExt;
use crate::strutil::str_chars_eq;

verus! {

/// The two build profiles; anything unreadable falls back to `Debug`.
#[derive(Debug, Clone, Copy, PartialEq, Eq, Structural)]
pub enum BuildProfile {
    Release,
    Debug,
}

/// A profile string that is neither `"release"` nor `"debug"`.
#[derive(Debug, Clone, PartialEq, Eq)]
pub enum BuildProfileParseError {
    InvalidBuildProfile(String),
}

/// The profile a string names, if it names one.
pub open spec fn spec_profile_of(s: Seq<char>) -> Option<BuildProfile> {
    if s == "release"@ {
        Some(BuildProfile::Release)
    } else if s == "debug"@ {
        Some(BuildProfile::Debug)
    } else {
        None
    }
}

impl BuildProfile {
    /// Parses a profile string; an unknown string comes back inside the
    /// error, unchanged.
    pub fn parse_profile(s: &str) -> (r: Result<BuildProfile, BuildProfileParseError>)
        ensures
            match spec_profile_of(s@) {
                Some(p) => r == Ok::<BuildProfile, BuildProfileParseError>(p),
                None => (r matches Err(e) && e matches BuildProfileParseError::InvalidBuildProfile(
                    m,
                ) && m@ == s@),
            },
    {
        if str_chars_eq(s, "release") {
            Ok(BuildProfile::Release)
        } else if str_chars_eq(s, "debug") {
            Ok(BuildProfile::Debug)
        } else {
            Err(BuildProfileParseError::InvalidBuildProfile(s.to_owned()))
        }
    }

    /// The profile the build environment's value selects: a readable
    /// profile string is followed, everything else means `Debug`.
    pub fn current_or_default(value: Option<&str>) -> (r: BuildProfile)
        ensures
            r == match value {
                Some(s) => match spec_profile_of(s@) {
                    Some(p) => p,
                    None => BuildProfile::Debug,
                },
                None => BuildProfile::Debug,
            },
    {
        let current: Result<BuildProfile, BuildProfileParseError> = match value {
            None => Ok(Default::default()),
            Some(s) => BuildProfile::parse_profile(s),
        };
        current.ok().or_default()
    }

    pub fn is_debug(self) -> (r: bool)
        ensures
            r == (self == BuildProfile::Debug),
    {
        self == BuildProfile::Debug
    }

    pub fn as_str(self) -> (r: &'static str)
        ensures
            self == BuildProfile::Release ==> r@ == "release"@,
            self == BuildProfile::Debug ==> r@ == "debug"@,
    {
        match self {
            BuildProfile::Release => "release",
            BuildProfile::Debug => "debug",
        }
    }
}

impl Default for BuildProfile {
    fn default() -> (r: BuildProfile)
        ensures
            r == BuildProfile::Debug,
    {
        BuildProfile::Debug
    }
}

impl core::str::FromStr for BuildProfile {
    type Err = BuildProfileParseError;

    fn from_str(s: &str) -> Result<BuildProfile, BuildProfileParseError> {
        BuildProfile::parse_profile(s)
    }
}

} // verus!
