use vstd::prelude::*;

pub mod artifacts;
pub mod config;
pub mod driver;
pub mod errors;
pub mod icons;
pub mod patch;
pub mod project;
pub mod strutil;
pub mod target_map;

verus! {

/// Build flavour selected by the caller: it decides the external build
/// system's task name and whether the signing step runs.
#[derive(Clone, Copy, PartialEq, Eq, Structural, Debug)]
pub enum BuildProfile {
    Debug,
    Release,
}

/// Task name handed to the external build system for a profile.
pub fn gradle_task(profile: BuildProfile) -> (t: &'static str)
    ensures
        profile is Debug ==> t@ == "assembleDebug"@,
        profile is Release ==> t@ == "assembleRelease"@,
{
    match profile {
        BuildProfile::Debug => "assembleDebug",
        BuildProfile::Release => "assembleRelease",
    }
}

} // verus!
