use vstd::prelude::*;

verus! {

/// Every failure of the pipeline is fatal; this enum tags the reason so a
/// caller can report it and abort.
#[derive(Debug)]
pub enum Error {
    /// An artifact was supplied for a target triple outside the supported set;
    /// carries the offending triple.
    UnknownTarget(String),
    /// Both a flat icon and at least one adaptive-icon layer were configured.
    IconConflict,
    /// An array-typed configuration value held a non-string element.
    MalformedStringArray,
    /// A keystore file was supplied without a password.
    MissingKeystorePassword,
}

} // verus!
