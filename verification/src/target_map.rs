use vstd::prelude::*;

use crate::errors::Error;
use crate::strutil::str_eq;

verus! {

/// The documented ABI name for a compiler target triple; `None` outside the
/// fixed supported set.
pub open spec fn spec_abi_of(t: Seq<char>) -> Option<Seq<char>> {
    if t == "aarch64-linux-android"@ {
        Some("arm64-v8a"@)
    } else if t == "armv7-linux-androideabi"@ {
        Some("armeabi-v7a"@)
    } else if t == "i686-linux-android"@ {
        Some("x86"@)
    } else {
        None
    }
}

/// Maps a compiler target triple to its ABI name; an unknown triple is a
/// fatal configuration error that names the offending identifier.
pub fn get_target_android_name(rust_target_name: &str) -> (r: Result<&'static str, Error>)
    ensures
        r is Ok <==> spec_abi_of(rust_target_name@) is Some,
        r matches Ok(abi) ==> spec_abi_of(rust_target_name@) == Some(abi@),
        r matches Err(e) ==> e matches Error::UnknownTarget(t) && t@ == rust_target_name@,
{
    if str_eq(rust_target_name, "aarch64-linux-android") {
        Ok("arm64-v8a")
    } else if str_eq(rust_target_name, "armv7-linux-androideabi") {
        Ok("armeabi-v7a")
    } else if str_eq(rust_target_name, "i686-linux-android") {
        Ok("x86")
    } else {
        Err(Error::UnknownTarget(rust_target_name.to_owned()))
    }
}

} // verus!
