use vstd::prelude::*;
use vstd::string::StringExecFns;

use crate::errors::Error;
use crate::target_map::get_target_android_name;
use crate::target_map::spec_abi_of;

verus! {

/// One native-library placement: copy the compiled artifact at `source` into
/// the ABI-specific directory `dir` under the materialized tree, under the
/// fixed library file name.
pub struct Placement {
    pub abi: String,
    pub dir: String,
    pub file_name: String,
    pub source: String,
}

/// Whether every supplied target triple is in the supported set.
pub open spec fn spec_targets_ok(ts: Seq<(String, String)>) -> bool {
    forall|i: int| 0 <= i < ts.len() ==> spec_abi_of(#[trigger] ts[i].0@) is Some
}

/// Whether `ps` places exactly the supplied artifacts: one placement per
/// entry, each at `jniLibs/<abi>/libmain.so`, and no others.
pub open spec fn spec_is_placements(ps: Seq<Placement>, ts: Seq<(String, String)>) -> bool {
    &&& ps.len() == ts.len()
    &&& forall|i: int|
        0 <= i < ps.len() ==> {
            &&& Some((#[trigger] ps[i]).abi@) == spec_abi_of(ts[i].0@)
            &&& ps[i].dir@ == "jniLibs/"@ + ps[i].abi@
            &&& ps[i].file_name@ == "libmain.so"@
            &&& ps[i].source@ == ts[i].1@
        }
}

/// For each (target triple, artifact path) entry, the placement that puts the
/// artifact at `jniLibs/<abi>/libmain.so`; one placement per entry and no
/// others. An entry whose triple is outside the supported set is a fatal
/// configuration error.
pub fn place_artifacts(target_artifacts: &Vec<(String, String)>) -> (r: Result<
    Vec<Placement>,
    Error,
>)
    ensures
        r is Ok <==> spec_targets_ok(target_artifacts@),
        r matches Ok(ps) ==> spec_is_placements(ps@, target_artifacts@),
        r matches Err(e) ==> e matches Error::UnknownTarget(t) && spec_abi_of(t@) is None && (
        exists|i: int|
            0 <= i < target_artifacts@.len() && (#[trigger] target_artifacts@[i].0)@ == t@),
{
    let n = target_artifacts.len();
    let mut out: Vec<Placement> = Vec::new();
    let mut i: usize = 0;
    while i < n
        invariant
            n == target_artifacts@.len(),
            i <= n,
            out@.len() == i,
            forall|j: int|
                0 <= j < i ==> spec_abi_of(#[trigger] target_artifacts@[j].0@) is Some,
            forall|j: int|
                0 <= j < i ==> {
                    &&& Some((#[trigger] out@[j]).abi@) == spec_abi_of(target_artifacts@[j].0@)
                    &&& out@[j].dir@ == "jniLibs/"@ + out@[j].abi@
                    &&& out@[j].file_name@ == "libmain.so"@
                    &&& out@[j].source@ == target_artifacts@[j].1@
                },
        decreases n - i,
    {
        let triple = &target_artifacts[i].0;
        match get_target_android_name(triple.as_str()) {
            Ok(abi) => {
                let dir = "jniLibs/".to_owned().concat(abi);
                out.push(
                    Placement {
                        abi: abi.to_owned(),
                        dir,
                        file_name: "libmain.so".to_owned(),
                        source: target_artifacts[i].1.clone(),
                    },
                );
            },
            Err(e) => {
                proof {
                    assert(spec_abi_of(target_artifacts@[i as int].0@) is None);
                }
                return Err(e);
            },
        }
        i += 1;
    }
    Ok(out)
}

} // verus!
