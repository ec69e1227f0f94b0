use vstd::prelude::*;
use vstd::string::StrSliceExecFns;

use crate::errors::Error;
use crate::BuildProfile;

verus! {

/// Lexicographic order on character sequences, by code point; the order in
/// which build-tools version directories compare.
pub open spec fn spec_lex_le(a: Seq<char>, b: Seq<char>) -> bool
    decreases a.len(),
{
    if a.len() == 0 {
        true
    } else if b.len() == 0 {
        false
    } else if a[0] == b[0] {
        spec_lex_le(a.skip(1), b.skip(1))
    } else {
        (a[0] as u32) < (b[0] as u32)
    }
}

/// The lexicographic order is reflexive.
pub proof fn lemma_lex_refl(a: Seq<char>)
    ensures
        spec_lex_le(a, a),
    decreases a.len(),
{
    if a.len() > 0 {
        lemma_lex_refl(a.skip(1));
    }
}

/// The lexicographic order is total.
pub proof fn lemma_lex_total(a: Seq<char>, b: Seq<char>)
    ensures
        spec_lex_le(a, b) || spec_lex_le(b, a),
    decreases a.len(),
{
    if a.len() > 0 && b.len() > 0 {
        if a[0] == b[0] {
            lemma_lex_total(a.skip(1), b.skip(1));
        } else {
            vstd::utf8::char_u32_cast(a[0], a[0] as u32);
            vstd::utf8::char_u32_cast(b[0], b[0] as u32);
            assert((a[0] as u32) != (b[0] as u32));
        }
    }
}

/// The lexicographic order is transitive.
pub proof fn lemma_lex_trans(a: Seq<char>, b: Seq<char>, c: Seq<char>)
    requires
        spec_lex_le(a, b),
        spec_lex_le(b, c),
    ensures
        spec_lex_le(a, c),
    decreases a.len(),
{
    if a.len() > 0 && b.len() > 0 && c.len() > 0 && a[0] == b[0] && b[0] == c[0] {
        lemma_lex_trans(a.skip(1), b.skip(1), c.skip(1));
    }
}

/// Whether `a` orders at or before `b` lexicographically.
pub fn lex_le(a: &str, b: &str) -> (r: bool)
    ensures
        r == spec_lex_le(a@, b@),
{
    let alen = a.unicode_len();
    let blen = b.unicode_len();
    let mut i: usize = 0;
    proof {
        assert(a@.skip(0) =~= a@);
        assert(b@.skip(0) =~= b@);
    }
    while i < alen && i < blen
        invariant
            alen == a@.len(),
            blen == b@.len(),
            i <= alen,
            i <= blen,
            spec_lex_le(a@, b@) == spec_lex_le(a@.skip(i as int), b@.skip(i as int)),
        decreases alen - i,
    {
        let ca = a.get_char(i);
        let cb = b.get_char(i);
        if ca != cb {
            proof {
                assert(a@.skip(i as int)[0] == ca);
                assert(b@.skip(i as int)[0] == cb);
            }
            return (ca as u32) < (cb as u32);
        }
        i += 1;
        proof {
            assert(a@.skip(i - 1).skip(1) =~= a@.skip(i as int));
            assert(b@.skip(i - 1).skip(1) =~= b@.skip(i as int));
        }
    }
    proof {
        if i == alen {
            assert(a@.skip(i as int).len() == 0);
        } else {
            assert(b@.skip(i as int).len() == 0);
            assert(a@.skip(i as int).len() > 0);
        }
    }
    alen <= blen
}

/// The lexicographically-highest installed build-tools version directory;
/// `None` when none is installed.
pub fn select_build_tools(versions: &Vec<String>) -> (r: Option<String>)
    ensures
        r is Some <==> versions@.len() > 0,
        r matches Some(m) ==> (exists|i: int|
            0 <= i < versions@.len() && (#[trigger] versions@[i])@ == m@) && (forall|i: int|
            0 <= i < versions@.len() ==> spec_lex_le((#[trigger] versions@[i])@, m@)),
{
    let n = versions.len();
    if n == 0 {
        return None;
    }
    let mut best: String = versions[0].clone();
    proof {
        lemma_lex_refl(versions@[0]@);
    }
    let mut i: usize = 1;
    while i < n
        invariant
            n == versions@.len(),
            1 <= i <= n,
            exists|j: int| 0 <= j < i && (#[trigger] versions@[j])@ == best@,
            forall|j: int| 0 <= j < i ==> spec_lex_le((#[trigger] versions@[j])@, best@),
        decreases n - i,
    {
        let better = !lex_le(versions[i].as_str(), best.as_str());
        if better {
            proof {
                lemma_lex_total(versions@[i as int]@, best@);
                assert(spec_lex_le(best@, versions@[i as int]@));
                assert forall|j: int| 0 <= j < i implies spec_lex_le(
                    (#[trigger] versions@[j])@,
                    versions@[i as int]@,
                ) by {
                    lemma_lex_trans(versions@[j]@, best@, versions@[i as int]@);
                }
            }
            best = versions[i].clone();
        }
        proof {
            lemma_lex_refl(versions@[i as int]@);
        }
        i += 1;
    }
    Some(best)
}

/// How the signing step obtains its keystore.
pub struct KeystorePlan {
    /// The supplied keystore file; `None` means the default keystore next to
    /// the unsigned package.
    pub key_file: Option<String>,
    pub key_pass: String,
    /// Whether a missing default keystore is generated before signing.
    pub generate_if_missing: bool,
}

/// File name of the default keystore, next to the unsigned package.
pub fn default_keystore_file() -> (r: &'static str)
    ensures
        r@ == "app-release.jks"@,
{
    "app-release.jks"
}

/// Decides the keystore for signing: a supplied keystore file demands its
/// password; with none supplied, the default keystore is used with the fixed
/// password and generated when missing.
pub fn keystore_plan(ks_file: Option<String>, ks_pass: Option<String>) -> (r: Result<
    KeystorePlan,
    Error,
>)
    ensures
        r is Err <==> (ks_file is Some && ks_pass is None),
        r matches Err(e) ==> e is MissingKeystorePassword,
        r matches Ok(p) ==> match ks_file {
            Some(f) => p.key_file == Some(f) && Some(p.key_pass) == ks_pass
                && !p.generate_if_missing,
            None => p.key_file is None && p.key_pass@ == "pass:android"@ && p.generate_if_missing,
        },
{
    match ks_file {
        Some(f) => match ks_pass {
            Some(pw) => Ok(
                KeystorePlan { key_file: Some(f), key_pass: pw, generate_if_missing: false },
            ),
            None => Err(Error::MissingKeystorePassword),
        },
        None => Ok(
            KeystorePlan {
                key_file: None,
                key_pass: "pass:android".to_owned(),
                generate_if_missing: true,
            },
        ),
    }
}

/// Whether the profile's build is followed by the signing step.
pub fn should_sign(profile: BuildProfile) -> (r: bool)
    ensures
        r <==> profile is Release,
{
    match profile {
        BuildProfile::Debug => false,
        BuildProfile::Release => true,
    }
}

/// Directory name of a profile's compiler output, under each target's build
/// tree.
pub fn profile_dir_name(profile: BuildProfile) -> (t: &'static str)
    ensures
        profile is Debug ==> t@ == "debug"@,
        profile is Release ==> t@ == "release"@,
{
    match profile {
        BuildProfile::Debug => "debug",
        BuildProfile::Release => "release",
    }
}

} // verus!
