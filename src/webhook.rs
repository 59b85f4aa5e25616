//! Admission of webhook deliveries and what is reported back on them.
use vstd::prelude::*;
use hmac::Mac;
use vstd::string::StringSliceAdditionalSpecFns;
use crate::outcome::{count_succeeded, BuildOutcome, OverallStatus, status_of};
use crate::text::{decimal, equals, hex_lower, hex_string, push_char, push_decimal};

verus! {

/// What HMAC-SHA256 gives for `key` and `message`; it depends on them alone.
pub uninterp spec fn hmac_sha256(key: Seq<u8>, message: Seq<u8>) -> Seq<u8>;

/// Relies on `hmac::Hmac<sha2::Sha256>`: `new_from_slice` takes a key of any
/// length (it returns `Ok` unconditionally), and `finalize` gives the tag of
/// the message.
#[verifier::external_body]
fn hmac_sha256_tag(key: &[u8], message: &[u8]) -> (r: Option<Vec<u8>>)
    ensures
        r is Some,
        r matches Some(t) ==> t@ == hmac_sha256(key@, message@),
{
    match hmac::Hmac::<sha2::Sha256>::new_from_slice(key) {
        Ok(mut mac) => {
            mac.update(message);
            Some(mac.finalize().into_bytes().to_vec())
        },
        Err(_) => None,
    }
}

/// The signature header value that a tag stands for: `sha256=<hex>`.
pub open spec fn signature_text(tag: Seq<u8>) -> Seq<char> {
    "sha256="@ + hex_lower(tag)
}

/// Whether `signature` is the header value of `tag`.
pub fn signature_matches(signature: &str, tag: &[u8]) -> (r: bool)
    ensures
        r == (signature@ == signature_text(tag@)),
{
    let mut expected = "sha256=".to_owned();
    let hex = hex_string(tag);
    expected.append(hex.as_str());
    equals(signature, expected.as_str())
}

/// Whether `signature` signs `body` under the webhook secret.
pub fn verify_signature(signature: &str, body: &[u8], secret: &str) -> (r: bool)
    ensures
        r == (signature@ == signature_text(hmac_sha256(secret.spec_bytes(), body@))),
{
    let tag = hmac_sha256_tag(secret.as_bytes(), body).unwrap();
    signature_matches(signature, tag.as_slice())
}

/// What to do with a webhook delivery.
#[derive(Clone, Copy, Debug, PartialEq, Eq, Structural)]
pub enum Admission {
    /// Not a push: acknowledged and otherwise ignored.
    Ignore,
    /// The signature does not match the body.
    Unauthorized,
    /// A push to build.
    Build,
}

pub open spec fn is_push(event_type: Option<&str>) -> bool {
    event_type matches Some(t) && t@ == "push"@
}

/// A delivery without a signature is accepted; one with a signature must
/// carry the signature of its body under the secret.
pub open spec fn signature_accepted(signature: Option<&str>, body: Seq<u8>, secret: Seq<u8>) -> bool {
    match signature {
        Some(s) => s@ == signature_text(hmac_sha256(secret, body)),
        None => true,
    }
}

/// Admits a delivery: only pushes are built, and a delivery that carries a
/// signature must carry the right one.
pub fn admission(event_type: Option<&str>, signature: Option<&str>, body: &[u8], secret: &str) -> (r: Admission)
    ensures
        !is_push(event_type) ==> r == Admission::Ignore,
        is_push(event_type) ==> (r == Admission::Unauthorized <==> !signature_accepted(
            signature,
            body@,
            secret.spec_bytes(),
        )),
        is_push(event_type) ==> r != Admission::Ignore,
{
    let push = match event_type {
        Some(t) => equals(t, "push"),
        None => false,
    };
    if !push {
        return Admission::Ignore;
    }
    match signature {
        Some(s) => if verify_signature(s, body, secret) {
            Admission::Build
        } else {
            Admission::Unauthorized
        },
        None => Admission::Build,
    }
}

/// `s` with every occurrence of a non-empty `pat` replaced by `rep`, scanning
/// from the left without overlaps.
pub open spec fn replace_all(s: Seq<char>, pat: Seq<char>, rep: Seq<char>) -> Seq<char>
    decreases s.len(),
{
    if s.len() == 0 {
        s
    } else if 0 < pat.len() <= s.len() && s.subrange(0, pat.len() as int) == pat {
        rep + replace_all(s.subrange(pat.len() as int, s.len() as int), pat, rep)
    } else {
        seq![s[0]] + replace_all(s.drop_first(), pat, rep)
    }
}

/// Replaces every occurrence of a non-empty `pat` in `s` by `rep`.
pub fn replace(s: &str, pat: &str, rep: &str) -> (r: String)
    requires
        pat@.len() > 0,
    ensures
        r@ == replace_all(s@, pat@, rep@),
{
    let n = s.unicode_len();
    let m = pat.unicode_len();
    let mut out = String::new();
    let mut i: usize = 0;
    assert(s@.subrange(0, n as int) =~= s@);
    assert(out@ + replace_all(s@, pat@, rep@) =~= replace_all(s@, pat@, rep@));
    while i < n
        invariant
            0 <= i <= n,
            n == s@.len(),
            m == pat@.len(),
            m > 0,
            out@ + replace_all(s@.subrange(i as int, n as int), pat@, rep@) == replace_all(s@, pat@, rep@),
        decreases n - i,
    {
        let ghost rest = s@.subrange(i as int, n as int);
        if m <= n - i && equals(s.substring_char(i, i + m), pat) {
            proof {
                assert(rest.subrange(0, m as int) =~= s@.subrange(i as int, i + m));
                assert(rest.subrange(m as int, rest.len() as int) =~= s@.subrange(i + m, n as int));
                assert(out@ + rep@ + replace_all(s@.subrange(i + m, n as int), pat@, rep@) =~= out@
                    + replace_all(rest, pat@, rep@));
            }
            out.append(rep);
            i = i + m;
        } else {
            let c = s.get_char(i);
            let ghost before = out@;
            push_char(&mut out, c);
            proof {
                if m <= n - i {
                    assert(rest.subrange(0, m as int) =~= s@.subrange(i as int, i + m));
                }
                assert(rest.drop_first() =~= s@.subrange(i + 1, n as int));
                assert(rest[0] == c);
                assert(out@ + replace_all(s@.subrange(i + 1, n as int), pat@, rep@) =~= before
                    + replace_all(rest, pat@, rep@));
            }
            i = i + 1;
        }
    }
    assert(s@.subrange(n as int, n as int) =~= Seq::<char>::empty());
    assert(out@ =~= out@ + replace_all(s@.subrange(n as int, n as int), pat@, rep@));
    out
}

pub open spec fn authenticated_clone_url_of(url: Seq<char>, token: Seq<char>) -> Seq<char> {
    replace_all(url, "https://"@, "https://x-access-token:"@ + token + seq!['@'])
}

/// The clone URL of a repository with an installation token as credentials.
pub fn authenticated_clone_url(clone_url: &str, token: &str) -> (r: String)
    ensures
        r@ == authenticated_clone_url_of(clone_url@, token@),
{
    let mut credentials = "https://x-access-token:".to_owned();
    credentials.append(token);
    push_char(&mut credentials, '@');
    assert(credentials@ =~= "https://x-access-token:"@ + token@ + seq!['@']);
    proof {
        reveal_strlit("https://");
    }
    replace(clone_url, "https://", credentials.as_str())
}

/// Conclusion of the check run for a build: anything short of full success
/// is reported as a failure.
pub open spec fn conclusion_of(status: OverallStatus) -> Seq<char> {
    if status == OverallStatus::Success {
        "success"@
    } else {
        "failure"@
    }
}

pub fn conclusion(status: OverallStatus) -> (r: &'static str)
    ensures
        r@ == conclusion_of(status),
{
    match status {
        OverallStatus::Success => "success",
        _ => "failure",
    }
}

/// Summary of the check run for a build with `failed` failed functions.
pub open spec fn summary_of(status: OverallStatus, failed: nat) -> Seq<char> {
    if status == OverallStatus::Success {
        "Functions compiled successfully!"@
    } else {
        "Build failed: "@ + decimal(failed) + " function(s) failed to build"@
    }
}

/// Summary of the check run for a build.
pub fn summary(outcome: &BuildOutcome) -> (r: String)
    requires
        outcome.overall_status == status_of(outcome.results@),
    ensures
        r@ == summary_of(
            outcome.overall_status,
            (outcome.results@.len() - count_succeeded(outcome.results@, outcome.results@.len() as int)) as nat,
        ),
{
    if outcome.overall_status == OverallStatus::Success {
        return "Functions compiled successfully!".to_owned();
    }
    let mut failed: usize = 0;
    let mut i: usize = 0;
    while i < outcome.results.len()
        invariant
            0 <= i <= outcome.results@.len(),
            failed == i - count_succeeded(outcome.results@, i as int),
            failed <= i,
        decreases outcome.results@.len() - i,
    {
        if !outcome.results[i].outcome.is_succeeded() {
            failed = failed + 1;
        }
        i = i + 1;
    }
    let mut text = "Build failed: ".to_owned();
    push_decimal(&mut text, failed as u64);
    text.append(" function(s) failed to build");
    text
}

/// HTTP status answered to a push delivery once its build is over.
pub fn response_status(status: OverallStatus) -> (r: u16)
    ensures
        r == (if status == OverallStatus::Success { 200u16 } else { 500u16 }),
{
    match status {
        OverallStatus::Success => 200,
        _ => 500,
    }
}

} // verus!
