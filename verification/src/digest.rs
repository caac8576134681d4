//! Digest authentication: the challenge-response hash computed from the
//! credentials, the server-supplied realm and nonce, and the request
//! method and URI. The scheme is the single-round HTTP-digest style:
//! `hash(hash(user:realm:password) : nonce : hash(method:uri))`, with each
//! stage rendered as lowercase hexadecimal.
use vstd::prelude::*;
use crate::SipCallData;

verus! {

/// The 32-digit lowercase hexadecimal rendering of the MD5 digest of a
/// text's bytes. The algorithm itself is not modelled; this name stands for
/// the function that `md5::compute` followed by lower-hex formatting
/// implements, a function of the input text alone.
pub uninterp spec fn md5_hex(s: Seq<char>) -> Seq<char>;

/// A lowercase hexadecimal digit.
pub open spec fn is_hex_digit(c: char) -> bool {
    (('0' as u32) <= (c as u32) && (c as u32) <= ('9' as u32)) || (('a' as u32) <= (c as u32)
        && (c as u32) <= ('f' as u32))
}

/// First hash stage: `hash(username ":" realm ":" password)`.
pub open spec fn spec_credential_hash(
    username: Seq<char>,
    realm: Seq<char>,
    password: Seq<char>,
) -> Seq<char> {
    md5_hex(username + ":"@ + realm + ":"@ + password)
}

/// Second hash stage: `hash(method ":" uri)`.
pub open spec fn spec_method_hash(method: Seq<char>, uri: Seq<char>) -> Seq<char> {
    md5_hex(method + ":"@ + uri)
}

/// Combining stage: `hash(credentialHash ":" nonce ":" methodHash)`.
pub open spec fn spec_digest(
    username: Seq<char>,
    password: Seq<char>,
    realm: Seq<char>,
    nonce: Seq<char>,
    method: Seq<char>,
    uri: Seq<char>,
) -> Seq<char> {
    md5_hex(
        spec_credential_hash(username, realm, password) + ":"@ + nonce + ":"@ + spec_method_hash(
            method,
            uri,
        ),
    )
}

/// Relies on `md5::compute` and the `LowerHex` formatting of `md5::Digest`:
/// the MD5 digest of the input's bytes written as exactly 32 lowercase
/// hexadecimal digits, depending on the input text alone.
#[verifier::external_body]
fn md5_hex_string(input: &str) -> (r: String)
    ensures
        r@ == md5_hex(input@),
        r@.len() == 32,
        forall|i: int| 0 <= i < r@.len() ==> is_hex_digit(#[trigger] r@[i]),
{
    format!("{:x}", md5::compute(input))
}

/// Computes the digest-authentication response for one request.
pub fn compute(
    username: &str,
    password: &str,
    realm: &str,
    nonce: &str,
    method: &str,
    uri: &str,
) -> (r: String)
    ensures
        r@ == spec_digest(username@, password@, realm@, nonce@, method@, uri@),
        r@.len() == 32,
        forall|i: int| 0 <= i < r@.len() ==> is_hex_digit(#[trigger] r@[i]),
{
    let mut a1_input = username.to_owned();
    a1_input.append(":");
    a1_input.append(realm);
    a1_input.append(":");
    a1_input.append(password);
    let a1 = md5_hex_string(a1_input.as_str());

    let mut a2_input = method.to_owned();
    a2_input.append(":");
    a2_input.append(uri);
    let a2 = md5_hex_string(a2_input.as_str());

    let mut combined = a1;
    combined.append(":");
    combined.append(nonce);
    combined.append(":");
    combined.append(a2.as_str());
    md5_hex_string(combined.as_str())
}

/// Computes the digest for the authenticated invite of one call: the
/// credentials come from the call data, the method is fixed to INVITE, and
/// realm and nonce come from the parsed challenge.
pub fn compute_digest(call_data: &SipCallData, uri: &String, auth: &(String, String)) -> (r:
    String)
    ensures
        r@ == spec_digest(
            call_data.username@,
            call_data.password@,
            auth.0@,
            auth.1@,
            "INVITE"@,
            uri@,
        ),
        r@.len() == 32,
        forall|i: int| 0 <= i < r@.len() ==> is_hex_digit(#[trigger] r@[i]),
{
    compute(
        call_data.username.as_str(),
        call_data.password.as_str(),
        auth.0.as_str(),
        auth.1.as_str(),
        "INVITE",
        uri.as_str(),
    )
}

/// Law: the digest is deterministic — it is a function of the six inputs
/// alone, so identical inputs always yield the identical digest. Its fixed
/// 32-digit lowercase-hexadecimal shape is stated by `compute` itself.
pub proof fn lemma_compute_deterministic(
    u1: Seq<char>,
    p1: Seq<char>,
    r1: Seq<char>,
    n1: Seq<char>,
    m1: Seq<char>,
    uri1: Seq<char>,
    u2: Seq<char>,
    p2: Seq<char>,
    r2: Seq<char>,
    n2: Seq<char>,
    m2: Seq<char>,
    uri2: Seq<char>,
)
    requires
        u1 == u2,
        p1 == p2,
        r1 == r2,
        n1 == n2,
        m1 == m2,
        uri1 == uri2,
    ensures
        spec_digest(u1, p1, r1, n1, m1, uri1) == spec_digest(u2, p2, r2, n2, m2, uri2),
{
}

} // verus!
