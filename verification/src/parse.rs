//! Response parser: extracts the authentication challenge (realm, nonce)
//! from a raw server response. The response bytes are decoded as UTF-8 text
//! and scanned for the first place where a `realm="...", nonce="..."`
//! pattern matches: the realm runs from its opening quote to the next quote
//! and may not span a line break, and the nonce is the longest run of
//! uppercase-hexadecimal digits, closed by a quote.
use vstd::prelude::*;
use vstd::utf8::{valid_utf8, decode_utf8};
use crate::{AuthChallenge, SipError};

verus! {

/// The literal that opens the challenge pattern: `realm="`.
pub open spec fn realm_marker() -> Seq<char> {
    seq!['r', 'e', 'a', 'l', 'm', '=', '"']
}

/// The literal between the two captures: the realm's closing quote,
/// `, nonce=` and the nonce's opening quote.
pub open spec fn nonce_marker() -> Seq<char> {
    seq!['"', ',', ' ', 'n', 'o', 'n', 'c', 'e', '=', '"']
}

/// An uppercase hexadecimal digit, the only characters a nonce may hold.
pub open spec fn is_hex_upper(c: char) -> bool {
    (('0' as u32) <= (c as u32) && (c as u32) <= ('9' as u32)) || (('A' as u32) <= (c as u32)
        && (c as u32) <= ('F' as u32))
}

/// The position of the first quote at or after `i`, or the text's length if
/// there is none.
pub open spec fn quote_end(t: Seq<char>, i: int) -> int
    decreases t.len() - i,
    when 0 <= i <= t.len()
{
    if i >= t.len() {
        t.len() as int
    } else if t[i] == '"' {
        i
    } else {
        quote_end(t, i + 1)
    }
}

/// The position right after the longest run of uppercase-hexadecimal digits
/// starting at `i`.
pub open spec fn hex_run_end(t: Seq<char>, i: int) -> int
    decreases t.len() - i,
    when 0 <= i <= t.len()
{
    if i >= t.len() {
        t.len() as int
    } else if is_hex_upper(t[i]) {
        hex_run_end(t, i + 1)
    } else {
        i
    }
}

/// Whether the challenge pattern matches at position `i` of the text: the
/// realm marker, a realm capture free of quotes and line breaks, the nonce
/// marker, a run of uppercase-hexadecimal digits, and a closing quote.
/// Either capture may be empty here; emptiness is reported as its own error.
pub open spec fn challenge_match_at(t: Seq<char>, i: int) -> bool {
    &&& 0 <= i
    &&& i + 7 <= t.len()
    &&& t.subrange(i, i + 7) == realm_marker()
    &&& ({
        let b = quote_end(t, i + 7);
        &&& b + 10 <= t.len()
        &&& (forall|k: int| i + 7 <= k < b ==> #[trigger] t[k] != '\n')
        &&& t.subrange(b, b + 10) == nonce_marker()
        &&& ({
            let d = hex_run_end(t, b + 10);
            &&& d < t.len()
            &&& t[d] == '"'
        })
    })
}

/// The first position at or after `i` where the challenge pattern matches.
pub open spec fn first_match_from(t: Seq<char>, i: int) -> Option<int>
    decreases t.len() - i,
    when 0 <= i <= t.len()
{
    if i >= t.len() {
        None
    } else if challenge_match_at(t, i) {
        Some(i)
    } else {
        first_match_from(t, i + 1)
    }
}

/// What parsing a decoded response text yields: the (realm, nonce) captures
/// of the first pattern match, or the error naming what is missing.
pub open spec fn spec_parse_challenge(t: Seq<char>) -> Result<(Seq<char>, Seq<char>), SipError> {
    match first_match_from(t, 0) {
        None => Err(SipError::ChallengeNotFound),
        Some(i) => {
            let b = quote_end(t, i + 7);
            let d = hex_run_end(t, b + 10);
            if b == i + 7 {
                Err(SipError::RealmMissing)
            } else if d == b + 10 {
                Err(SipError::NonceMissing)
            } else {
                Ok((t.subrange(i + 7, b), t.subrange(b + 10, d)))
            }
        },
    }
}

/// What parsing raw response bytes yields: the bytes must decode as UTF-8
/// text, which is then scanned for the challenge pattern.
pub open spec fn spec_parse_response(bytes: Seq<u8>) -> Result<(Seq<char>, Seq<char>), SipError> {
    if !valid_utf8(bytes) {
        Err(SipError::InvalidEncoding)
    } else {
        spec_parse_challenge(decode_utf8(bytes))
    }
}

/// Relies on `core::str::from_utf8`: it succeeds exactly on valid UTF-8 and
/// returns the text those bytes encode.
#[verifier::external_body]
fn decode_text(bytes: &[u8]) -> (r: Option<&str>)
    ensures
        r is Some <==> valid_utf8(bytes@),
        r is Some ==> r->0@ == decode_utf8(bytes@),
{
    core::str::from_utf8(bytes).ok()
}

/// Whether the realm marker stands at position `i` of the text.
fn realm_marker_at(s: &str, i: usize, n: usize) -> (r: bool)
    requires
        n == s@.len(),
        i + 7 <= n,
    ensures
        r == (s@.subrange(i as int, i as int + 7) == realm_marker()),
{
    let r = s.get_char(i) == 'r' && s.get_char(i + 1) == 'e' && s.get_char(i + 2) == 'a'
        && s.get_char(i + 3) == 'l' && s.get_char(i + 4) == 'm' && s.get_char(i + 5) == '='
        && s.get_char(i + 6) == '"';
    proof {
        let sub = s@.subrange(i as int, i as int + 7);
        if r {
            assert(sub =~= realm_marker());
        }
        if sub == realm_marker() {
            assert(s@[i as int] == sub[0]);
            assert(s@[i as int + 1] == sub[1]);
            assert(s@[i as int + 2] == sub[2]);
            assert(s@[i as int + 3] == sub[3]);
            assert(s@[i as int + 4] == sub[4]);
            assert(s@[i as int + 5] == sub[5]);
            assert(s@[i as int + 6] == sub[6]);
        }
    }
    r
}

/// Whether the nonce marker stands at position `b` of the text.
fn nonce_marker_at(s: &str, b: usize, n: usize) -> (r: bool)
    requires
        n == s@.len(),
        b + 10 <= n,
    ensures
        r == (s@.subrange(b as int, b as int + 10) == nonce_marker()),
{
    let r = s.get_char(b) == '"' && s.get_char(b + 1) == ',' && s.get_char(b + 2) == ' '
        && s.get_char(b + 3) == 'n' && s.get_char(b + 4) == 'o' && s.get_char(b + 5) == 'n'
        && s.get_char(b + 6) == 'c' && s.get_char(b + 7) == 'e' && s.get_char(b + 8) == '='
        && s.get_char(b + 9) == '"';
    proof {
        let sub = s@.subrange(b as int, b as int + 10);
        if r {
            assert(sub =~= nonce_marker());
        }
        if sub == nonce_marker() {
            assert(s@[b as int] == sub[0]);
            assert(s@[b as int + 1] == sub[1]);
            assert(s@[b as int + 2] == sub[2]);
            assert(s@[b as int + 3] == sub[3]);
            assert(s@[b as int + 4] == sub[4]);
            assert(s@[b as int + 5] == sub[5]);
            assert(s@[b as int + 6] == sub[6]);
            assert(s@[b as int + 7] == sub[7]);
            assert(s@[b as int + 8] == sub[8]);
            assert(s@[b as int + 9] == sub[9]);
        }
    }
    r
}

/// Finds the first quote at or after `from`.
fn find_quote(s: &str, from: usize, n: usize) -> (r: usize)
    requires
        n == s@.len(),
        from <= n,
    ensures
        r == quote_end(s@, from as int),
        from <= r <= n,
{
    let mut j = from;
    while j < n
        invariant
            n == s@.len(),
            from <= j <= n,
            quote_end(s@, from as int) == quote_end(s@, j as int),
        decreases n - j,
    {
        if s.get_char(j) == '"' {
            return j;
        }
        j = j + 1;
    }
    j
}

/// Whether the character is an uppercase hexadecimal digit.
fn is_hex_upper_char(c: char) -> (r: bool)
    ensures
        r == is_hex_upper(c),
{
    ('0' <= c && c <= '9') || ('A' <= c && c <= 'F')
}

/// Finds the end of the run of uppercase-hexadecimal digits starting at
/// `from`.
fn find_hex_run_end(s: &str, from: usize, n: usize) -> (r: usize)
    requires
        n == s@.len(),
        from <= n,
    ensures
        r == hex_run_end(s@, from as int),
        from <= r <= n,
{
    let mut j = from;
    while j < n
        invariant
            n == s@.len(),
            from <= j <= n,
            hex_run_end(s@, from as int) == hex_run_end(s@, j as int),
        decreases n - j,
    {
        if !is_hex_upper_char(s.get_char(j)) {
            return j;
        }
        j = j + 1;
    }
    j
}

/// Tries the challenge pattern at position `i`; on a match, hands back the
/// end of the realm capture and the end of the nonce capture.
fn match_at(s: &str, i: usize, n: usize) -> (r: Option<(usize, usize)>)
    requires
        n == s@.len(),
        i <= n,
    ensures
        r is Some <==> challenge_match_at(s@, i as int),
        r is Some ==> {
            let (b, d) = r->0;
            &&& b == quote_end(s@, i as int + 7)
            &&& d == hex_run_end(s@, b as int + 10)
            &&& i + 7 <= b
            &&& b + 10 <= d
            &&& d < n
        },
{
    if n - i < 7 {
        return None;
    }
    if !realm_marker_at(s, i, n) {
        return None;
    }
    let b = find_quote(s, i + 7, n);
    if n - b < 10 {
        return None;
    }
    // the realm capture may not span a line break
    let mut k = i + 7;
    while k < b
        invariant
            n == s@.len(),
            i + 7 <= k <= b,
            b + 10 <= n,
            b as int == quote_end(s@, i as int + 7),
            s@.subrange(i as int, i as int + 7) == realm_marker(),
            forall|m: int| i + 7 <= m < k ==> s@[m] != '\n',
        decreases b - k,
    {
        if s.get_char(k) == '\n' {
            proof {
                assert(exists|m: int| i as int + 7 <= m < b as int && s@[m] == '\n') by {
                    assert(s@[k as int] == '\n');
                }
                assert(!challenge_match_at(s@, i as int));
            }
            return None;
        }
        k = k + 1;
    }
    if !nonce_marker_at(s, b, n) {
        return None;
    }
    let d = find_hex_run_end(s, b + 10, n);
    if d == n {
        return None;
    }
    if s.get_char(d) == '"' {
        Some((b, d))
    } else {
        None
    }
}

/// Extracts the challenge from decoded response text: the (realm, nonce)
/// captures of the first match of the challenge pattern. Fails with
/// `ChallengeNotFound` when the pattern is absent, and with `RealmMissing`
/// or `NonceMissing` when the pattern matches but that capture is empty.
pub fn parse_challenge(text: &str) -> (r: Result<AuthChallenge, SipError>)
    ensures
        ({
            match (r, spec_parse_challenge(text@)) {
                (Ok(c), Ok(p)) => c.realm@ == p.0 && c.nonce@ == p.1,
                (Err(e), Err(se)) => e == se,
                _ => false,
            }
        }),
{
    let n = text.unicode_len();
    let mut i: usize = 0;
    while i < n
        invariant
            n == text@.len(),
            i <= n,
            first_match_from(text@, 0) == first_match_from(text@, i as int),
        decreases n - i,
    {
        match match_at(text, i, n) {
            Some((b, d)) => {
                if b == i + 7 {
                    return Err(SipError::RealmMissing);
                }
                if d == b + 10 {
                    return Err(SipError::NonceMissing);
                }
                let realm = text.substring_char(i + 7, b).to_owned();
                let nonce = text.substring_char(b + 10, d).to_owned();
                return Ok(AuthChallenge { realm, nonce });
            },
            None => {
                i = i + 1;
            },
        }
    }
    Err(SipError::ChallengeNotFound)
}

/// Extracts the challenge from raw response bytes: decodes them as UTF-8
/// text and scans that text for the challenge pattern. Fails with
/// `InvalidEncoding` when the bytes are not valid text.
pub fn parse_response(bytes: &[u8]) -> (r: Result<AuthChallenge, SipError>)
    ensures
        ({
            match (r, spec_parse_response(bytes@)) {
                (Ok(c), Ok(p)) => c.realm@ == p.0 && c.nonce@ == p.1,
                (Err(e), Err(se)) => e == se,
                _ => false,
            }
        }),
{
    match decode_text(bytes) {
        None => Err(SipError::InvalidEncoding),
        Some(text) => parse_challenge(text),
    }
}

} // verus!
