//! Decimal text: parsing a port number from command-line text, and
//! rendering integers as decimal text (for the time-derived call identifier
//! and for diagnostics).
use vstd::prelude::*;

verus! {

/// A decimal digit.
pub open spec fn is_digit(c: char) -> bool {
    ('0' as u32) <= (c as u32) && (c as u32) <= ('9' as u32)
}

/// The numeric value of a decimal digit.
pub open spec fn digit_val(c: char) -> int {
    (c as u32) - ('0' as u32)
}

/// Whether the text consists of decimal digits only.
pub open spec fn all_digits(s: Seq<char>) -> bool {
    forall|i: int| 0 <= i < s.len() ==> is_digit(#[trigger] s[i])
}

/// The value of a run of decimal digits.
pub open spec fn dec_val(s: Seq<char>) -> int
    decreases s.len(),
{
    if s.len() == 0 {
        0
    } else {
        dec_val(s.drop_last()) * 10 + digit_val(s.last())
    }
}

/// The integer a text denotes: an optional sign followed by at least one
/// decimal digit and nothing else, as the standard integer parser accepts.
pub open spec fn int_text_val(s: Seq<char>) -> Option<int> {
    if s.len() > 0 && (s[0] == '+' || s[0] == '-') {
        if s.len() > 1 && all_digits(s.subrange(1, s.len() as int)) {
            if s[0] == '-' {
                Some(-dec_val(s.subrange(1, s.len() as int)))
            } else {
                Some(dec_val(s.subrange(1, s.len() as int)))
            }
        } else {
            None
        }
    } else {
        if s.len() > 0 && all_digits(s) {
            Some(dec_val(s))
        } else {
            None
        }
    }
}

/// The character of a decimal digit value.
pub open spec fn digit_char(d: int) -> char {
    ((48 + d) as u8) as char
}

/// The decimal rendering of a non-negative integer, without leading zeros.
pub open spec fn spec_udec(n: int) -> Seq<char>
    decreases n,
{
    if n < 10 {
        seq![digit_char(n)]
    } else {
        spec_udec(n / 10) + seq![digit_char(n % 10)]
    }
}

/// The decimal rendering of an integer, with a sign when negative.
pub open spec fn spec_idec(v: int) -> Seq<char> {
    if v < 0 {
        seq!['-'] + spec_udec(-v)
    } else {
        spec_udec(v)
    }
}

/// The message for text that does not denote a port number at all.
pub open spec fn spec_not_a_port_msg(s: Seq<char>) -> Seq<char> {
    "`"@ + s + "` isn't a port number"@
}

/// The message for a number outside the valid port range.
pub open spec fn spec_out_of_range_msg(v: int) -> Seq<char> {
    "Port "@ + spec_idec(v) + " not in range 0-65535"@
}

/// What parsing a port from text yields: the value when the text denotes an
/// integer in [0, 65535]; otherwise the error naming what is wrong. Text
/// that denotes no integer at all, or one outside the machine's signed
/// 32-bit range, is no port number; an integer in that range but outside
/// [0, 65535] is out of range.
pub open spec fn spec_parse_port(s: Seq<char>) -> Result<i32, Seq<char>> {
    match int_text_val(s) {
        Some(v) => if !(-2147483648 <= v <= 2147483647) {
            Err(spec_not_a_port_msg(s))
        } else if !(0 <= v <= 65535) {
            Err(spec_out_of_range_msg(v))
        } else {
            Ok(v as i32)
        },
        None => Err(spec_not_a_port_msg(s)),
    }
}

/// Whether the character is a decimal digit.
fn is_digit_char(c: char) -> (r: bool)
    ensures
        r == is_digit(c),
{
    '0' <= c && c <= '9'
}

/// Appends the decimal rendering of `n` to the text.
pub fn push_decimal(s: &mut String, n: u64)
    ensures
        final(s)@ == old(s)@ + spec_udec(n as int),
    decreases n,
{
    if n >= 10 {
        push_decimal(s, n / 10);
    }
    let ghost before = s@;
    let d = n % 10;
    match d {
        0 => s.append("0"),
        1 => s.append("1"),
        2 => s.append("2"),
        3 => s.append("3"),
        4 => s.append("4"),
        5 => s.append("5"),
        6 => s.append("6"),
        7 => s.append("7"),
        8 => s.append("8"),
        9 => s.append("9"),
        _ => s.append("9"),
    }
    proof {
        reveal_strlit("0");
        reveal_strlit("1");
        reveal_strlit("2");
        reveal_strlit("3");
        reveal_strlit("4");
        reveal_strlit("5");
        reveal_strlit("6");
        reveal_strlit("7");
        reveal_strlit("8");
        reveal_strlit("9");
        assert(s@ =~= before + seq![digit_char(d as int)]);
        assert(s@ =~= old(s)@ + spec_udec(n as int));
    }
}

/// The decimal rendering of an unsigned value, as the call identifier and
/// diagnostics need it.
pub fn u64_to_string(n: u64) -> (s: String)
    ensures
        s@ == spec_udec(n as int),
{
    let mut s = String::new();
    push_decimal(&mut s, n);
    proof {
        assert(s@ =~= spec_udec(n as int));
    }
    s
}

/// Builds the message for text that denotes no port number.
fn not_a_port_message(s: &str) -> (m: String)
    ensures
        m@ == spec_not_a_port_msg(s@),
{
    let mut m = "`".to_owned();
    m.append(s);
    m.append("` isn't a port number");
    m
}

/// Builds the message for a number outside the valid port range.
fn out_of_range_message(v: i64) -> (m: String)
    requires
        -2147483648 <= v <= 2147483647,
    ensures
        m@ == spec_out_of_range_msg(v as int),
{
    let mut m = "Port ".to_owned();
    let ghost prefix = m@;
    if v < 0 {
        m.append("-");
        let ghost with_sign = m@;
        push_decimal(&mut m, (-v) as u64);
        proof {
            reveal_strlit("-");
            assert(with_sign =~= prefix + seq!['-']);
            assert(m@ =~= prefix + spec_idec(v as int));
        }
    } else {
        push_decimal(&mut m, v as u64);
    }
    m.append(" not in range 0-65535");
    m
}

/// Parses the given text as a port number, accepting exactly the integers
/// in [0, 65535] and reporting in the error what was wrong with the rest.
pub fn parse_port(s: &str) -> (r: Result<i32, String>)
    ensures
        ({
            match (r, spec_parse_port(s@)) {
                (Ok(p), Ok(sp)) => p == sp,
                (Err(e), Err(se)) => e@ == se,
                _ => false,
            }
        }),
{
    let n = s.unicode_len();
    let mut idx: usize = 0;
    let mut negative = false;
    if n > 0 {
        let c0 = s.get_char(0);
        if c0 == '+' {
            idx = 1;
        } else if c0 == '-' {
            idx = 1;
            negative = true;
        }
    }
    if idx >= n {
        // empty text, or a sign with no digits
        return Err(not_a_port_message(s));
    }
    let ghost digits = s@.subrange(idx as int, n as int);
    let mut acc: u64 = 0;
    let mut overflow = false;
    let mut j = idx;
    while j < n
        invariant
            n == s@.len(),
            idx <= j <= n,
            idx <= 1,
            idx < n,
            idx == 1 ==> (s@[0] == '+' || s@[0] == '-'),
            idx == 0 && n > 0 ==> (s@[0] != '+' && s@[0] != '-'),
            negative <==> (idx == 1 && s@[0] == '-'),
            digits == s@.subrange(idx as int, n as int),
            all_digits(s@.subrange(idx as int, j as int)),
            !overflow ==> acc == dec_val(s@.subrange(idx as int, j as int)) && acc <= 2147483648,
            overflow ==> dec_val(s@.subrange(idx as int, j as int)) > 2147483648,
        decreases n - j,
    {
        let c = s.get_char(j);
        if !is_digit_char(c) {
            proof {
                assert(digits[j - idx] == s@[j as int]);
                assert(!all_digits(digits));
                if idx == 0 {
                    assert(s@.subrange(0, n as int) =~= s@);
                }
                assert(int_text_val(s@) is None);
            }
            return Err(not_a_port_message(s));
        }
        let d: u64 = (c as u32 - 48) as u64;
        let ghost prev = s@.subrange(idx as int, j as int);
        let ghost cur = s@.subrange(idx as int, j as int + 1);
        proof {
            assert(cur.drop_last() =~= prev);
            assert(cur.last() == s@[j as int]);
            assert(dec_val(cur) == dec_val(prev) * 10 + digit_val(s@[j as int]));
        }
        if !overflow {
            let t = acc * 10 + d;
            if t > 2147483648 {
                overflow = true;
            } else {
                acc = t;
            }
        } else {
            proof {
                assert(dec_val(cur) >= dec_val(prev) * 10);
            }
        }
        j = j + 1;
    }
    proof {
        if idx == 0 {
            assert(s@.subrange(0, n as int) =~= s@);
        } else {
            assert(s@.subrange(1, n as int) == digits);
        }
        assert(int_text_val(s@) == Some(if negative {
            -dec_val(digits)
        } else {
            dec_val(digits)
        }));
    }
    if overflow {
        // beyond the signed 32-bit range in either direction
        return Err(not_a_port_message(s));
    }
    if !negative && acc > 2147483647 {
        return Err(not_a_port_message(s));
    }
    let v: i64 = if negative {
        -(acc as i64)
    } else {
        acc as i64
    };
    if v < 0 || v > 65535 {
        return Err(out_of_range_message(v));
    }
    Ok(v as i32)
}

} // verus!
