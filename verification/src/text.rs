//! Text utilities: decimal number formatting and parsing, comma-joined lists,
//! and conversions between strings and character vectors.

use vstd::prelude::*;
use vstd::string::*;

verus! {

/// Whether `c` is an ASCII decimal digit.
pub open spec fn is_digit(c: char) -> bool {
    '0' <= c && c <= '9'
}

/// The numeric value of an ASCII decimal digit.
pub open spec fn digit_val(c: char) -> nat {
    ((c as u32) - 48) as nat
}

/// The ASCII decimal digit with value `d` (meaningful for `d < 10`).
pub open spec fn digit_char(d: nat) -> char {
    ((d + 48) as u32) as char
}

/// Whether every character of `s` is an ASCII decimal digit.
pub open spec fn all_digits(s: Seq<char>) -> bool {
    forall|i: int| 0 <= i < s.len() ==> is_digit(#[trigger] s[i])
}

/// The numeric value of a sequence of decimal digits, most significant first.
pub open spec fn dec_val(s: Seq<char>) -> nat
    decreases s.len(),
{
    if s.len() == 0 {
        0
    } else {
        dec_val(s.drop_last()) * 10 + digit_val(s.last())
    }
}

/// The decimal digit string of `n`, without leading zeros (just `"0"` for 0).
pub open spec fn dec_digits(n: nat) -> Seq<char>
    decreases n,
{
    if n < 10 {
        seq![digit_char(n)]
    } else {
        dec_digits(n / 10).push(digit_char(n % 10))
    }
}

/// Append the decimal digits of `n` to `out`.
fn push_dec_u16(n: u16, out: &mut Vec<char>)
    ensures
        final(out)@ == old(out)@ + dec_digits(n as nat),
    decreases n,
{
    if n < 10 {
        out.push((48 + (n as u8)) as char);
        assert(out@ =~= old(out)@ + dec_digits(n as nat));
    } else {
        push_dec_u16(n / 10, out);
        out.push((48 + ((n % 10) as u8)) as char);
        assert(out@ =~= old(out)@ + dec_digits(n as nat));
    }
}

/// Relies on std's `FromIterator` for `String` over characters: the resulting
/// string holds exactly the given characters in order.
#[verifier::external_body]
pub(crate) fn string_from_chars(v: &Vec<char>) -> (r: String)
    ensures
        r@ == v@,
{
    v.iter().collect()
}

/// Relies on std's `char::from_u32`: it returns `Some` exactly for Unicode
/// scalar values (not a surrogate, at most 0x10FFFF), and the returned
/// character has code point `v`.
#[verifier::external_body]
pub(crate) fn char_of_u32(v: u32) -> (r: Option<char>)
    ensures
        r == if v < 0xD800 || (0xDFFF < v && v <= 0x10FFFF) {
            Some(v as char)
        } else {
            None::<char>
        },
{
    char::from_u32(v)
}

/// Format `n` as its decimal digit string.
pub fn u16_to_string(n: u16) -> (r: String)
    ensures
        r@ == dec_digits(n as nat),
{
    let mut v: Vec<char> = Vec::new();
    push_dec_u16(n, &mut v);
    assert(v@ =~= dec_digits(n as nat));
    string_from_chars(&v)
}

/// Format `n` as its decimal digit string.
pub fn u8_to_string(n: u8) -> (r: String)
    ensures
        r@ == dec_digits(n as nat),
{
    u16_to_string(n as u16)
}

/// The characters of `s`, as a vector.
pub fn chars_vec(s: &str) -> (r: Vec<char>)
    ensures
        r@ == s@,
{
    let n = s.unicode_len();
    let mut v: Vec<char> = Vec::with_capacity(n);
    let mut i: usize = 0;
    while i < n
        invariant
            i <= n,
            n == s@.len(),
            v@ == s@.take(i as int),
        decreases n - i,
    {
        let c = s.get_char(i);
        v.push(c);
        assert(v@ =~= s@.take(i + 1));
        i = i + 1;
    }
    assert(s@.take(n as int) =~= s@);
    v
}

/// `dec_val` of a digit prefix never exceeds `dec_val` of the whole string.
proof fn lemma_dec_val_prefix(s: Seq<char>, i: int)
    requires
        0 <= i <= s.len(),
        all_digits(s),
    ensures
        dec_val(s.take(i)) <= dec_val(s),
    decreases s.len() - i,
{
    if i < s.len() {
        assert(s.take(i + 1).drop_last() =~= s.take(i));
        assert(dec_val(s.take(i)) <= dec_val(s.take(i + 1)));
        lemma_dec_val_prefix(s, i + 1);
    } else {
        assert(s.take(i) =~= s);
    }
}

/// Parse a string of decimal digits as a `u64`.
///
/// Returns `Some` exactly when the string is non-empty, holds only ASCII
/// digits, and its value fits in a `u64`.
pub fn parse_u64_digits(s: &str) -> (r: Option<u64>)
    ensures
        match r {
            Some(v) => s@.len() > 0 && all_digits(s@) && v == dec_val(s@),
            None => !(s@.len() > 0 && all_digits(s@) && dec_val(s@) <= u64::MAX),
        },
{
    let n = s.unicode_len();
    if n == 0 {
        return None;
    }
    let mut acc: u64 = 0;
    let mut i: usize = 0;
    while i < n
        invariant
            i <= n,
            n == s@.len(),
            n > 0,
            all_digits(s@.take(i as int)),
            acc == dec_val(s@.take(i as int)),
        decreases n - i,
    {
        let c = s.get_char(i);
        if !('0' <= c && c <= '9') {
            assert(!all_digits(s@)) by {
                assert(s@[i as int] == c);
            }
            return None;
        }
        let d: u64 = (c as u32 - 48) as u64;
        assert(s@.take(i + 1).drop_last() =~= s@.take(i as int));
        assert(s@.take(i + 1).last() == c);
        let next = match acc.checked_mul(10) {
            Some(m) => m.checked_add(d),
            None => None,
        };
        match next {
            Some(v) => {
                acc = v;
                i = i + 1;
            },
            None => {
                // The value of the scanned prefix already exceeds `u64::MAX`,
                // so the value of the whole string does too.
                assert(dec_val(s@.take(i + 1)) > u64::MAX);
                proof {
                    if all_digits(s@) {
                        lemma_dec_val_prefix(s@, i + 1);
                    }
                }
                return None;
            },
        }
    }
    assert(s@.take(n as int) =~= s@);
    Some(acc)
}

/// Whether `s` is an optionally negated string of decimal digits.
pub open spec fn is_int_token(s: Seq<char>) -> bool {
    if s.len() > 0 && s[0] == '-' {
        s.len() > 1 && all_digits(s.skip(1))
    } else {
        s.len() > 0 && all_digits(s)
    }
}

/// The signed value of an optionally negated string of decimal digits.
pub open spec fn int_token_val(s: Seq<char>) -> int {
    if s.len() > 0 && s[0] == '-' {
        -(dec_val(s.skip(1)) as int)
    } else {
        dec_val(s) as int
    }
}

/// Parse an optionally negated string of decimal digits as an `i32`.
///
/// Returns `Some` exactly when the string matches that shape and its value
/// fits in an `i32`.
pub fn parse_i32_token(s: &str) -> (r: Option<i32>)
    ensures
        match r {
            Some(v) => is_int_token(s@) && v == int_token_val(s@),
            None => !(is_int_token(s@) && i32::MIN <= int_token_val(s@) <= i32::MAX),
        },
{
    let n = s.unicode_len();
    if n == 0 {
        return None;
    }
    let neg = s.get_char(0) == '-';
    let digits = if neg {
        s.substring_char(1, n)
    } else {
        s
    };
    proof {
        if neg {
            assert(digits@ =~= s@.skip(1));
        }
    }
    match parse_u64_digits(digits) {
        None => {
            proof {
                if is_int_token(s@) && i32::MIN <= int_token_val(s@) <= i32::MAX {
                    if neg {
                        assert(dec_val(s@.skip(1)) <= u64::MAX);
                    } else {
                        assert(dec_val(s@) <= u64::MAX);
                    }
                }
            }
            None
        },
        Some(v) => {
            if neg {
                if v <= 0x8000_0000u64 {
                    Some((-(v as i64)) as i32)
                } else {
                    None
                }
            } else {
                if v <= 0x7FFF_FFFFu64 {
                    Some(v as i32)
                } else {
                    None
                }
            }
        },
    }
}

/// Whether two strings hold the same characters.
pub fn eq_str(a: &str, b: &str) -> (r: bool)
    ensures
        r == (a@ == b@),
{
    let na = a.unicode_len();
    let nb = b.unicode_len();
    if na != nb {
        return false;
    }
    let mut i: usize = 0;
    while i < na
        invariant
            i <= na,
            na == a@.len(),
            na == b@.len(),
            a@.take(i as int) == b@.take(i as int),
        decreases na - i,
    {
        if a.get_char(i) != b.get_char(i) {
            assert(a@ != b@) by {
                assert(a@[i as int] != b@[i as int]);
            }
            return false;
        }
        assert(a@.take(i + 1) =~= a@.take(i as int).push(a@[i as int]));
        assert(b@.take(i + 1) =~= b@.take(i as int).push(b@[i as int]));
        i = i + 1;
    }
    assert(a@ =~= a@.take(na as int));
    assert(b@ =~= b@.take(na as int));
    true
}

/// The entries of `parts`, joined with a single comma between neighbours.
pub open spec fn join_comma(parts: Seq<Seq<char>>) -> Seq<char>
    decreases parts.len(),
{
    if parts.len() == 0 {
        Seq::empty()
    } else if parts.len() == 1 {
        parts[0]
    } else {
        parts[0] + seq![','] + join_comma(parts.drop_first())
    }
}

/// Joining a longer list appends a comma and the next entry.
proof fn lemma_join_comma_step(parts: Seq<Seq<char>>, i: int)
    requires
        1 <= i < parts.len(),
    ensures
        join_comma(parts.take(i + 1)) == join_comma(parts.take(i)) + seq![','] + parts[i],
    decreases i,
{
    let a = parts.take(i + 1);
    let b = parts.take(i);
    if i == 1 {
        assert(a.drop_first() =~= seq![parts[1]]);
        assert(join_comma(seq![parts[1]]) == parts[1]);
        assert(join_comma(a) == parts[0] + seq![','] + parts[1]);
        assert(join_comma(b) == parts[0]);
    } else {
        lemma_join_comma_step(parts.drop_first(), i - 1);
        assert(a.drop_first() =~= parts.drop_first().take(i));
        assert(b.drop_first() =~= parts.drop_first().take(i - 1));
        assert(parts.drop_first()[i - 1] == parts[i]);
    }
}

/// Join the entries of `parts` with commas, in order.
pub fn join_with_commas(parts: &Vec<String>) -> (r: String)
    ensures
        r@ == join_comma(parts@.map_values(|s: String| s@)),
{
    let ghost gparts = parts@.map_values(|s: String| s@);
    let mut out = String::new();
    let mut i: usize = 0;
    while i < parts.len()
        invariant
            i <= parts.len(),
            gparts == parts@.map_values(|s: String| s@),
            gparts.len() == parts@.len(),
            out@ == join_comma(gparts.take(i as int)),
        decreases parts.len() - i,
    {
        if i > 0 {
            out.append(",");
            proof {
                reveal_strlit(",");
            }
        }
        out.append(parts[i].as_str());
        proof {
            if i > 0 {
                lemma_join_comma_step(gparts, i as int);
            } else {
                assert(gparts.take(1) =~= seq![gparts[0]]);
            }
        }
        i = i + 1;
    }
    assert(gparts.take(parts@.len() as int) =~= gparts);
    out
}

} // verus!
