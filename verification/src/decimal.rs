//! Decimal text for handle identities and process IDs.
//!
//! Restoration tokens and PID texts are decimal integers; this module
//! holds the specification of that format, the executable parser and
//! formatter, and the round-trip laws.

use vstd::prelude::*;
use vstd::string::StringExecFns;
use vstd::string::StrSliceExecFns;

use crate::error::DaemonError;

verus! {

/// A decimal digit character: '0' (code 48) through '9' (code 57).
pub open spec fn is_dec_digit(c: char) -> bool {
    48 <= c as int && c as int <= 57
}

/// The numeric value of a digit character.
pub open spec fn digit_value(c: char) -> int {
    c as int - 48
}

pub open spec fn all_dec_digits(s: Seq<char>) -> bool {
    forall|i: int| 0 <= i < s.len() ==> is_dec_digit(#[trigger] s[i])
}

/// Numeric value of a digit string, most significant digit first.
pub open spec fn dec_value(s: Seq<char>) -> int
    decreases s.len(),
{
    if s.len() == 0 {
        0
    } else {
        dec_value(s.drop_last()) * 10 + digit_value(s.last())
    }
}

/// A valid handle-identity token: nonempty, nothing but digits, and a
/// value that fits the handle-identity range.
pub open spec fn valid_u32_token(s: Seq<char>) -> bool {
    s.len() > 0 && all_dec_digits(s) && dec_value(s) <= u32::MAX
}

/// The digit character of a value below ten.
pub open spec fn digit_char(v: int) -> char {
    if v == 0 {
        '0'
    } else if v == 1 {
        '1'
    } else if v == 2 {
        '2'
    } else if v == 3 {
        '3'
    } else if v == 4 {
        '4'
    } else if v == 5 {
        '5'
    } else if v == 6 {
        '6'
    } else if v == 7 {
        '7'
    } else if v == 8 {
        '8'
    } else {
        '9'
    }
}

/// Canonical digit string of a non-negative value (no leading zeros).
pub open spec fn dec_digits(v: int) -> Seq<char>
    decreases v,
{
    if v < 10 {
        seq![digit_char(v)]
    } else {
        dec_digits(v / 10) + seq![digit_char(v % 10)]
    }
}

/// Canonical decimal text of a possibly negative value.
pub open spec fn int_digits(v: int) -> Seq<char> {
    if v < 0 {
        seq!['-'] + dec_digits(-v)
    } else {
        dec_digits(v)
    }
}

pub proof fn lemma_dec_value_nonneg(s: Seq<char>)
    requires
        all_dec_digits(s),
    ensures
        dec_value(s) >= 0,
    decreases s.len(),
{
    if s.len() > 0 {
        assert forall|i: int| 0 <= i < s.drop_last().len() implies is_dec_digit(
            #[trigger] s.drop_last()[i],
        ) by {
            assert(s.drop_last()[i] == s[i]);
        }
        lemma_dec_value_nonneg(s.drop_last());
        assert(is_dec_digit(s.last()));
    }
}

/// A digit string is worth at least any of its prefixes.
pub proof fn lemma_dec_value_prefix(s: Seq<char>, j: int)
    requires
        all_dec_digits(s),
        0 <= j <= s.len(),
    ensures
        dec_value(s.take(j)) <= dec_value(s),
    decreases s.len() - j,
{
    if j < s.len() {
        lemma_dec_value_prefix(s, j + 1);
        let t = s.take(j + 1);
        assert(t.drop_last() =~= s.take(j));
        assert(t.last() == s[j]);
        assert forall|i: int| 0 <= i < s.take(j).len() implies is_dec_digit(
            #[trigger] s.take(j)[i],
        ) by {
            assert(s.take(j)[i] == s[i]);
        }
        lemma_dec_value_nonneg(s.take(j));
        assert(is_dec_digit(s[j]));
        assert(dec_value(t) == dec_value(s.take(j)) * 10 + digit_value(s[j]));
        assert(dec_value(s.take(j)) <= dec_value(t));
    } else {
        assert(s.take(j) =~= s);
    }
}

/// The canonical digit string of a value parses back to that value.
pub proof fn lemma_dec_digits_roundtrip(v: int)
    requires
        0 <= v,
    ensures
        dec_digits(v).len() >= 1,
        all_dec_digits(dec_digits(v)),
        dec_value(dec_digits(v)) == v,
    decreases v,
{
    if v < 10 {
        let s = dec_digits(v);
        assert(s =~= seq![digit_char(v)]);
        assert(s.drop_last() =~= Seq::<char>::empty());
        assert(is_dec_digit(digit_char(v)));
        assert(digit_value(digit_char(v)) == v);
        assert(s.last() == digit_char(v));
        assert(dec_value(s.drop_last()) == 0);
        assert(dec_value(s) == dec_value(s.drop_last()) * 10 + digit_value(s.last()));
    } else {
        lemma_dec_digits_roundtrip(v / 10);
        let p = dec_digits(v / 10);
        let s = dec_digits(v);
        assert(s == p + seq![digit_char(v % 10)]);
        assert(s.drop_last() =~= p);
        assert(s.last() == digit_char(v % 10));
        assert forall|i: int| 0 <= i < s.len() implies is_dec_digit(#[trigger] s[i]) by {
            if i < p.len() {
                assert(s[i] == p[i]);
            } else {
                assert(s[i] == digit_char(v % 10));
            }
        }
        assert(digit_value(digit_char(v % 10)) == v % 10);
        assert(dec_value(s) == v / 10 * 10 + v % 10);
    }
}

/// Parse the digits of `s` from position `from` on: they must be
/// nonempty, nothing but decimal digits, and worth at most `max`.
fn parse_dec_from(s: &str, from: usize, max: u64) -> (r: Result<u64, DaemonError>)
    requires
        from <= s@.len(),
        max <= 0xffff_ffff_ffff,
    ensures
        r matches Ok(v) ==> ({
            let d = s@.skip(from as int);
            d.len() > 0 && all_dec_digits(d) && v as int == dec_value(d) && v <= max
        }),
        r matches Err(e) ==> e == DaemonError::ParseError && !({
            let d = s@.skip(from as int);
            d.len() > 0 && all_dec_digits(d) && dec_value(d) <= max
        }),
{
    let ghost d = s@.skip(from as int);
    let n = s.unicode_len();
    if from == n {
        return Err(DaemonError::ParseError);
    }
    let mut acc: u64 = 0;
    let mut i: usize = from;
    while i < n
        invariant
            from < n == s@.len(),
            from <= i <= n,
            d == s@.skip(from as int),
            max <= 0xffff_ffff_ffff,
            all_dec_digits(s@.subrange(from as int, i as int)),
            acc as int == dec_value(s@.subrange(from as int, i as int)),
            acc <= max,
        decreases n - i,
    {
        let c = s.get_char(i);
        let cv = c as u32;
        if cv < 48 || cv > 57 {
            proof {
                assert(d[i - from] == s@[i as int]);
                assert(!is_dec_digit(d[i - from]));
            }
            return Err(DaemonError::ParseError);
        }
        let dv = (cv - 48) as u64;
        proof {
            let p = s@.subrange(from as int, i as int + 1);
            assert(p.drop_last() =~= s@.subrange(from as int, i as int));
            assert(p.last() == s@[i as int]);
            assert forall|k: int| 0 <= k < p.len() implies is_dec_digit(#[trigger] p[k]) by {
                if k < i - from {
                    assert(p[k] == s@.subrange(from as int, i as int)[k]);
                }
            }
        }
        let next = acc * 10 + dv;
        if next > max {
            proof {
                if all_dec_digits(d) {
                    assert forall|k: int| 0 <= k < d.len() implies is_dec_digit(#[trigger] d[k])
                        by {}
                    lemma_dec_value_prefix(d, i - from + 1);
                    assert(d.take(i - from + 1) =~= s@.subrange(from as int, i as int + 1));
                }
            }
            return Err(DaemonError::ParseError);
        }
        acc = next;
        i += 1;
    }
    proof {
        assert(s@.subrange(from as int, n as int) =~= d);
    }
    Ok(acc)
}

/// Parse a handle-identity token: nothing but decimal digits, value
/// within the handle-identity range. Anything else is a `ParseError`.
pub fn parse_u32_token(s: &str) -> (r: Result<u32, DaemonError>)
    ensures
        r matches Ok(v) ==> valid_u32_token(s@) && v as int == dec_value(s@),
        r matches Err(e) ==> e == DaemonError::ParseError && !valid_u32_token(s@),
{
    proof {
        assert(s@.skip(0) =~= s@);
    }
    match parse_dec_from(s, 0, 0xffff_ffff) {
        Ok(v) => Ok(v as u32),
        Err(e) => Err(e),
    }
}

/// Decimal text of a possibly signed 32-bit value: an optional sign,
/// then nothing but digits, worth a value in the 32-bit signed range.
pub open spec fn valid_i32_text(s: Seq<char>) -> bool {
    if s.len() == 0 {
        false
    } else if s[0] == '-' {
        let d = s.skip(1);
        d.len() > 0 && all_dec_digits(d) && dec_value(d) <= 0x8000_0000
    } else if s[0] == '+' {
        let d = s.skip(1);
        d.len() > 0 && all_dec_digits(d) && dec_value(d) <= i32::MAX
    } else {
        all_dec_digits(s) && dec_value(s) <= i32::MAX
    }
}

/// The value of valid signed decimal text.
pub open spec fn i32_text_value(s: Seq<char>) -> int {
    if s.len() > 0 && s[0] == '-' {
        -dec_value(s.skip(1))
    } else if s.len() > 0 && s[0] == '+' {
        dec_value(s.skip(1))
    } else {
        dec_value(s)
    }
}

/// Parse signed decimal text into a 32-bit value.
pub fn parse_i32_text(s: &str) -> (r: Result<i32, DaemonError>)
    ensures
        r matches Ok(v) ==> valid_i32_text(s@) && v as int == i32_text_value(s@),
        r matches Err(e) ==> e == DaemonError::ParseError && !valid_i32_text(s@),
{
    let n = s.unicode_len();
    if n == 0 {
        return Err(DaemonError::ParseError);
    }
    let c0 = s.get_char(0);
    if c0 == '-' {
        let v = match parse_dec_from(s, 1, 0x8000_0000) {
            Ok(v) => v,
            Err(e) => {
                return Err(e);
            },
        };
        Ok((-(v as i64)) as i32)
    } else if c0 == '+' {
        let v = match parse_dec_from(s, 1, 0x7fff_ffff) {
            Ok(v) => v,
            Err(e) => {
                return Err(e);
            },
        };
        Ok(v as i32)
    } else {
        proof {
            assert(s@.skip(0) =~= s@);
        }
        let v = match parse_dec_from(s, 0, 0x7fff_ffff) {
            Ok(v) => v,
            Err(e) => {
                return Err(e);
            },
        };
        Ok(v as i32)
    }
}

/// The string holding one digit character.
fn digit_literal(d: u32) -> (r: &'static str)
    requires
        d < 10,
    ensures
        r@ =~= seq![digit_char(d as int)],
{
    proof {
        reveal_strlit("0");
        reveal_strlit("1");
        reveal_strlit("2");
        reveal_strlit("3");
        reveal_strlit("4");
        reveal_strlit("5");
        reveal_strlit("6");
        reveal_strlit("7");
        reveal_strlit("8");
        reveal_strlit("9");
    }
    if d == 0 {
        "0"
    } else if d == 1 {
        "1"
    } else if d == 2 {
        "2"
    } else if d == 3 {
        "3"
    } else if d == 4 {
        "4"
    } else if d == 5 {
        "5"
    } else if d == 6 {
        "6"
    } else if d == 7 {
        "7"
    } else if d == 8 {
        "8"
    } else {
        "9"
    }
}

/// Render a handle identity as its canonical decimal token.
pub fn u32_to_decimal(v: u32) -> (r: String)
    ensures
        r@ == dec_digits(v as int),
    decreases v,
{
    if v < 10 {
        digit_literal(v).to_owned()
    } else {
        let mut s = u32_to_decimal(v / 10);
        s.append(digit_literal(v % 10));
        s
    }
}

/// Render a possibly negative value (a process ID) as decimal text.
pub fn i32_to_decimal(v: i32) -> (r: String)
    ensures
        r@ == int_digits(v as int),
{
    if v < 0 {
        let magnitude: u32 = (-(v as i64)) as u32;
        let mut s = "-".to_owned();
        let digits = u32_to_decimal(magnitude);
        s.append(digits.as_str());
        proof {
            reveal_strlit("-");
            assert(s@ =~= seq!['-'] + dec_digits(magnitude as int));
        }
        s
    } else {
        u32_to_decimal(v as u32)
    }
}

} // verus!
