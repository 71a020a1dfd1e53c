//! Decimal rendering of 32-bit integers (for numeric enum values) and
//! base-10 parsing of discriminant tokens.

use vstd::prelude::*;

verus! {

/// The decimal digit character for `d` (only meaningful for `0 <= d < 10`).
pub open spec fn digit_char(d: int) -> char {
    if d == 0 {
        '0'
    } else if d == 1 {
        '1'
    } else if d == 2 {
        '2'
    } else if d == 3 {
        '3'
    } else if d == 4 {
        '4'
    } else if d == 5 {
        '5'
    } else if d == 6 {
        '6'
    } else if d == 7 {
        '7'
    } else if d == 8 {
        '8'
    } else {
        '9'
    }
}

/// The decimal representation of a nonnegative integer.
pub open spec fn dec_digits(v: nat) -> Seq<char>
    decreases v,
{
    if v < 10 {
        seq![digit_char(v as int)]
    } else {
        dec_digits(v / 10) + seq![digit_char((v % 10) as int)]
    }
}

/// The decimal representation of a signed integer: a minus sign followed
/// by the digits of its magnitude, or just the digits.
pub open spec fn dec_int(v: int) -> Seq<char> {
    if v < 0 {
        seq!['-'] + dec_digits((-v) as nat)
    } else {
        dec_digits(v as nat)
    }
}

fn append_digit(out: &mut String, d: u32)
    requires
        d < 10,
    ensures
        final(out)@ == old(out)@ + seq![digit_char(d as int)],
{
    match d {
        0 => out.append("0"),
        1 => out.append("1"),
        2 => out.append("2"),
        3 => out.append("3"),
        4 => out.append("4"),
        5 => out.append("5"),
        6 => out.append("6"),
        7 => out.append("7"),
        8 => out.append("8"),
        _ => out.append("9"),
    }
    proof {
        reveal_strlit("0");
        reveal_strlit("1");
        reveal_strlit("2");
        reveal_strlit("3");
        reveal_strlit("4");
        reveal_strlit("5");
        reveal_strlit("6");
        reveal_strlit("7");
        reveal_strlit("8");
        reveal_strlit("9");
        assert(out@ =~= old(out)@ + seq![digit_char(d as int)]);
    }
}

fn append_u32_dec(out: &mut String, v: u32)
    ensures
        final(out)@ == old(out)@ + dec_digits(v as nat),
    decreases v,
{
    if v >= 10 {
        append_u32_dec(out, v / 10);
        append_digit(out, v % 10);
        proof {
            assert(out@ =~= old(out)@ + dec_digits(v as nat));
        }
    } else {
        append_digit(out, v);
    }
}

/// Renders a signed 32-bit integer in decimal.
pub fn i32_to_string(v: i32) -> (r: String)
    ensures
        r@ == dec_int(v as int),
{
    let mut out = String::new();
    if v < 0 {
        out.append("-");
        proof {
            reveal_strlit("-");
            assert(out@ =~= seq!['-']);
        }
        let magnitude: u32 = (-(v as i64)) as u32;
        append_u32_dec(&mut out, magnitude);
    } else {
        let magnitude: u32 = v as u32;
        append_u32_dec(&mut out, magnitude);
        proof {
            assert(out@ =~= Seq::<char>::empty() + dec_digits(v as nat));
        }
    }
    out
}

/// One above the largest magnitude a 32-bit integer can carry; digit
/// accumulation is capped here so that overflow stays detectable.
pub const DIGIT_CAP: i64 = 4294967296;

/// True iff `c` is a decimal digit.
pub open spec fn is_digit(c: char) -> bool {
    '0' <= c && c <= '9'
}

/// The numeric value of a digit character.
pub open spec fn digit_val(c: char) -> int {
    c as int - '0' as int
}

/// The value of a sequence of digit characters read in base 10.
pub open spec fn digits_val(s: Seq<char>) -> int
    decreases s.len(),
{
    if s.len() == 0 {
        0
    } else {
        digits_val(s.drop_last()) * 10 + digit_val(s.last())
    }
}

/// The digits of a signed decimal token: everything after an optional
/// leading sign.
pub open spec fn sign_stripped(s: Seq<char>) -> Seq<char> {
    if s.len() > 0 && (s[0] == '-' || s[0] == '+') {
        s.drop_first()
    } else {
        s
    }
}

/// True iff every character of `s` is a decimal digit.
pub open spec fn all_digits(s: Seq<char>) -> bool {
    forall|i: int| 0 <= i < s.len() ==> is_digit(#[trigger] s[i])
}

/// The base-10 parse of a signed 32-bit integer, as `str::parse::<i32>`
/// performs it: an optional sign, then one or more digits, and the value
/// must fit in 32 bits.
pub open spec fn spec_parse_i32(s: Seq<char>) -> Option<int> {
    if sign_stripped(s).len() > 0 && all_digits(sign_stripped(s)) {
        if s.len() > 0 && s[0] == '-' {
            if digits_val(sign_stripped(s)) <= 0x8000_0000 {
                Some(-digits_val(sign_stripped(s)))
            } else {
                None
            }
        } else {
            if digits_val(sign_stripped(s)) <= 0x7fff_ffff {
                Some(digits_val(sign_stripped(s)))
            } else {
                None
            }
        }
    } else {
        None
    }
}

/// The digit value of `s`, capped just above the 32-bit range.
pub open spec fn capped_digits_val(s: Seq<char>) -> int {
    if digits_val(s) > DIGIT_CAP {
        DIGIT_CAP as int
    } else {
        digits_val(s)
    }
}

proof fn lemma_digits_val_nonneg(s: Seq<char>)
    requires
        forall|i: int| 0 <= i < s.len() ==> is_digit(#[trigger] s[i]),
    ensures
        digits_val(s) >= 0,
    decreases s.len(),
{
    if s.len() > 0 {
        lemma_digits_val_nonneg(s.drop_last());
    }
}

/// Parses a base-10 signed 32-bit integer from a token; tokens that are
/// not plain decimal integers, or whose value does not fit, give `None`.
pub fn parse_i32(s: &str) -> (r: Option<i32>)
    ensures
        r is Some ==> spec_parse_i32(s@) == Some(r->0 as int),
        r is None ==> spec_parse_i32(s@) is None,
{
    let len = s.unicode_len();
    if len == 0 {
        return None;
    }
    let first = s.get_char(0);
    let negative = first == '-';
    let start: usize = if first == '-' || first == '+' {
        1
    } else {
        0
    };
    if len == start {
        return None;
    }
    let ghost body = sign_stripped(s@);
    proof {
        assert(s@[0] == first);
        assert((start == 1) == (s@.len() > 0 && (s@[0] == '-' || s@[0] == '+')));
    }
    // Digits are accumulated with a cap just above the 32-bit range, so
    // that a value which has already overflowed stays recognizably large.
    let mut acc: i64 = 0;
    let mut i: usize = start;
    while i < len
        invariant
            body == sign_stripped(s@),
            start <= i <= len,
            len == s@.len(),
            start == 0 || start == 1,
            start as int + body.len() == len,
            forall|k: int| 0 <= k < body.len() ==> body[k] == s@[k + start],
            forall|k: int| 0 <= k < i - start ==> is_digit(#[trigger] body[k]),
            0 <= acc,
            DIGIT_CAP >= acc,
            acc == capped_digits_val(body.take(i - start)),
        decreases len - i,
    {
        let c = s.get_char(i);
        if !('0' <= c && c <= '9') {
            proof {
                assert(body[i - start] == s@[i as int]);
                assert(!is_digit(body[i - start]));
                assert(!all_digits(body));
                assert(!all_digits(sign_stripped(s@)));
                assert(spec_parse_i32(s@) is None);
            }
            return None;
        }
        let d: i64 = (c as u32) as i64 - 48;
        proof {
            let prefix = body.take(i - start);
            lemma_digits_val_nonneg(prefix);
            let next = body.take(i + 1 - start);
            assert(next.drop_last() =~= prefix);
            assert(next.last() == body[i - start]);
        }
        let grown = acc * 10 + d;
        acc = if grown > DIGIT_CAP {
            DIGIT_CAP
        } else {
            grown
        };
        i = i + 1;
    }
    proof {
        assert(body.take(len - start) =~= body);
        lemma_digits_val_nonneg(body);
    }
    if negative {
        if acc <= 0x8000_0000 {
            let v: i32 = (-acc) as i32;
            Some(v)
        } else {
            None
        }
    } else {
        if acc <= 0x7fff_ffff {
            let v: i32 = acc as i32;
            Some(v)
        } else {
            None
        }
    }
}

} // verus!
