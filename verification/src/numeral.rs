//! Decimal rendering of integers, used when a numeric filter is interpolated
//! into query text.  Numeric filters arrive as machine integers, so rendering
//! them is the only way a number ever enters a query: no caller-supplied text
//! is spliced in along this path.

use vstd::prelude::*;

verus! {

/// The decimal digit character for a value below ten.
pub open spec fn digit_char(d: nat) -> char
    recommends
        d < 10,
{
    ((d + 48) as u8) as char
}

/// The decimal digits of a natural number, most significant first, with no
/// leading zeros (zero itself is the single digit `0`).
pub open spec fn dec_spec(n: nat) -> Seq<char>
    decreases n,
{
    if n < 10 {
        seq![digit_char(n)]
    } else {
        dec_spec(n / 10).push(digit_char(n % 10))
    }
}

/// The decimal rendering of an integer: the digits of its magnitude, with a
/// leading minus sign when it is negative.
pub open spec fn int_dec(i: int) -> Seq<char> {
    if i >= 0 {
        dec_spec(i as nat)
    } else {
        seq!['-'] + dec_spec((-i) as nat)
    }
}

/// The one-character string for a decimal digit.
fn digit_str(d: u64) -> (r: &'static str)
    requires
        d < 10,
    ensures
        r@ == seq![digit_char(d as nat)],
{
    proof {
        reveal_strlit("0");
        reveal_strlit("1");
        reveal_strlit("2");
        reveal_strlit("3");
        reveal_strlit("4");
        reveal_strlit("5");
        reveal_strlit("6");
        reveal_strlit("7");
        reveal_strlit("8");
        reveal_strlit("9");
    }
    match d {
        0 => "0",
        1 => "1",
        2 => "2",
        3 => "3",
        4 => "4",
        5 => "5",
        6 => "6",
        7 => "7",
        8 => "8",
        _ => "9",
    }
}

/// Renders an unsigned integer in decimal.
pub fn dec_u64(n: u64) -> (r: String)
    ensures
        r@ == dec_spec(n as nat),
    decreases n,
{
    if n < 10 {
        String::from_str(digit_str(n))
    } else {
        proof {
            assert(n / 10 < n) by (nonlinear_arith)
                requires
                    n >= 10,
            ;
        }
        let mut s = dec_u64(n / 10);
        s.append(digit_str(n % 10));
        proof {
            assert(s@ =~= dec_spec(n as nat));
        }
        s
    }
}

/// Whether a character is a decimal digit.
pub open spec fn is_digit(c: char) -> bool {
    '0' <= c && c <= '9'
}

/// The value of a decimal digit character.
pub open spec fn digit_val(c: char) -> nat
    recommends
        is_digit(c),
{
    (c as u32 - 48) as nat
}

/// The value of a sequence of decimal digit characters, most significant
/// first.
pub open spec fn digits_val(s: Seq<char>) -> nat
    decreases s.len(),
{
    if s.len() == 0 {
        0
    } else {
        digits_val(s.drop_last()) * 10 + digit_val(s.last())
    }
}

/// The value of a digit sequence is at least the value of any of its
/// prefixes: appending digits never shrinks the value.
proof fn lemma_digits_val_prefix(s: Seq<char>, i: int)
    requires
        0 <= i <= s.len(),
    ensures
        digits_val(s) >= digits_val(s.subrange(0, i)),
    decreases s.len(),
{
    if i == s.len() {
        assert(s.subrange(0, i) =~= s);
    } else {
        assert(s.drop_last().subrange(0, i) =~= s.subrange(0, i));
        lemma_digits_val_prefix(s.drop_last(), i);
    }
}

/// The optional sign of a textual integer and the rest of the text: whether
/// the value is negated, and the digits expected to follow.
pub open spec fn sign_split(s: Seq<char>) -> (bool, Seq<char>) {
    if s.len() > 0 && s[0] == '-' {
        (true, s.drop_first())
    } else if s.len() > 0 && s[0] == '+' {
        (false, s.drop_first())
    } else {
        (false, s)
    }
}

/// Whether a sequence is one or more decimal digits and nothing else.
pub open spec fn all_digits(s: Seq<char>) -> bool {
    s.len() > 0 && forall|i: int| 0 <= i < s.len() ==> is_digit(#[trigger] s[i])
}

/// The integer denoted by a piece of text: an optional sign followed by one
/// or more decimal digits; anything else denotes nothing.
pub open spec fn int_of_text(s: Seq<char>) -> Option<int> {
    let (neg, d) = sign_split(s);
    if all_digits(d) {
        if neg {
            Some(-(digits_val(d) as int))
        } else {
            Some(digits_val(d) as int)
        }
    } else {
        None
    }
}

/// The signed 32-bit integer denoted by a piece of text, if the text is well
/// formed and the value fits.
pub open spec fn parse_i32_spec(s: Seq<char>) -> Option<i32> {
    match int_of_text(s) {
        Some(v) => if i32::MIN <= v <= i32::MAX {
            Some(v as i32)
        } else {
            None
        },
        None => None,
    }
}

/// Parses a signed 32-bit integer from text: an optional `+` or `-` sign
/// followed by one or more decimal digits, with nothing around them.  Used to
/// validate a numeric filter before it may reach any query text.
pub fn parse_i32(s: &str) -> (r: Option<i32>)
    ensures
        r == parse_i32_spec(s@),
{
    let n: usize = s.unicode_len();
    if n == 0 {
        return None;
    }
    let c0 = s.get_char(0);
    let neg = c0 == '-';
    let start: usize = if c0 == '-' || c0 == '+' {
        1
    } else {
        0
    };
    let ghost d = sign_split(s@).1;
    proof {
        assert(d =~= s@.subrange(start as int, n as int));
        assert(sign_split(s@).0 == neg);
    }
    if start == n {
        return None;
    }
    let mut acc: u64 = 0;
    let mut i: usize = start;
    while i < n
        invariant
            n == s@.len(),
            start <= i <= n,
            d == s@.subrange(start as int, n as int),
            d == sign_split(s@).1,
            neg == sign_split(s@).0,
            forall|j: int| start <= j < i ==> is_digit(#[trigger] s@[j]),
            acc == digits_val(s@.subrange(start as int, i as int)),
            acc <= 2147483648,
        decreases n - i,
    {
        let c = s.get_char(i);
        if !('0' <= c && c <= '9') {
            proof {
                assert(!is_digit(d[i - start as int]));
            }
            return None;
        }
        let v: u64 = (c as u32 - 48) as u64;
        acc = acc * 10 + v;
        proof {
            let pre = s@.subrange(start as int, i as int);
            let ext = s@.subrange(start as int, i + 1);
            assert(ext.drop_last() =~= pre);
            assert(acc == digits_val(ext));
        }
        i = i + 1;
        if acc > 2147483648 {
            proof {
                if all_digits(d) {
                    let pre = s@.subrange(start as int, i as int);
                    assert(d.subrange(0, i - start as int) =~= pre);
                    lemma_digits_val_prefix(d, i - start as int);
                }
            }
            return None;
        }
    }
    proof {
        assert(s@.subrange(start as int, i as int) =~= d);
        assert(all_digits(d));
    }
    if neg {
        Some((-(acc as i64)) as i32)
    } else {
        if acc > 2147483647 {
            return None;
        }
        Some(acc as i32)
    }
}

/// Renders a signed 32-bit integer in decimal.
pub fn dec_i32(n: i32) -> (r: String)
    ensures
        r@ == int_dec(n as int),
{
    if n >= 0 {
        dec_u64(n as u64)
    } else {
        let m: i64 = n as i64;
        let mag: u64 = (-m) as u64;
        let mut s = String::from_str("-");
        s.append(dec_u64(mag).as_str());
        proof {
            reveal_strlit("-");
            assert(s@ =~= int_dec(n as int));
        }
        s
    }
}

} // verus!
