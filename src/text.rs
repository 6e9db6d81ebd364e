//! Decimal digits in text: zero-padded numbers and signed 64-bit integers.

use vstd::prelude::*;
use vstd::string::*;

verus! {

/// The texts of a sequence of strings.
pub open spec fn strings_view(v: Seq<String>) -> Seq<Seq<char>> {
    v.map_values(|x: String| x@)
}

pub open spec fn is_digit(c: char) -> bool {
    '0' <= c && c <= '9'
}

pub open spec fn all_digits(s: Seq<char>) -> bool {
    forall|i: int| 0 <= i < s.len() ==> is_digit(#[trigger] s[i])
}

pub open spec fn digit_value(c: char) -> int {
    (c as u32) as int - 48
}

pub open spec fn digit_char(d: int) -> char {
    if d <= 0 {
        '0'
    } else if d == 1 {
        '1'
    } else if d == 2 {
        '2'
    } else if d == 3 {
        '3'
    } else if d == 4 {
        '4'
    } else if d == 5 {
        '5'
    } else if d == 6 {
        '6'
    } else if d == 7 {
        '7'
    } else if d == 8 {
        '8'
    } else {
        '9'
    }
}

/// The number that a run of decimal digits spells.
pub open spec fn digits_value(s: Seq<char>) -> int
    decreases s.len(),
{
    if s.len() == 0 {
        0
    } else {
        digits_value(s.drop_last()) * 10 + digit_value(s.last())
    }
}

pub open spec fn pow10(w: nat) -> int
    decreases w,
{
    if w == 0 {
        1
    } else {
        10 * pow10((w - 1) as nat)
    }
}

/// The decimal digits of `n`, with leading zeros up to `width` digits.
pub open spec fn padded(n: nat, width: nat) -> Seq<char>
    decreases n + width,
{
    if n < 10 && width <= 1 {
        seq![digit_char(n as int)]
    } else {
        padded(n / 10, if width > 0 {
            (width - 1) as nat
        } else {
            0
        }).push(digit_char(n as int % 10))
    }
}

/// A signed integer written the usual way: a `-` before a negative one.
pub open spec fn signed_text(v: int) -> Seq<char> {
    if v < 0 {
        seq!['-'] + padded((-v) as nat, 1)
    } else {
        padded(v as nat, 1)
    }
}

pub open spec fn in_i64(v: int) -> bool {
    i64::MIN <= v <= i64::MAX
}

/// The value of a signed decimal integer: an optional `+` or `-`, then one or
/// more digits; `None` for other text and for values outside `i64`.
pub open spec fn int_text_value(s: Seq<char>) -> Option<int> {
    let neg = s.len() > 0 && s[0] == '-';
    let signed = s.len() > 0 && (s[0] == '-' || s[0] == '+');
    let digits = if signed {
        s.drop_first()
    } else {
        s
    };
    let v = if neg {
        -digits_value(digits)
    } else {
        digits_value(digits)
    };
    if digits.len() > 0 && all_digits(digits) && in_i64(v) {
        Some(v)
    } else {
        None
    }
}

pub proof fn lemma_digits_value_push(s: Seq<char>, c: char)
    ensures
        digits_value(s.push(c)) == digits_value(s) * 10 + digit_value(c),
{
    assert(s.push(c).drop_last() =~= s);
}

pub proof fn lemma_digits_value_nonneg(s: Seq<char>)
    requires
        all_digits(s),
    ensures
        digits_value(s) >= 0,
    decreases s.len(),
{
    if s.len() > 0 {
        lemma_digits_value_nonneg(s.drop_last());
    }
}

pub proof fn lemma_digit_char(d: int)
    requires
        0 <= d < 10,
    ensures
        is_digit(digit_char(d)),
        digit_value(digit_char(d)) == d,
{
}

/// `padded(n, w)` is all digits, spells `n`, and is exactly `w` long when `n`
/// has at most `w` digits.
pub proof fn lemma_padded(n: nat, width: nat)
    ensures
        all_digits(padded(n, width)),
        digits_value(padded(n, width)) == n,
        padded(n, width).len() >= 1,
        padded(n, width).len() >= width,
        width >= 1 && n < pow10(width) ==> padded(n, width).len() == width,
    decreases n + width,
{
    if n < 10 && width <= 1 {
        lemma_digit_char(n as int);
        assert(seq![digit_char(n as int)].drop_last() =~= Seq::<char>::empty());
        assert(digits_value(seq![digit_char(n as int)]) == digits_value(Seq::<char>::empty()) * 10
            + digit_value(digit_char(n as int)));
    } else {
        let w2: nat = if width > 0 {
            (width - 1) as nat
        } else {
            0
        };
        lemma_padded(n / 10, w2);
        let p = padded(n / 10, w2);
        lemma_digit_char(n as int % 10);
        lemma_digits_value_push(p, digit_char(n as int % 10));
        assert(n == (n / 10) * 10 + n % 10);
        assert forall|i: int| 0 <= i < p.push(digit_char(n as int % 10)).len() implies is_digit(
            #[trigger] p.push(digit_char(n as int % 10))[i],
        ) by {
            if i < p.len() {
                assert(is_digit(p[i]));
            }
        }
        if width >= 1 && n < pow10(width) {
            assert(width >= 2);
            assert(pow10(width) == 10 * pow10(w2));
            assert(n / 10 < pow10(w2)) by (nonlinear_arith)
                requires
                    n < 10 * pow10(w2),
                    n >= 0,
            ;
        }
    }
}

pub proof fn lemma_pow10_values()
    ensures
        pow10(1) == 10,
        pow10(2) == 100,
        pow10(3) == 1000,
        pow10(4) == 10000,
{
    reveal_with_fuel(pow10, 5);
}

/// Reading back a written integer gives the integer.
pub proof fn lemma_signed_text_round_trip(v: int)
    requires
        in_i64(v),
    ensures
        int_text_value(signed_text(v)) == Some(v),
{
    if v < 0 {
        let p = padded((-v) as nat, 1);
        lemma_padded((-v) as nat, 1);
        let s = seq!['-'] + p;
        assert(s.drop_first() =~= p);
        assert(s[0] == '-');
    } else {
        let p = padded(v as nat, 1);
        lemma_padded(v as nat, 1);
        assert(is_digit(p[0]));
    }
}

fn digit_str(d: u128) -> (r: &'static str)
    requires
        d < 10,
    ensures
        r@ == seq![digit_char(d as int)],
{
    proof {
        reveal_strlit("0");
        reveal_strlit("1");
        reveal_strlit("2");
        reveal_strlit("3");
        reveal_strlit("4");
        reveal_strlit("5");
        reveal_strlit("6");
        reveal_strlit("7");
        reveal_strlit("8");
        reveal_strlit("9");
    }
    if d == 0 {
        "0"
    } else if d == 1 {
        "1"
    } else if d == 2 {
        "2"
    } else if d == 3 {
        "3"
    } else if d == 4 {
        "4"
    } else if d == 5 {
        "5"
    } else if d == 6 {
        "6"
    } else if d == 7 {
        "7"
    } else if d == 8 {
        "8"
    } else {
        "9"
    }
}

/// Appends the digits of `n`, zero-padded to `width`.
pub fn push_padded(s: &mut String, n: u128, width: u8)
    ensures
        final(s)@ == old(s)@ + padded(n as nat, width as nat),
    decreases n + width,
{
    if n < 10 && width <= 1 {
        s.append(digit_str(n));
    } else {
        let w2: u8 = if width > 0 {
            width - 1
        } else {
            0
        };
        push_padded(s, n / 10, w2);
        s.append(digit_str(n % 10));
        assert(padded(n as nat, width as nat) == padded((n / 10) as nat, w2 as nat).push(
            digit_char(n as int % 10),
        ));
    }
}

/// Writes a signed integer in decimal.
pub fn signed_string(v: i128) -> (r: String)
    ensures
        r@ == signed_text(v as int),
{
    let mut s = String::new();
    if v < 0 {
        proof {
            reveal_strlit("-");
        }
        s.append("-");
        let m: u128 = if v == i128::MIN {
            (i128::MAX as u128) + 1
        } else {
            (-v) as u128
        };
        push_padded(&mut s, m, 1);
    } else {
        push_padded(&mut s, v as u128, 1);
    }
    s
}

/// Reads a signed decimal integer that fits in `i64`.
pub fn parse_i64(s: &str) -> (r: Option<i64>)
    ensures
        match int_text_value(s@) {
            Some(v) => r == Some(v as i64),
            None => r is None,
        },
{
    let n = s.unicode_len();
    if n == 0 {
        return None;
    }
    let first = s.get_char(0);
    let neg = first == '-';
    let start: usize = if first == '-' || first == '+' {
        1
    } else {
        0
    };
    let ghost digits = s@.subrange(start as int, n as int);
    proof {
        if start == 1 {
            assert(digits =~= s@.drop_first());
        } else {
            assert(digits =~= s@);
        }
    }
    if start >= n {
        return None;
    }
    let limit: u128 = 9223372036854775808;
    let mut acc: u128 = 0;
    let mut big = false;
    let mut i: usize = start;
    while i < n
        invariant
            n == s@.len(),
            start <= i <= n,
            limit == 9223372036854775808u128,
            digits == s@.subrange(start as int, n as int),
            digits == (if s@.len() > 0 && (s@[0] == '-' || s@[0] == '+') {
                s@.drop_first()
            } else {
                s@
            }),
            all_digits(s@.subrange(start as int, i as int)),
            !big ==> acc == digits_value(s@.subrange(start as int, i as int)) && acc <= limit,
            big ==> digits_value(s@.subrange(start as int, i as int)) > limit,
        decreases n - i,
    {
        let c = s.get_char(i);
        if !('0' <= c && c <= '9') {
            assert(digits[i - start] == c);
            return None;
        }
        let ghost pre = s@.subrange(start as int, i as int);
        assert(s@.subrange(start as int, i + 1) =~= pre.push(c));
        proof {
            lemma_digits_value_push(pre, c);
            lemma_digits_value_nonneg(pre);
        }
        let d = (c as u32 - 48) as u128;
        if !big {
            let next = acc * 10 + d;
            if next > limit {
                big = true;
            } else {
                acc = next;
            }
        }
        i = i + 1;
    }
    assert(s@.subrange(start as int, n as int) =~= digits);
    if big {
        return None;
    }
    if neg {
        Some((0i128 - acc as i128) as i64)
    } else if acc == limit {
        None
    } else {
        Some(acc as i64)
    }
}

} // verus!
