//! Integer text forms: rendering an `i32` in decimal, and reading an integer
//! written in a given radix with an optional sign, as `from_str_radix` does.

use vstd::prelude::*;

verus! {

/// The value of `c` read as a digit in base `radix` (`0-9`, then `a-z` or
/// `A-Z` for ten and up), or `None` when it is no digit of that base.
pub open spec fn digit_value(c: char, radix: nat) -> Option<nat> {
    let v: int = if '0' <= c && c <= '9' {
        c as int - '0' as int
    } else if 'a' <= c && c <= 'z' {
        c as int - 'a' as int + 10
    } else if 'A' <= c && c <= 'Z' {
        c as int - 'A' as int + 10
    } else {
        radix as int
    };
    if 0 <= v < radix {
        Some(v as nat)
    } else {
        None
    }
}

/// Every character of `s` is a digit of base `radix`.
pub open spec fn all_digits(s: Seq<char>, radix: nat) -> bool {
    forall|i: int| 0 <= i < s.len() ==> (#[trigger] digit_value(s[i], radix)) is Some
}

/// The number that the digit string `s` denotes in base `radix`
/// (most significant digit first).
pub open spec fn digits_value(s: Seq<char>, radix: nat) -> nat
    decreases s.len(),
{
    if s.len() == 0 {
        0
    } else {
        let d: nat = match digit_value(s.last(), radix) {
            Some(v) => v,
            None => 0,
        };
        digits_value(s.drop_last(), radix) * radix + d
    }
}

/// The magnitude a non-empty digit string denotes, if it is one.
pub open spec fn magnitude(s: Seq<char>, radix: nat) -> Option<int> {
    if s.len() > 0 && all_digits(s, radix) {
        Some(digits_value(s, radix) as int)
    } else {
        None
    }
}

/// The integer that `s` denotes in base `radix`: an optional `+` (or `-`
/// where `signed`) followed by at least one digit, and nothing else.
pub open spec fn spec_parse_int(s: Seq<char>, radix: nat, signed: bool) -> Option<int> {
    if s.len() == 0 {
        None
    } else if (s[0] == '+' || s[0] == '-') && s.len() == 1 {
        None
    } else if s[0] == '+' {
        magnitude(s.skip(1), radix)
    } else if s[0] == '-' && signed {
        match magnitude(s.skip(1), radix) {
            Some(m) => Some(-m),
            None => None,
        }
    } else {
        magnitude(s, radix)
    }
}

/// `s` read as an `i32` in base `radix`: `None` when it is malformed or out
/// of range.
pub open spec fn spec_parse_i32(s: Seq<char>, radix: nat) -> Option<i32> {
    match spec_parse_int(s, radix, true) {
        Some(v) => if i32::MIN <= v <= i32::MAX {
            Some(v as i32)
        } else {
            None
        },
        None => None,
    }
}

/// `s` read as a `u16` in base ten: `None` when it is malformed or out of
/// range.
pub open spec fn spec_parse_u16(s: Seq<char>) -> Option<u16> {
    match spec_parse_int(s, 10, false) {
        Some(v) => if 0 <= v <= u16::MAX {
            Some(v as u16)
        } else {
            None
        },
        None => None,
    }
}

/// The character of decimal digit `d`.
pub open spec fn digit_char(d: nat) -> char {
    seq!['0', '1', '2', '3', '4', '5', '6', '7', '8', '9'][d as int]
}

/// The decimal digits of `n`, without leading zeros (`"0"` for zero).
pub open spec fn decimal_digits(n: nat) -> Seq<char>
    decreases n,
{
    if n < 10 {
        seq![digit_char(n)]
    } else {
        decimal_digits(n / 10).push(digit_char(n % 10))
    }
}

/// The decimal text of `x`: a `-` before the digits of a negative number.
pub open spec fn decimal_string(x: int) -> Seq<char> {
    if x < 0 {
        seq!['-'] + decimal_digits((-x) as nat)
    } else {
        decimal_digits(x as nat)
    }
}

/// The digit that `c` stands for in base `radix`.
pub fn char_digit(c: char, radix: u32) -> (r: Option<u32>)
    requires
        2 <= radix <= 36,
    ensures
        r matches Some(v) ==> digit_value(c, radix as nat) == Some(v as nat),
        r is None ==> digit_value(c, radix as nat) is None,
{
    let v: u32 = if '0' <= c && c <= '9' {
        (c as u32) - ('0' as u32)
    } else if 'a' <= c && c <= 'z' {
        (c as u32) - ('a' as u32) + 10
    } else if 'A' <= c && c <= 'Z' {
        (c as u32) - ('A' as u32) + 10
    } else {
        radix
    };
    if v < radix {
        Some(v)
    } else {
        None
    }
}


/// Reads `s` as an integer in base `radix` as `from_str_radix` does and
/// keeps it when it lies in `min..=max`.
fn parse_int_in_range(s: &str, radix: u32, signed: bool, min: i64, max: i64) -> (r: Option<i64>)
    requires
        2 <= radix <= 36,
        -0x1_0000_0000 <= min <= max <= 0x1_0000_0000,
    ensures
        r == (match spec_parse_int(s@, radix as nat, signed) {
            Some(v) => if min <= v <= max {
                Some(v as i64)
            } else {
                None
            },
            None => None,
        }),
{
    let n: usize = s.unicode_len();
    if n == 0 {
        return None;
    }
    let first = s.get_char(0);
    let mut start: usize = 0;
    let mut negative = false;
    if first == '+' || first == '-' {
        if n == 1 {
            return None;
        }
        if first == '+' {
            start = 1;
        } else if signed {
            start = 1;
            negative = true;
        }
    }
    let ghost digits = s@.skip(start as int);
    assert(digits =~= s@.subrange(start as int, n as int));
    let bound: u64 = 0x1_0000_0000;
    let mut acc: u64 = 0;
    let mut over = false;
    let mut i: usize = start;
    while i < n
        invariant
            2 <= radix <= 36,
            n == s@.len(),
            start <= i <= n,
            start <= 1,
            n >= 1,
            start == 0 ==> s@[0] != '+' && !(s@[0] == '-' && signed),
            start == 1 ==> n >= 2 && (s@[0] == '+' || (s@[0] == '-' && signed)),
            negative <==> (start == 1 && s@[0] == '-'),
            digits == s@.subrange(start as int, n as int),
            all_digits(s@.subrange(start as int, i as int), radix as nat),
            !over ==> acc == digits_value(s@.subrange(start as int, i as int), radix as nat),
            over ==> digits_value(s@.subrange(start as int, i as int), radix as nat) > bound,
            acc <= bound,
            bound == 0x1_0000_0000,
        decreases n - i,
    {
        let c = s.get_char(i);
        let ghost prev = s@.subrange(start as int, i as int);
        let ghost next = s@.subrange(start as int, i as int + 1);
        assert(next.drop_last() =~= prev);
        assert(next.last() == c);
        match char_digit(c, radix) {
            None => {
                assert(digits[i - start] == c);
                assert(!all_digits(digits, radix as nat));
                if start == 0 {
                    assert(digits =~= s@);
                }
                return None;
            },
            Some(d) => {
                let ghost pv = digits_value(prev, radix as nat);
                assert(digits_value(next, radix as nat) == pv * radix + d);
                if !over {
                    assert(acc * radix + d <= 0x1_0000_0000 * 36 + 36) by (nonlinear_arith)
                        requires
                            acc <= 0x1_0000_0000,
                            radix <= 36,
                            d < 36,
                    ;
                    acc = acc * (radix as u64) + (d as u64);
                    if acc > bound {
                        over = true;
                        acc = 0;
                    }
                } else {
                    assert(pv * radix >= pv) by (nonlinear_arith)
                        requires
                            radix >= 1,
                    ;
                }
                assert forall|k: int| 0 <= k < next.len() implies (#[trigger] digit_value(
                    next[k],
                    radix as nat,
                )) is Some by {
                    if k < prev.len() {
                        assert(next[k] == prev[k]);
                    }
                }
            },
        }
        i = i + 1;
    }
    assert(s@.subrange(start as int, n as int) =~= digits);
    if start == 0 {
        assert(digits =~= s@);
    }
    if over {
        return None;
    }
    let v: i64 = if negative {
        -(acc as i64)
    } else {
        acc as i64
    };
    if min <= v && v <= max {
        Some(v)
    } else {
        None
    }
}

/// Reads `s` as an `i32` written in base `radix`, as `i32::from_str_radix`
/// does: an optional sign, then at least one digit, and a value in range.
pub fn parse_i32_radix(s: &str, radix: u32) -> (r: Option<i32>)
    requires
        2 <= radix <= 36,
    ensures
        r == spec_parse_i32(s@, radix as nat),
{
    match parse_int_in_range(s, radix, true, i32::MIN as i64, i32::MAX as i64) {
        Some(v) => Some(v as i32),
        None => None,
    }
}

/// Reads `s` as a decimal `u16`, as `str::parse::<u16>` does.
pub fn parse_u16(s: &str) -> (r: Option<u16>)
    ensures
        r == spec_parse_u16(s@),
{
    match parse_int_in_range(s, 10, false, 0, u16::MAX as i64) {
        Some(v) => Some(v as u16),
        None => None,
    }
}


/// The one-character text of decimal digit `d`.
fn digit_str(d: u64) -> (r: &'static str)
    requires
        d < 10,
    ensures
        r@ == seq![digit_char(d as nat)],
{
    proof {
        reveal_strlit("0");
        reveal_strlit("1");
        reveal_strlit("2");
        reveal_strlit("3");
        reveal_strlit("4");
        reveal_strlit("5");
        reveal_strlit("6");
        reveal_strlit("7");
        reveal_strlit("8");
        reveal_strlit("9");
    }
    match d {
        0 => "0",
        1 => "1",
        2 => "2",
        3 => "3",
        4 => "4",
        5 => "5",
        6 => "6",
        7 => "7",
        8 => "8",
        _ => "9",
    }
}

/// Appends the decimal digits of `n` to `out`.
fn push_decimal_digits(out: &mut String, n: u64)
    ensures
        final(out)@ == old(out)@ + decimal_digits(n as nat),
    decreases n,
{
    if n >= 10 {
        push_decimal_digits(out, n / 10);
    }
    out.append(digit_str(n % 10));
    assert(decimal_digits(n as nat) == if n < 10 {
        seq![digit_char(n as nat)]
    } else {
        decimal_digits((n / 10) as nat).push(digit_char((n % 10) as nat))
    });
}

/// The decimal text of `x`, as `i32::to_string` renders it.
pub fn i32_to_decimal(x: i32) -> (s: String)
    ensures
        s@ == decimal_string(x as int),
{
    let mut out = String::new();
    if x < 0 {
        proof {
            reveal_strlit("-");
        }
        out.append("-");
        let m: u64 = (-(x as i64)) as u64;
        push_decimal_digits(&mut out, m);
    } else {
        push_decimal_digits(&mut out, x as u64);
    }
    out
}


proof fn lemma_digit_char(d: nat)
    requires
        d < 10,
    ensures
        digit_value(digit_char(d), 10) == Some(d),
        digit_char(d) != '+' && digit_char(d) != '-',
{
    assert(digit_char(d) == seq!['0', '1', '2', '3', '4', '5', '6', '7', '8', '9'][d as int]);
}

proof fn lemma_decimal_digits(n: nat)
    ensures
        decimal_digits(n).len() > 0,
        all_digits(decimal_digits(n), 10),
        digits_value(decimal_digits(n), 10) == n,
    decreases n,
{
    let s = decimal_digits(n);
    if n < 10 {
        lemma_digit_char(n);
        assert(s.drop_last() =~= Seq::<char>::empty());
        assert(digits_value(s.drop_last(), 10) == 0);
        assert(s.last() == digit_char(n));
    } else {
        lemma_decimal_digits(n / 10);
        lemma_digit_char(n % 10);
        let p = decimal_digits(n / 10);
        assert(s.drop_last() =~= p);
        assert(s.last() == digit_char(n % 10));
        assert((n / 10) * 10 + n % 10 == n) by (nonlinear_arith);
        assert forall|i: int| 0 <= i < s.len() implies (#[trigger] digit_value(s[i], 10)) is Some by {
            if i < p.len() {
                assert(s[i] == p[i]);
            }
        }
    }
}

/// Reading back the decimal text of an `i32` gives the same number:
/// `parse::<i32>` undoes `to_string`.
pub proof fn lemma_decimal_roundtrip(x: i32)
    ensures
        spec_parse_i32(decimal_string(x as int), 10) == Some(x),
{
    let s = decimal_string(x as int);
    if x < 0 {
        let m: nat = (-x) as nat;
        lemma_decimal_digits(m);
        assert(s.skip(1) =~= decimal_digits(m));
        assert(s[0] == '-');
    } else {
        lemma_decimal_digits(x as nat);
        assert(digit_value(s[0], 10) is Some);
        assert(s[0] != '+' && s[0] != '-');
    }
}

/// The thirty-six digit characters in order of value, lower case.
pub open spec fn digit_table_lower() -> Seq<char> {
    seq!['0', '1', '2', '3', '4', '5', '6', '7', '8', '9', 'a', 'b', 'c', 'd', 'e', 'f', 'g', 'h', 'i', 'j', 'k', 'l', 'm', 'n', 'o', 'p', 'q', 'r', 's', 't', 'u', 'v', 'w', 'x', 'y', 'z']
}

/// The thirty-six digit characters in order of value, upper case.
pub open spec fn digit_table_upper() -> Seq<char> {
    seq!['0', '1', '2', '3', '4', '5', '6', '7', '8', '9', 'A', 'B', 'C', 'D', 'E', 'F', 'G', 'H', 'I', 'J', 'K', 'L', 'M', 'N', 'O', 'P', 'Q', 'R', 'S', 'T', 'U', 'V', 'W', 'X', 'Y', 'Z']
}

/// The digits of every base from 2 to 36 have their usual values: the
/// `d`-th character of `0123456789abcdefghijklmnopqrstuvwxyz`, in either
/// case, is the digit `d` of any base above `d`; and a character is a digit
/// `d` of a base only when it is one of these two characters. So in base 16
/// `0`-`9` are 0-9 and `a`-`f` and `A`-`F` are 10-15, and nothing else is a
/// digit.
pub proof fn lemma_digit_values(c: char, d: nat, radix: nat)
    requires
        d < radix <= 36,
    ensures
        digit_value(digit_table_lower()[d as int], radix) == Some(d),
        digit_value(digit_table_upper()[d as int], radix) == Some(d),
        digit_value(c, radix) == Some(d) ==> c == digit_table_lower()[d as int] || c
            == digit_table_upper()[d as int],
{
    let lo = digit_table_lower();
    let up = digit_table_upper();
    assert(lo.len() == 36 && up.len() == 36);
    assert(lo[d as int] as int == if d < 10 { '0' as int + d } else { 'a' as int + d - 10 });
    assert(up[d as int] as int == if d < 10 { '0' as int + d } else { 'A' as int + d - 10 });
}

} // verus!
