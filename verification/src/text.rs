//! Decimal and hexadecimal rendering of integers, for messages and for the
//! PCAN-Basic timing string.

use vstd::prelude::*;

verus! {

/// The character of a decimal or hexadecimal digit (lower case).
pub open spec fn digit_char(d: nat) -> char {
    if d < 10 {
        (48 + d) as char
    } else {
        (87 + d) as char
    }
}

/// Decimal rendering of `n`, without leading zeros.
pub open spec fn decimal(n: nat) -> Seq<char>
    decreases n,
{
    if n < 10 {
        seq![digit_char(n)]
    } else {
        decimal(n / 10) + seq![digit_char(n % 10)]
    }
}

/// Lower-case hexadecimal rendering of `n`, without prefix or leading zeros.
pub open spec fn hex_lower(n: nat) -> Seq<char>
    decreases n,
{
    if n < 16 {
        seq![digit_char(n)]
    } else {
        hex_lower(n / 16) + seq![digit_char(n % 16)]
    }
}

/// The upper-case hexadecimal digit of `d < 16`.
pub open spec fn upper_digit_char(d: nat) -> char {
    if d < 10 {
        (48 + d) as char
    } else {
        (55 + d) as char
    }
}

/// Upper-case hexadecimal rendering of `n`, without leading zeros.
pub open spec fn hex_upper(n: nat) -> Seq<char>
    decreases n,
{
    if n < 16 {
        seq![upper_digit_char(n)]
    } else {
        hex_upper(n / 16) + seq![upper_digit_char(n % 16)]
    }
}

/// `k` zero characters.
pub open spec fn zeros(k: nat) -> Seq<char> {
    Seq::new(k, |i: int| '0')
}

/// Upper-case hexadecimal rendering of `n`, zero-padded to at least `w`
/// digits, as `format!("{:0w$X}")` gives it.
pub open spec fn hex_upper_padded(n: nat, w: nat) -> Seq<char> {
    let h = hex_upper(n);
    if h.len() >= w {
        h
    } else {
        zeros((w - h.len()) as nat) + h
    }
}

/// A fraction given in per-mille rendered as a decimal without trailing
/// zeros, as `0.875`, `0.7` or `0.5`, for values in `[100, 999]`.
pub open spec fn per_mille_fraction(pm: nat) -> Seq<char> {
    let d1 = pm / 100;
    let d2 = (pm / 10) % 10;
    let d3 = pm % 10;
    if d3 != 0 {
        seq!['0', '.', digit_char(d1), digit_char(d2), digit_char(d3)]
    } else if d2 != 0 {
        seq!['0', '.', digit_char(d1), digit_char(d2)]
    } else {
        seq!['0', '.', digit_char(d1)]
    }
}

/// The one-character string of a digit.
fn digit_str(d: u64) -> (r: &'static str)
    requires
        d < 16,
    ensures
        r@ == seq![digit_char(d as nat)],
{
    proof {
        reveal_strlit("0");
        reveal_strlit("1");
        reveal_strlit("2");
        reveal_strlit("3");
        reveal_strlit("4");
        reveal_strlit("5");
        reveal_strlit("6");
        reveal_strlit("7");
        reveal_strlit("8");
        reveal_strlit("9");
        reveal_strlit("a");
        reveal_strlit("b");
        reveal_strlit("c");
        reveal_strlit("d");
        reveal_strlit("e");
        reveal_strlit("f");
    }
    let r = match d {
        0 => "0",
        1 => "1",
        2 => "2",
        3 => "3",
        4 => "4",
        5 => "5",
        6 => "6",
        7 => "7",
        8 => "8",
        9 => "9",
        10 => "a",
        11 => "b",
        12 => "c",
        13 => "d",
        14 => "e",
        _ => "f",
    };
    assert(r@ =~= seq![digit_char(d as nat)]);
    r
}

/// The one-character string of an upper-case hexadecimal digit.
fn upper_digit_str(d: u64) -> (r: &'static str)
    requires
        d < 16,
    ensures
        r@ == seq![upper_digit_char(d as nat)],
{
    if d < 10 {
        return digit_str(d);
    }
    proof {
        reveal_strlit("A");
        reveal_strlit("B");
        reveal_strlit("C");
        reveal_strlit("D");
        reveal_strlit("E");
        reveal_strlit("F");
    }
    let r = match d {
        10 => "A",
        11 => "B",
        12 => "C",
        13 => "D",
        14 => "E",
        _ => "F",
    };
    assert(r@ =~= seq![upper_digit_char(d as nat)]);
    r
}

/// Append the upper-case hexadecimal rendering of `n`.
fn push_hex_upper(s: &mut String, n: u64)
    ensures
        final(s)@ == old(s)@ + hex_upper(n as nat),
    decreases n,
{
    if n >= 16 {
        push_hex_upper(s, n / 16);
    }
    s.append(upper_digit_str(n % 16));
    proof {
        assert(s@ =~= old(s)@ + hex_upper(n as nat));
    }
}

/// Number of upper-case hexadecimal digits of `n`.
fn hex_digits(n: u64) -> (r: u64)
    ensures
        r == hex_upper(n as nat).len(),
        1 <= r <= 16,
    decreases n,
{
    if n < 16 {
        1
    } else {
        let k = hex_digits(n / 16);
        proof {
            assert(hex_upper(n as nat).len() == hex_upper((n / 16) as nat).len() + 1);
            reveal_with_fuel(pow16, 16);
            assert(pow16(15) == 0x1000_0000_0000_0000);
            lemma_hex_len_small((n / 16) as nat, 14);
        }
        k + 1
    }
}

/// Below `16^(k+1)` there are at most `k + 1` hexadecimal digits.
proof fn lemma_hex_len_small(n: nat, k: nat)
    requires
        n < pow16(k + 1),
    ensures
        hex_upper(n).len() <= k + 1,
    decreases n,
{
    if n >= 16 {
        if k == 0 {
            assert(pow16(1) == 16);
        } else {
            assert(pow16(k + 1) == 16 * pow16(k));
            assert(n / 16 < pow16(k));
            lemma_hex_len_small(n / 16, (k - 1) as nat);
        }
    }
}

/// `16^k`.
spec fn pow16(k: nat) -> nat
    decreases k,
{
    if k == 0 {
        1
    } else {
        16 * pow16((k - 1) as nat)
    }
}

/// Append the upper-case hexadecimal rendering of `n`, zero-padded to at
/// least `w` digits.
pub fn push_hex_upper_padded(s: &mut String, n: u64, w: u64)
    requires
        w <= 16,
    ensures
        final(s)@ == old(s)@ + hex_upper_padded(n as nat, w as nat),
{
    let k = hex_digits(n);
    let mut i: u64 = k;
    while i < w
        invariant
            k <= i,
            k == hex_upper(n as nat).len(),
            i <= w || i == k,
            s@ == old(s)@ + zeros((i - k) as nat),
        decreases w - i,
    {
        s.append(digit_str(0));
        proof {
            assert(s@ =~= old(s)@ + zeros((i + 1 - k) as nat));
        }
        i = i + 1;
    }
    push_hex_upper(s, n);
    proof {
        if k >= w {
            assert(zeros(0) =~= Seq::<char>::empty());
            assert(s@ =~= old(s)@ + hex_upper(n as nat));
        } else {
            assert(s@ =~= old(s)@ + (zeros((w - k) as nat) + hex_upper(n as nat)));
        }
    }
}

/// Append the decimal rendering of `n`.
pub fn push_decimal(s: &mut String, n: u64)
    ensures
        final(s)@ == old(s)@ + decimal(n as nat),
    decreases n,
{
    if n >= 10 {
        push_decimal(s, n / 10);
    }
    let ghost mid = s@;
    s.append(digit_str(n % 10));
    proof {
        if n >= 10 {
            assert(s@ =~= old(s)@ + decimal(n as nat));
        } else {
            assert(s@ =~= old(s)@ + decimal(n as nat));
        }
    }
}

/// Append the lower-case hexadecimal rendering of `n`.
pub fn push_hex(s: &mut String, n: u64)
    ensures
        final(s)@ == old(s)@ + hex_lower(n as nat),
    decreases n,
{
    if n >= 16 {
        push_hex(s, n / 16);
    }
    s.append(digit_str(n % 16));
    proof {
        assert(s@ =~= old(s)@ + hex_lower(n as nat));
    }
}

/// Append a per-mille value in `[100, 999]` as a decimal fraction.
pub fn push_per_mille_fraction(s: &mut String, pm: u16)
    requires
        100 <= pm <= 999,
    ensures
        final(s)@ == old(s)@ + per_mille_fraction(pm as nat),
{
    let d1 = (pm / 100) as u64;
    let d2 = ((pm / 10) % 10) as u64;
    let d3 = (pm % 10) as u64;
    proof {
        reveal_strlit("0.");
    }
    s.append("0.");
    s.append(digit_str(d1));
    if d3 != 0 {
        s.append(digit_str(d2));
        s.append(digit_str(d3));
    } else if d2 != 0 {
        s.append(digit_str(d2));
    }
    proof {
        assert(s@ =~= old(s)@ + per_mille_fraction(pm as nat));
    }
}

/// Append `t`.
pub fn push_str(s: &mut String, t: &str)
    ensures
        final(s)@ == old(s)@ + t@,
{
    s.append(t);
}

} // verus!
