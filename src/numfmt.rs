//! Text of integers, in the shapes used by the disassembly listings:
//! `0x1F`, `+0x1F`, `-0x1F`, `32`.

use vstd::prelude::*;

verus! {

/// The uppercase hexadecimal digit for a value below 16.
pub open spec fn hex_digit(d: nat) -> char {
    if d < 10 {
        ((d + 48) as u8) as char
    } else {
        ((d + 55) as u8) as char
    }
}

/// The uppercase hexadecimal digits of `n`, most significant first, with no
/// leading zero (zero itself is the single digit `0`).
pub open spec fn hex_digits(n: nat) -> Seq<char>
    decreases n,
{
    if n < 16 {
        seq![hex_digit(n)]
    } else {
        hex_digits(n / 16) + seq![hex_digit(n % 16)]
    }
}

/// `0x` followed by the uppercase digits of `n`.
pub open spec fn hex_text(n: nat) -> Seq<char> {
    seq!['0', 'x'] + hex_digits(n)
}

/// The magnitude of a signed value, as a natural number.
pub open spec fn magnitude(v: int) -> nat {
    if v < 0 {
        (-v) as nat
    } else {
        v as nat
    }
}

/// A sign (`+` for zero and above, `-` below) followed by `0x` and the
/// uppercase digits of the magnitude.
pub open spec fn signed_hex_text(v: int) -> Seq<char> {
    (if v < 0 {
        seq!['-']
    } else {
        seq!['+']
    }) + hex_text(magnitude(v))
}

/// The decimal digits of `n`, most significant first, with no leading zero.
pub open spec fn decimal_digits(n: nat) -> Seq<char>
    decreases n,
{
    if n < 10 {
        seq![hex_digit(n)]
    } else {
        decimal_digits(n / 10) + seq![hex_digit(n % 10)]
    }
}

fn digit_str(d: u64) -> (r: &'static str)
    requires
        d < 16,
    ensures
        r@ == seq![hex_digit(d as nat)],
{
    proof {
        reveal_strlit("0");
        reveal_strlit("1");
        reveal_strlit("2");
        reveal_strlit("3");
        reveal_strlit("4");
        reveal_strlit("5");
        reveal_strlit("6");
        reveal_strlit("7");
        reveal_strlit("8");
        reveal_strlit("9");
        reveal_strlit("A");
        reveal_strlit("B");
        reveal_strlit("C");
        reveal_strlit("D");
        reveal_strlit("E");
        reveal_strlit("F");
    }
    match d {
        0 => "0",
        1 => "1",
        2 => "2",
        3 => "3",
        4 => "4",
        5 => "5",
        6 => "6",
        7 => "7",
        8 => "8",
        9 => "9",
        10 => "A",
        11 => "B",
        12 => "C",
        13 => "D",
        14 => "E",
        _ => "F",
    }
}

/// Appends the uppercase hexadecimal digits of `n` to `out`.
pub fn push_hex_digits(out: &mut String, n: u64)
    ensures
        final(out)@ == old(out)@ + hex_digits(n as nat),
    decreases n,
{
    if n >= 16 {
        push_hex_digits(out, n / 16);
    }
    out.append(digit_str(n % 16));
    proof {
        if n >= 16 {
            assert(old(out)@ + hex_digits(n as nat) =~= old(out)@ + hex_digits((n / 16) as nat)
                + seq![hex_digit((n % 16) as nat)]);
        } else {
            assert(n % 16 == n);
        }
    }
}

/// Appends the decimal digits of `n` to `out`.
pub fn push_decimal(out: &mut String, n: u64)
    ensures
        final(out)@ == old(out)@ + decimal_digits(n as nat),
    decreases n,
{
    if n >= 10 {
        push_decimal(out, n / 10);
    }
    out.append(digit_str(n % 10));
    proof {
        if n >= 10 {
            assert(old(out)@ + decimal_digits(n as nat) =~= old(out)@ + decimal_digits(
                (n / 10) as nat,
            ) + seq![hex_digit((n % 10) as nat)]);
        } else {
            assert(n % 10 == n);
        }
    }
}

/// Appends `0x` and the uppercase hexadecimal digits of `n` to `out`.
pub fn push_hex(out: &mut String, n: u64)
    ensures
        final(out)@ == old(out)@ + hex_text(n as nat),
{
    proof {
        reveal_strlit("0x");
    }
    out.append("0x");
    push_hex_digits(out, n);
    assert(final(out)@ =~= old(out)@ + hex_text(n as nat));
}

/// `n` as `0x` followed by its uppercase hexadecimal digits (`0x401010`).
pub fn format_hex(n: u64) -> (r: String)
    ensures
        r@ == hex_text(n as nat),
{
    let mut r = String::new();
    push_hex(&mut r, n);
    assert(r@ =~= hex_text(n as nat));
    r
}

/// A signed value with an explicit sign: `+0x10`, `-0x10`.
pub fn format_signed_hex(v: i64) -> (r: String)
    ensures
        r@ == signed_hex_text(v as int),
{
    proof {
        reveal_strlit("-");
        reveal_strlit("+");
    }
    let mut r = String::new();
    let m: u64;
    if v < 0 {
        r.append("-");
        m = if v == i64::MIN {
            0x8000_0000_0000_0000u64
        } else {
            (-v) as u64
        };
    } else {
        r.append("+");
        m = v as u64;
    }
    push_hex(&mut r, m);
    assert(r@ =~= signed_hex_text(v as int));
    r
}

/// An unsigned value with a leading `+`: `+0x10`.
pub fn format_plus_hex(v: u64) -> (r: String)
    ensures
        r@ == seq!['+'] + hex_text(v as nat),
{
    proof {
        reveal_strlit("+");
    }
    let mut r = String::new();
    r.append("+");
    push_hex(&mut r, v);
    assert(r@ =~= seq!['+'] + hex_text(v as nat));
    r
}

/// The signed difference `new - old`, with its sign: `+0x10`, `-0x10`.
pub fn format_delta(new: u64, old: u64) -> (r: String)
    ensures
        r@ == signed_hex_text(new - old),
{
    proof {
        reveal_strlit("-");
        reveal_strlit("+");
    }
    let mut r: String;
    if new < old {
        r = String::from_str("-");
        push_hex(&mut r, old - new);
    } else {
        r = String::from_str("+");
        push_hex(&mut r, new - old);
    }
    assert(r@ =~= signed_hex_text(new - old));
    r
}

} // verus!
