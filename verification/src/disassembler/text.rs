//! Hexadecimal text.

use vstd::prelude::*;
use vstd::string::StringExecFns;
use crate::arith::{hi_byte, high_byte, lo_byte, low_byte};

verus! {

/// The upper-case hexadecimal digit for `n`, where `n` is below 16.
pub open spec fn hex_digit(n: u8) -> char {
    match n {
        0 => '0',
        1 => '1',
        2 => '2',
        3 => '3',
        4 => '4',
        5 => '5',
        6 => '6',
        7 => '7',
        8 => '8',
        9 => '9',
        10 => 'A',
        11 => 'B',
        12 => 'C',
        13 => 'D',
        14 => 'E',
        _ => 'F',
    }
}

/// A byte as two hexadecimal digits.
pub open spec fn hex2(value: u8) -> Seq<char> {
    seq![hex_digit(value / 16), hex_digit(value % 16)]
}

/// A 16-bit value as four hexadecimal digits.
pub open spec fn hex4(value: u16) -> Seq<char> {
    hex2(high_byte(value)) + hex2(low_byte(value))
}

/// The binary digit for `bit`, which is 0 or 1.
pub open spec fn binary_digit(bit: u8) -> char {
    if bit == 0 {
        '0'
    } else {
        '1'
    }
}

/// A byte as eight binary digits, the highest bit first.
pub open spec fn binary8(value: u8) -> Seq<char> {
    seq![
        binary_digit(value / 128 % 2),
        binary_digit(value / 64 % 2),
        binary_digit(value / 32 % 2),
        binary_digit(value / 16 % 2),
        binary_digit(value / 8 % 2),
        binary_digit(value / 4 % 2),
        binary_digit(value / 2 % 2),
        binary_digit(value % 2),
    ]
}

/// `width` spaces, or none if `width` is not positive.
pub open spec fn spaces(width: int) -> Seq<char> {
    Seq::new(
        if width > 0 {
            width as nat
        } else {
            0
        },
        |i: int| ' ',
    )
}

/// `text` followed by as many spaces as it takes to make it `width`
/// characters long; `text` itself if it is that long already.
pub open spec fn pad_right(text: Seq<char>, width: int) -> Seq<char> {
    text + spaces(width - text.len())
}

/// The one-character text of a hexadecimal digit.
fn digit_str(n: u8) -> (text: &'static str)
    requires
        n < 16,
    ensures
        text@ == seq![hex_digit(n)],
{
    proof {
        reveal_strlit("0");
        reveal_strlit("1");
        reveal_strlit("2");
        reveal_strlit("3");
        reveal_strlit("4");
        reveal_strlit("5");
        reveal_strlit("6");
        reveal_strlit("7");
        reveal_strlit("8");
        reveal_strlit("9");
        reveal_strlit("A");
        reveal_strlit("B");
        reveal_strlit("C");
        reveal_strlit("D");
        reveal_strlit("E");
        reveal_strlit("F");
    }
    let text = match n {
        0 => "0",
        1 => "1",
        2 => "2",
        3 => "3",
        4 => "4",
        5 => "5",
        6 => "6",
        7 => "7",
        8 => "8",
        9 => "9",
        10 => "A",
        11 => "B",
        12 => "C",
        13 => "D",
        14 => "E",
        _ => "F",
    };
    assert(text@ =~= seq![hex_digit(n)]);
    text
}

/// Appends the two hexadecimal digits of `value` to `out`.
pub fn push_hex2(out: &mut String, value: u8)
    ensures
        final(out)@ == old(out)@ + hex2(value),
{
    out.append(digit_str(value / 16));
    out.append(digit_str(value % 16));
    assert(out@ =~= old(out)@ + hex2(value));
}

/// Appends the four hexadecimal digits of `value` to `out`.
pub fn push_hex4(out: &mut String, value: u16)
    ensures
        final(out)@ == old(out)@ + hex4(value),
{
    push_hex2(out, hi_byte(value));
    push_hex2(out, lo_byte(value));
    assert(out@ =~= old(out)@ + hex4(value));
}

/// Appends the binary digit for `bit` to `out`.
fn push_binary_digit(out: &mut String, bit: u8)
    ensures
        final(out)@ == old(out)@.push(binary_digit(bit)),
{
    proof {
        reveal_strlit("0");
        reveal_strlit("1");
    }
    if bit == 0 {
        out.append("0");
    } else {
        out.append("1");
    }
    assert(out@ =~= old(out)@.push(binary_digit(bit)));
}

/// Appends the eight binary digits of `value` to `out`.
pub fn push_binary8(out: &mut String, value: u8)
    ensures
        final(out)@ == old(out)@ + binary8(value),
{
    push_binary_digit(out, value / 128 % 2);
    push_binary_digit(out, value / 64 % 2);
    push_binary_digit(out, value / 32 % 2);
    push_binary_digit(out, value / 16 % 2);
    push_binary_digit(out, value / 8 % 2);
    push_binary_digit(out, value / 4 % 2);
    push_binary_digit(out, value / 2 % 2);
    push_binary_digit(out, value % 2);
    assert(out@ =~= old(out)@ + binary8(value));
}

/// Appends `width` spaces to `out`.
pub fn push_spaces(out: &mut String, width: usize)
    ensures
        final(out)@ == old(out)@ + spaces(width as int),
{
    proof {
        reveal_strlit(" ");
    }
    let mut i: usize = 0;
    while i < width
        invariant
            i <= width,
            " "@ == seq![' '],
            out@ == old(out)@ + spaces(i as int),
        decreases width - i,
    {
        out.append(" ");
        i = i + 1;
        assert(out@ =~= old(out)@ + spaces(i as int));
    }
}

} // verus!
