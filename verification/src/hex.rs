//! Hexadecimal notation for colors: six digits, most significant first, with
//! an optional `#` in front.

use vstd::prelude::*;
use vstd::string::StrSliceExecFns;
use vstd::string::StringExecFns;
use crate::color::RgbColor;

verus! {

/// Whether `c` is one of `0`-`9`, `a`-`f`, `A`-`F`.
pub open spec fn is_hex_digit(c: char) -> bool {
    ('0' <= c && c <= '9') || ('a' <= c && c <= 'f') || ('A' <= c && c <= 'F')
}

/// The number that a hexadecimal digit stands for.
pub open spec fn hex_digit_value(c: char) -> nat
    recommends
        is_hex_digit(c),
{
    if '0' <= c && c <= '9' {
        (c as u32 - '0' as u32) as nat
    } else if 'a' <= c && c <= 'f' {
        (c as u32 - 'a' as u32 + 10) as nat
    } else {
        (c as u32 - 'A' as u32 + 10) as nat
    }
}

/// The digit, in upper case, that stands for a number below 16.
pub open spec fn hex_digit_char(value: nat) -> char
    recommends
        value < 16,
{
    if value < 10 {
        ('0' as u32 + value) as char
    } else {
        ('A' as u32 + value - 10) as char
    }
}

/// `c` with a lowercase hexadecimal letter turned into its upper case.
pub open spec fn upper_hex_digit(c: char) -> char {
    if 'a' <= c && c <= 'f' {
        (c as u32 - 'a' as u32 + 'A' as u32) as char
    } else {
        c
    }
}

/// `text` without the `#` in front of it, if there is one.
pub open spec fn strip_hash(text: Seq<char>) -> Seq<char> {
    if text.len() > 0 && text[0] == '#' {
        text.subrange(1, text.len() as int)
    } else {
        text
    }
}

/// Whether `digits` is exactly six hexadecimal digits.
pub open spec fn is_hex_triplet(digits: Seq<char>) -> bool {
    digits.len() == 6 && forall|i: int| 0 <= i < 6 ==> is_hex_digit(#[trigger] digits[i])
}

/// The 24-bit number that six hexadecimal digits spell, the first digit
/// being the most significant.
pub open spec fn hex_number(digits: Seq<char>) -> nat
    recommends
        is_hex_triplet(digits),
{
    hex_digit_value(digits[0]) * 0x100000 + hex_digit_value(digits[1]) * 0x10000
        + hex_digit_value(digits[2]) * 0x1000 + hex_digit_value(digits[3]) * 0x100
        + hex_digit_value(digits[4]) * 0x10 + hex_digit_value(digits[5])
}

/// The color whose channels are the top, middle and bottom byte of a 24-bit
/// number.
pub open spec fn color_of_number(number: nat) -> RgbColor
    recommends
        number < 0x1000000,
{
    RgbColor {
        r: (number / 0x10000) as u8,
        g: (number / 0x100 % 0x100) as u8,
        b: (number % 0x100) as u8,
    }
}

/// The color that `text` denotes in hexadecimal notation, if it is in that
/// notation.
pub open spec fn hex_color(text: Seq<char>) -> Option<RgbColor> {
    let digits = strip_hash(text);
    if is_hex_triplet(digits) {
        Some(color_of_number(hex_number(digits)))
    } else {
        None
    }
}

/// The six uppercase digits that denote `color`.
pub open spec fn hex_digits(color: RgbColor) -> Seq<char> {
    seq![
        hex_digit_char(color.r as nat / 16),
        hex_digit_char(color.r as nat % 16),
        hex_digit_char(color.g as nat / 16),
        hex_digit_char(color.g as nat % 16),
        hex_digit_char(color.b as nat / 16),
        hex_digit_char(color.b as nat % 16),
    ]
}

/// Text that is not six hexadecimal digits once the leading `#` is taken
/// off, because of its length or because of one of its characters, denotes
/// no color.
pub proof fn lemma_not_hex_no_color(text: Seq<char>)
    requires
        strip_hash(text).len() != 6 || exists|i: int|
            0 <= i < strip_hash(text).len() && !is_hex_digit(#[trigger] strip_hash(text)[i]),
    ensures
        hex_color(text) is None,
{
}

/// A hexadecimal digit keeps its value when it is written in upper case,
/// and the digit written for its value is that uppercase digit.
pub proof fn lemma_digit_value(c: char)
    requires
        is_hex_digit(c),
    ensures
        hex_digit_value(c) < 16,
        hex_digit_char(hex_digit_value(c)) == upper_hex_digit(c),
{
}

/// The digit written for a value below 16 is a hexadecimal digit of that
/// value.
pub proof fn lemma_digit_char(value: nat)
    requires
        value < 16,
    ensures
        is_hex_digit(hex_digit_char(value)),
        hex_digit_value(hex_digit_char(value)) == value,
{
}

/// The bytes of the 24-bit number `high * 0x10000 + middle * 0x100 + low`.
proof fn lemma_bytes_of_number(high: nat, middle: nat, low: nat)
    by (nonlinear_arith)
    requires
        high < 0x100,
        middle < 0x100,
        low < 0x100,
    ensures
        high * 0x10000 + middle * 0x100 + low < 0x1000000,
        (high * 0x10000 + middle * 0x100 + low) / 0x10000 == high,
        (high * 0x10000 + middle * 0x100 + low) / 0x100 % 0x100 == middle,
        (high * 0x10000 + middle * 0x100 + low) % 0x100 == low,
{
}

/// The channels of the color that six hexadecimal digits denote, each in
/// terms of its two digits.
proof fn lemma_channels(digits: Seq<char>)
    requires
        is_hex_triplet(digits),
    ensures
        ({
            let color = color_of_number(hex_number(digits));
            &&& color.r == hex_digit_value(digits[0]) * 16 + hex_digit_value(digits[1])
            &&& color.g == hex_digit_value(digits[2]) * 16 + hex_digit_value(digits[3])
            &&& color.b == hex_digit_value(digits[4]) * 16 + hex_digit_value(digits[5])
        }),
{
    lemma_digit_value(digits[0]);
    lemma_digit_value(digits[1]);
    lemma_digit_value(digits[2]);
    lemma_digit_value(digits[3]);
    lemma_digit_value(digits[4]);
    lemma_digit_value(digits[5]);
    let high = hex_digit_value(digits[0]) * 16 + hex_digit_value(digits[1]);
    let middle = hex_digit_value(digits[2]) * 16 + hex_digit_value(digits[3]);
    let low = hex_digit_value(digits[4]) * 16 + hex_digit_value(digits[5]);
    lemma_bytes_of_number(high, middle, low);
}

/// Six hexadecimal digits, with or without a `#` in front, denote a color,
/// and writing that color down again gives the same six digits, each with
/// the value it had, letters in upper case.
pub proof fn lemma_parse_then_format(text: Seq<char>)
    requires
        is_hex_triplet(strip_hash(text)),
    ensures
        hex_color(text) is Some,
        hex_digits(hex_color(text)->0) == Seq::new(
            6,
            |i: int| upper_hex_digit(strip_hash(text)[i]),
        ),
        forall|i: int|
            0 <= i < 6 ==> hex_digit_value(#[trigger] hex_digits(hex_color(text)->0)[i])
                == hex_digit_value(strip_hash(text)[i]),
{
    let digits = strip_hash(text);
    let color = hex_color(text)->0;
    let written = hex_digits(color);
    lemma_channels(digits);
    assert forall|i: int| 0 <= i < 6 implies #[trigger] written[i] == upper_hex_digit(digits[i])
        && hex_digit_value(written[i]) == hex_digit_value(digits[i]) by {
        lemma_digit_value(digits[0]);
        lemma_digit_value(digits[1]);
        lemma_digit_value(digits[2]);
        lemma_digit_value(digits[3]);
        lemma_digit_value(digits[4]);
        lemma_digit_value(digits[5]);
        lemma_digit_char(hex_digit_value(digits[i]));
    }
}

/// The six digits written for a color denote that color, with or without a
/// `#` in front.
pub proof fn lemma_format_then_parse(color: RgbColor)
    ensures
        is_hex_triplet(hex_digits(color)),
        hex_color(hex_digits(color)) == Some(color),
        hex_color(seq!['#'] + hex_digits(color)) == Some(color),
{
    let digits = hex_digits(color);
    lemma_digit_char(color.r as nat / 16);
    lemma_digit_char(color.r as nat % 16);
    lemma_digit_char(color.g as nat / 16);
    lemma_digit_char(color.g as nat % 16);
    lemma_digit_char(color.b as nat / 16);
    lemma_digit_char(color.b as nat % 16);
    lemma_channels(digits);
}

/// The value of `c` as a hexadecimal digit.
pub fn hex_digit(c: char) -> (value: Option<u8>)
    ensures
        is_hex_digit(c) ==> value == Some(hex_digit_value(c) as u8),
        !is_hex_digit(c) ==> value is None,
        value matches Some(v) ==> v < 16,
{
    let code: u32 = c as u32;
    if 0x30 <= code && code <= 0x39 {
        Some((code - 0x30) as u8)
    } else if 0x61 <= code && code <= 0x66 {
        Some((code - 0x61 + 10) as u8)
    } else if 0x41 <= code && code <= 0x46 {
        Some((code - 0x41 + 10) as u8)
    } else {
        None
    }
}

/// The one-character text of the uppercase digit for `value`.
fn hex_digit_text(value: u8) -> (text: &'static str)
    requires
        value < 16,
    ensures
        text@ == seq![hex_digit_char(value as nat)],
{
    proof {
        reveal_strlit("0");
        reveal_strlit("1");
        reveal_strlit("2");
        reveal_strlit("3");
        reveal_strlit("4");
        reveal_strlit("5");
        reveal_strlit("6");
        reveal_strlit("7");
        reveal_strlit("8");
        reveal_strlit("9");
        reveal_strlit("A");
        reveal_strlit("B");
        reveal_strlit("C");
        reveal_strlit("D");
        reveal_strlit("E");
        reveal_strlit("F");
    }
    let text = match value {
        0 => "0",
        1 => "1",
        2 => "2",
        3 => "3",
        4 => "4",
        5 => "5",
        6 => "6",
        7 => "7",
        8 => "8",
        9 => "9",
        10 => "A",
        11 => "B",
        12 => "C",
        13 => "D",
        14 => "E",
        _ => "F",
    };
    text
}

impl RgbColor {
    /// The color that `hex` denotes: six hexadecimal digits, which may have
    /// one `#` in front of them, read as a 24-bit number whose top, middle
    /// and bottom byte are the red, green and blue channel. Any other text
    /// gives nothing.
    pub fn from_hex(hex: &str) -> (color: Option<Self>)
        ensures
            color == hex_color(hex@),
            color is Some <==> is_hex_triplet(strip_hash(hex@)),
    {
        let length = hex.unicode_len();
        let start: usize = if length > 0 && hex.get_char(0) == '#' {
            1
        } else {
            0
        };
        if length - start != 6 {
            return None;
        }
        let ghost digits = strip_hash(hex@);
        let mut number: u32 = 0;
        let mut i: usize = 0;
        while i < 6
            invariant
                i <= 6,
                start + 6 == length,
                length == hex@.len(),
                digits == strip_hash(hex@),
                digits.len() == 6,
                forall|k: int| 0 <= k < 6 ==> digits[k] == hex@[start + k],
                forall|k: int| 0 <= k < i ==> is_hex_digit(#[trigger] digits[k]),
                number as nat == partial_number(digits, i as nat),
                number < pow16(i as nat),
            decreases 6 - i,
        {
            let c = hex.get_char(start + i);
            match hex_digit(c) {
                Some(value) => {
                    proof {
                        lemma_pow16(i as nat);
                        lemma_pow16((i + 1) as nat);
                        assert(partial_number(digits, (i + 1) as nat) == 16 * partial_number(
                            digits,
                            i as nat,
                        ) + value);
                    }
                    number = number * 16 + value as u32;
                },
                None => {
                    return None;
                },
            }
            i += 1;
        }
        proof {
            lemma_pow16(6);
            lemma_partial_number(digits);
        }
        Some(
            RgbColor {
                r: (number / 0x10000) as u8,
                g: (number / 0x100 % 0x100) as u8,
                b: (number % 0x100) as u8,
            },
        )
    }

    /// The six uppercase hexadecimal digits that denote this color.
    pub fn to_hex(&self) -> (text: String)
        ensures
            text@ == hex_digits(*self),
    {
        let mut text = String::new();
        text.append(hex_digit_text(self.r / 16));
        text.append(hex_digit_text(self.r % 16));
        text.append(hex_digit_text(self.g / 16));
        text.append(hex_digit_text(self.g % 16));
        text.append(hex_digit_text(self.b / 16));
        text.append(hex_digit_text(self.b % 16));
        text
    }
}

/// The number that the first `count` of six digits spell.
spec fn partial_number(digits: Seq<char>, count: nat) -> nat
    decreases count,
{
    if count == 0 {
        0
    } else {
        16 * partial_number(digits, (count - 1) as nat) + hex_digit_value(
            digits[count - 1],
        )
    }
}

/// 16 to the power `n`.
spec fn pow16(n: nat) -> nat
    decreases n,
{
    if n == 0 {
        1
    } else {
        16 * pow16((n - 1) as nat)
    }
}

/// The powers of 16 up to the sixth.
proof fn lemma_pow16(n: nat)
    requires
        n <= 6,
    ensures
        pow16(n) <= 0x1000000,
        n > 0 ==> pow16(n) == 16 * pow16((n - 1) as nat),
        n < 6 ==> pow16(n) <= 0x100000,
        pow16(6) == 0x1000000,
{
    reveal_with_fuel(pow16, 7);
}

/// Six digits taken one by one spell the number of the whole.
proof fn lemma_partial_number(digits: Seq<char>)
    ensures
        partial_number(digits, 6) == hex_number(digits),
{
    reveal_with_fuel(partial_number, 7);
}

} // verus!
