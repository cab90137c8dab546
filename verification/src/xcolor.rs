//! Numbers and colors as operating system commands write them: a decimal
//! index, and a color as `rgb:r/g/b` or as `#rgb` with one to four
//! hexadecimal digits for each component.
//!
//! Only these forms are read. A sign before a number, a `#` color whose
//! digits do not split into three groups of equal length, and a group of
//! more than four digits are refused.

use vstd::prelude::*;
use crate::color::Rgb;

verus! {

/// The value of the digit `b` in the given radix, 10 or 16; `None` where
/// `b` is no such digit.
pub open spec fn digit_value(b: u8, radix: int) -> Option<int> {
    if 0x30 <= b <= 0x39 {
        Some(b - 0x30)
    } else if radix == 16 && 0x61 <= b <= 0x66 {
        Some(b - 0x61 + 10)
    } else if radix == 16 && 0x41 <= b <= 0x46 {
        Some(b - 0x41 + 10)
    } else {
        None
    }
}

/// The number that the digits write in the given radix; `None` where one of
/// them is no digit. No digits write zero.
pub open spec fn number_value(digits: Seq<u8>, radix: int) -> Option<int>
    decreases digits.len(),
{
    if digits.len() == 0 {
        Some(0)
    } else {
        match (number_value(digits.drop_last(), radix), digit_value(digits.last(), radix)) {
            (Some(value), Some(digit)) => Some(value * radix + digit),
            _ => None,
        }
    }
}

/// The index that `input` writes in decimal: at least one digit, and a
/// value of at most 255.
pub open spec fn decimal_index(input: Seq<u8>) -> Option<u8> {
    if input.len() == 0 {
        None
    } else {
        match number_value(input, 10) {
            Some(value) => if value <= 255 {
                Some(value as u8)
            } else {
                None
            },
            None => None,
        }
    }
}

/// The largest number that `len` hexadecimal digits write, for one to four
/// digits.
pub open spec fn hex_max(len: int) -> int {
    if len == 1 {
        0xf
    } else if len == 2 {
        0xff
    } else if len == 3 {
        0xfff
    } else {
        0xffff
    }
}

/// The component that one to four hexadecimal digits write in the form
/// `rgb:r/g/b`: their value scaled from the range of that many digits to a
/// byte.
pub open spec fn scaled_component(digits: Seq<u8>) -> Option<u8> {
    if digits.len() == 0 || digits.len() > 4 {
        None
    } else {
        match number_value(digits, 16) {
            Some(value) => Some((255 * value / hex_max(digits.len() as int)) as u8),
            None => None,
        }
    }
}

/// The component that one to four hexadecimal digits write in the form
/// `#rgb`: the two most significant digits, a single digit standing for the
/// upper half of the byte.
pub open spec fn leading_component(digits: Seq<u8>) -> Option<u8> {
    if digits.len() == 0 || digits.len() > 4 {
        None
    } else {
        match number_value(digits, 16) {
            Some(value) => Some(
                (if digits.len() == 1 {
                    value * 16
                } else if digits.len() == 2 {
                    value
                } else if digits.len() == 3 {
                    value / 16
                } else {
                    value / 256
                }) as u8,
            ),
            None => None,
        }
    }
}

/// Where the first `/` of `s` stands; the length of `s` where there is
/// none.
pub open spec fn first_slash(s: Seq<u8>) -> int
    decreases s.len(),
{
    if s.len() == 0 {
        0
    } else if s[0] == 0x2f {
        0
    } else {
        1 + first_slash(s.subrange(1, s.len() as int))
    }
}

/// The color that `r/g/b` writes: three components between two slashes.
pub open spec fn slashed_color(s: Seq<u8>) -> Option<Rgb> {
    let i = first_slash(s);
    if i >= s.len() {
        None
    } else {
        let rest = s.subrange(i + 1, s.len() as int);
        let j = first_slash(rest);
        if j >= rest.len() {
            None
        } else {
            match (
                scaled_component(s.subrange(0, i)),
                scaled_component(rest.subrange(0, j)),
                scaled_component(rest.subrange(j + 1, rest.len() as int)),
            ) {
                (Some(r), Some(g), Some(b)) => Some((r, g, b)),
                _ => None,
            }
        }
    }
}

/// The color that `rgb` writes after a `#`: three groups of the same
/// number of digits, one to four.
pub open spec fn packed_color(s: Seq<u8>) -> Option<Rgb> {
    let n = s.len() as int / 3;
    if s.len() == 0 || s.len() > 12 || s.len() % 3 != 0 {
        None
    } else {
        match (
            leading_component(s.subrange(0, n)),
            leading_component(s.subrange(n, 2 * n)),
            leading_component(s.subrange(2 * n, 3 * n)),
        ) {
            (Some(r), Some(g), Some(b)) => Some((r, g, b)),
            _ => None,
        }
    }
}

/// The bytes of `rgb:`.
pub open spec fn rgb_prefix() -> Seq<u8> {
    seq![0x72u8, 0x67, 0x62, 0x3a]
}

/// The color that `s` writes, as `#rgb` or as `rgb:r/g/b`.
pub open spec fn color_value(s: Seq<u8>) -> Option<Rgb> {
    if s.len() > 0 && s[0] == 0x23 {
        packed_color(s.subrange(1, s.len() as int))
    } else if s.len() >= 4 && s.subrange(0, 4) == rgb_prefix() {
        slashed_color(s.subrange(4, s.len() as int))
    } else {
        None
    }
}

/// A number with a digit that is no digit is no number, whatever follows.
proof fn lemma_number_stays_none(digits: Seq<u8>, upto: int, radix: int)
    requires
        0 <= upto <= digits.len(),
        number_value(digits.subrange(0, upto), radix) is None,
    ensures
        number_value(digits, radix) is None,
    decreases digits.len() - upto,
{
    if upto < digits.len() {
        assert(digits.subrange(0, upto + 1).drop_last() =~= digits.subrange(0, upto));
        lemma_number_stays_none(digits, upto + 1, radix);
    } else {
        assert(digits.subrange(0, upto) =~= digits);
    }
}

/// More digits never write a smaller number.
proof fn lemma_number_grows(digits: Seq<u8>, upto: int, radix: int)
    requires
        0 <= upto <= digits.len(),
        radix == 10 || radix == 16,
    ensures
        number_value(digits.subrange(0, upto), radix) matches Some(part) ==> part >= 0 && (
        number_value(digits, radix) matches Some(whole) ==> whole >= part),
    decreases digits.len() - upto,
{
    lemma_number_nonnegative(digits.subrange(0, upto), radix);
    if upto < digits.len() {
        let shorter = digits.subrange(0, upto);
        let longer = digits.subrange(0, upto + 1);
        assert(longer.drop_last() =~= shorter);
        lemma_number_nonnegative(longer, radix);
        lemma_number_grows(digits, upto + 1, radix);
        match (number_value(shorter, radix), number_value(longer, radix)) {
            (Some(part), Some(next)) => {
                assert(next >= part) by (nonlinear_arith)
                    requires
                        part >= 0,
                        radix >= 1,
                        next >= part * radix,
                ;
            },
            (Some(part), None) => {
                lemma_number_stays_none(digits, upto + 1, radix);
            },
            _ => {},
        }
    } else {
        assert(digits.subrange(0, upto) =~= digits);
    }
}

/// A number is not negative.
proof fn lemma_number_nonnegative(digits: Seq<u8>, radix: int)
    requires
        radix == 10 || radix == 16,
    ensures
        number_value(digits, radix) matches Some(value) ==> value >= 0,
    decreases digits.len(),
{
    if digits.len() > 0 {
        lemma_number_nonnegative(digits.drop_last(), radix);
    }
}

/// The value of one digit in the given radix, 10 or 16.
fn digit(b: u8, hex: bool) -> (r: Option<u8>)
    ensures
        match r {
            Some(d) => digit_value(
                b,
                if hex {
                    16
                } else {
                    10
                },
            ) == Some(d as int) && d < 16,
            None => digit_value(
                b,
                if hex {
                    16
                } else {
                    10
                },
            ) is None,
        },
{
    if 0x30 <= b && b <= 0x39 {
        Some(b - 0x30)
    } else if hex && 0x61 <= b && b <= 0x66 {
        Some(b - 0x61 + 10)
    } else if hex && 0x41 <= b && b <= 0x46 {
        Some(b - 0x41 + 10)
    } else {
        None
    }
}

/// The index that `input` writes in decimal, if it writes one.
pub fn parse_number(input: &[u8]) -> (r: Option<u8>)
    ensures
        r == decimal_index(input@),
{
    if input.len() == 0 {
        return None;
    }
    let mut value: u32 = 0;
    let mut i: usize = 0;
    assert(input@.subrange(0, 0) =~= Seq::<u8>::empty());
    while i < input.len()
        invariant
            i <= input.len(),
            value <= 255,
            number_value(input@.subrange(0, i as int), 10) == Some(value as int),
        decreases input.len() - i,
    {
        assert(input@.subrange(0, i + 1).drop_last() =~= input@.subrange(0, i as int));
        match digit(input[i], false) {
            Some(d) => {
                value = value * 10 + d as u32;
                if value > 255 {
                    proof {
                        lemma_number_grows(input@, i + 1, 10);
                    }
                    return None;
                }
            },
            None => {
                proof {
                    lemma_number_stays_none(input@, i + 1, 10);
                }
                return None;
            },
        }
        i += 1;
    }
    assert(input@.subrange(0, i as int) =~= input@);
    Some(value as u8)
}

/// The number that one to four hexadecimal digits write.
fn parse_hex(digits: &[u8]) -> (r: Option<u32>)
    requires
        1 <= digits@.len() <= 4,
    ensures
        match r {
            Some(value) => number_value(digits@, 16) == Some(value as int) && value <= hex_max(
                digits@.len() as int,
            ),
            None => number_value(digits@, 16) is None,
        },
{
    let mut value: u32 = 0;
    let mut i: usize = 0;
    assert(digits@.subrange(0, 0) =~= Seq::<u8>::empty());
    while i < digits.len()
        invariant
            i <= digits.len() <= 4,
            number_value(digits@.subrange(0, i as int), 16) == Some(value as int),
            i == 0 ==> value == 0,
            i >= 1 ==> value <= hex_max(i as int),
        decreases digits.len() - i,
    {
        assert(digits@.subrange(0, i + 1).drop_last() =~= digits@.subrange(0, i as int));
        match digit(digits[i], true) {
            Some(d) => {
                value = value * 16 + d as u32;
            },
            None => {
                proof {
                    lemma_number_stays_none(digits@, i + 1, 16);
                }
                return None;
            },
        }
        i += 1;
    }
    assert(digits@.subrange(0, i as int) =~= digits@);
    Some(value)
}

/// The part of `s` from `from` up to `to`, copied out.
fn part(s: &[u8], from: usize, to: usize) -> (r: Vec<u8>)
    requires
        from <= to <= s@.len(),
    ensures
        r@ == s@.subrange(from as int, to as int),
{
    let mut out: Vec<u8> = Vec::new();
    let mut i: usize = from;
    while i < to
        invariant
            from <= i <= to <= s@.len(),
            out@ == s@.subrange(from as int, i as int),
        decreases to - i,
    {
        out.push(s[i]);
        assert(out@ =~= s@.subrange(from as int, i + 1));
        i += 1;
    }
    out
}

fn scale(digits: &[u8]) -> (r: Option<u8>)
    ensures
        r == scaled_component(digits@),
{
    let len = digits.len();
    if len == 0 || len > 4 {
        return None;
    }
    match parse_hex(digits) {
        Some(value) => {
            let max: u32 = if len == 1 {
                0xf
            } else if len == 2 {
                0xff
            } else if len == 3 {
                0xfff
            } else {
                0xffff
            };
            assert(255 * value / (max as int) <= 255) by (nonlinear_arith)
                requires
                    0 <= value <= max,
                    max > 0,
            ;
            Some((255 * value / max) as u8)
        },
        None => None,
    }
}

fn leading(digits: &[u8]) -> (r: Option<u8>)
    ensures
        r == leading_component(digits@),
{
    let len = digits.len();
    if len == 0 || len > 4 {
        return None;
    }
    match parse_hex(digits) {
        Some(value) => {
            let byte: u32 = if len == 1 {
                value * 16
            } else if len == 2 {
                value
            } else if len == 3 {
                value / 16
            } else {
                value / 256
            };
            Some(byte as u8)
        },
        None => None,
    }
}

/// Where the first `/` of `s` from `from` on stands; the length of `s` where
/// there is none.
fn find_slash(s: &[u8], from: usize) -> (r: usize)
    requires
        from <= s@.len(),
    ensures
        from <= r <= s@.len(),
        r - from == first_slash(s@.subrange(from as int, s@.len() as int)),
    decreases s@.len() - from,
{
    let ghost tail = s@.subrange(from as int, s@.len() as int);
    if from == s.len() {
        from
    } else if s[from] == 0x2f {
        assert(tail[0] == s@[from as int]);
        from
    } else {
        assert(tail[0] == s@[from as int]);
        assert(tail.subrange(1, tail.len() as int) =~= s@.subrange(from + 1, s@.len() as int));
        find_slash(s, from + 1)
    }
}

fn parse_slashed(s: &[u8]) -> (r: Option<Rgb>)
    ensures
        r == slashed_color(s@),
{
    let len = s.len();
    assert(s@.subrange(0, len as int) =~= s@);
    let i = find_slash(s, 0);
    if i >= len {
        return None;
    }
    let j = find_slash(s, i + 1);
    let ghost rest = s@.subrange(i + 1, len as int);
    if j >= len {
        return None;
    }
    let red = part(s, 0, i);
    let green = part(s, i + 1, j);
    let blue = part(s, j + 1, len);
    proof {
        assert(green@ =~= rest.subrange(0, j - (i + 1)));
        assert(blue@ =~= rest.subrange(j - (i + 1) + 1, rest.len() as int));
    }
    match (scale(red.as_slice()), scale(green.as_slice()), scale(blue.as_slice())) {
        (Some(r), Some(g), Some(b)) => Some((r, g, b)),
        _ => None,
    }
}

fn parse_packed(s: &[u8]) -> (r: Option<Rgb>)
    ensures
        r == packed_color(s@),
{
    let len = s.len();
    if len == 0 || len > 12 || len % 3 != 0 {
        return None;
    }
    let n = len / 3;
    let red = part(s, 0, n);
    let green = part(s, n, 2 * n);
    let blue = part(s, 2 * n, 3 * n);
    match (leading(red.as_slice()), leading(green.as_slice()), leading(blue.as_slice())) {
        (Some(r), Some(g), Some(b)) => Some((r, g, b)),
        _ => None,
    }
}

/// The color that `color` writes as `#rgb` or as `rgb:r/g/b`, if it writes
/// one.
pub fn xparse_color(color: &[u8]) -> (r: Option<Rgb>)
    ensures
        r == color_value(color@),
{
    let len = color.len();
    if len > 0 && color[0] == 0x23 {
        let rest = part(color, 1, len);
        parse_packed(rest.as_slice())
    } else if len >= 4 {
        let ghost head = color@.subrange(0, 4);
        let ghost want = rgb_prefix();
        assert(want.len() == 4 && want[0] == 0x72 && want[1] == 0x67 && want[2] == 0x62 && want[3]
            == 0x3a);
        assert(head.len() == 4 && head[0] == color@[0] && head[1] == color@[1] && head[2]
            == color@[2] && head[3] == color@[3]);
        if color[0] == 0x72 && color[1] == 0x67 && color[2] == 0x62 && color[3] == 0x3a {
            assert(head =~= want);
            let rest = part(color, 4, len);
            parse_slashed(rest.as_slice())
        } else {
            None
        }
    } else {
        None
    }
}

} // verus!
