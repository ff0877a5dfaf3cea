//! Plain-text PPM ("P3") encoding: a header, then one line of three decimal
//! channel values per pixel.

use vstd::prelude::*;

verus! {

/// ASCII `P`.
pub const ASCII_P: u8 = 80;

/// ASCII `3`.
pub const ASCII_THREE: u8 = 51;

/// ASCII space.
pub const ASCII_SPACE: u8 = 32;

/// ASCII line feed.
pub const ASCII_NEWLINE: u8 = 10;

/// Largest channel value that the encoded images declare.
pub const MAX_CHANNEL: u32 = 255;

/// ASCII code of the digit `d` (`d < 10`).
pub open spec fn digit_byte(d: nat) -> u8
    recommends
        d < 10,
{
    (48 + d) as u8
}

/// The shortest decimal spelling of `n`, as ASCII bytes.
pub open spec fn decimal(n: nat) -> Seq<u8>
    decreases n,
{
    if n < 10 {
        seq![digit_byte(n)]
    } else {
        decimal(n / 10).push(digit_byte(n % 10))
    }
}

/// Appends the decimal spelling of `n` to `out`.
pub fn push_decimal(out: &mut Vec<u8>, n: u32)
    ensures
        final(out)@ == old(out)@ + decimal(n as nat),
    decreases n,
{
    if n >= 10 {
        push_decimal(out, n / 10);
    }
    let d: u8 = (n % 10) as u8;
    out.push(48 + d);
    proof {
        assert(decimal(n as nat) == if n < 10 {
            seq![digit_byte(n as nat)]
        } else {
            decimal((n / 10) as nat).push(digit_byte((n % 10) as nat))
        });
    }
}

/// A pixel's three channel values, each already in `0..=255`.
#[derive(Clone, Copy, Debug, PartialEq, Eq, Structural)]
pub struct Rgb {
    pub r: u8,
    pub g: u8,
    pub b: u8,
}

/// The text `P3\n<width> <height>\n255\n`.
pub open spec fn header_text(width: nat, height: nat) -> Seq<u8> {
    seq![ASCII_P, ASCII_THREE, ASCII_NEWLINE] + decimal(width) + seq![ASCII_SPACE] + decimal(
        height,
    ) + seq![ASCII_NEWLINE] + decimal(MAX_CHANNEL as nat) + seq![ASCII_NEWLINE]
}

/// The text `<r> <g> <b>\n`.
pub open spec fn pixel_text(c: Rgb) -> Seq<u8> {
    decimal(c.r as nat) + seq![ASCII_SPACE] + decimal(c.g as nat) + seq![ASCII_SPACE] + decimal(c.b as nat)
        + seq![ASCII_NEWLINE]
}

/// Encodes the header of a P3 image of the given size, with 255 as the
/// largest channel value.
pub fn header(width: u32, height: u32) -> (r: Vec<u8>)
    ensures
        r@ == header_text(width as nat, height as nat),
{
    let mut out: Vec<u8> = Vec::new();
    out.push(ASCII_P);
    out.push(ASCII_THREE);
    out.push(ASCII_NEWLINE);
    push_decimal(&mut out, width);
    out.push(ASCII_SPACE);
    push_decimal(&mut out, height);
    out.push(ASCII_NEWLINE);
    push_decimal(&mut out, MAX_CHANNEL);
    out.push(ASCII_NEWLINE);
    assert(out@ =~= header_text(width as nat, height as nat));
    out
}

/// Encodes the line of one pixel: its three channels in decimal, separated
/// by single spaces and ended by a newline.
pub fn pixel_line(c: Rgb) -> (r: Vec<u8>)
    ensures
        r@ == pixel_text(c),
{
    let mut out: Vec<u8> = Vec::new();
    push_decimal(&mut out, c.r as u32);
    out.push(ASCII_SPACE);
    push_decimal(&mut out, c.g as u32);
    out.push(ASCII_SPACE);
    push_decimal(&mut out, c.b as u32);
    out.push(ASCII_NEWLINE);
    assert(out@ =~= pixel_text(c));
    out
}

} // verus!
