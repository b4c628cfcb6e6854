//! The text of a plain pixmap: a head of three lines, then one line of three
//! numbers for each pixel.

use crate::math::scalar::{Scalar, EXPONENT_BIAS, FRACTION_SPAN, INFINITY_BITS, SIGN_BIT};
use crate::math::vec3::ColorRGB;
use vstd::arithmetic::div_mod::lemma_div_is_ordered_by_denominator;
use vstd::arithmetic::power2::{
    lemma2_to64_rest, lemma_pow2_strictly_increases, lemma_pow2_unfold, pow2,
};
use vstd::prelude::*;

verus! {

/// A colour as it is written: red, green and blue from 0 to 255.
#[derive(Clone, Copy, Debug, PartialEq, Eq, Structural)]
pub struct Rgb {
    pub r: u8,
    pub g: u8,
    pub b: u8,
}

/// The whole part of `x`, held within 0 and 255: what is left of a number
/// when the digits behind the point are cut off, 0 for a number below one or
/// a NaN, and 255 for a number from 256 on.
pub open spec fn channel_spec(x: Scalar) -> int {
    let e = x.exponent_field();
    if x.negative() || x.is_nan_spec() || e < EXPONENT_BIAS {
        0
    } else if e > EXPONENT_BIAS + 7 {
        255
    } else {
        (FRACTION_SPAN + x.fraction_field()) / (pow2((EXPONENT_BIAS + 52 - e) as nat) as int)
    }
}

/// The colour whose channels are the whole parts of those of `color`.
pub open spec fn quantize_spec(color: ColorRGB) -> Rgb {
    Rgb {
        r: channel_spec(color.x) as u8,
        g: channel_spec(color.y) as u8,
        b: channel_spec(color.z) as u8,
    }
}

/// The decimal digits of `n` as characters, the most significant first.
pub open spec fn digits(n: nat) -> Seq<u8>
    decreases n,
{
    if n < 10 {
        seq![(48 + n) as u8]
    } else {
        digits(n / 10).push((48 + n % 10) as u8)
    }
}

/// `n` as it is written: a minus sign where it is negative, then its digits.
pub open spec fn decimal(n: int) -> Seq<u8> {
    if n < 0 {
        seq![45u8] + digits((-n) as nat)
    } else {
        digits(n as nat)
    }
}

/// The number that a text of digits stands for.
pub open spec fn digits_value(text: Seq<u8>) -> int
    decreases text.len(),
{
    if text.len() == 0 {
        0
    } else {
        10 * digits_value(text.drop_last()) + (text.last() - 48)
    }
}

/// The head of a pixmap of the given size: the line `P3`, the line of width
/// and height, and the line `255`, the largest value of a channel.
pub open spec fn header_text(image_width: int, image_height: int) -> Seq<u8> {
    seq![80u8, 51u8, 10u8] + decimal(image_width) + seq![32u8] + decimal(image_height) + seq![
        10u8,
        50u8,
        53u8,
        53u8,
        10u8,
    ]
}

/// The line of one pixel: red, green and blue with a blank between them.
pub open spec fn pixel_text(color: Rgb) -> Seq<u8> {
    digits(color.r as nat) + seq![32u8] + digits(color.g as nat) + seq![32u8] + digits(
        color.b as nat,
    ) + seq![10u8]
}

/// The digits of a number are digits, begin with a zero only where the
/// number is zero, and stand for the number.
pub proof fn digits_read_back(n: nat)
    ensures
        digits(n).len() >= 1,
        forall|i: int| 0 <= i < digits(n).len() ==> 48 <= #[trigger] digits(n)[i] <= 57,
        digits(n)[0] == 48 <==> n == 0,
        digits_value(digits(n)) == n,
    decreases n,
{
    let text = digits(n);
    if n >= 10 {
        digits_read_back(n / 10);
        assert(text.drop_last() == digits(n / 10));
        assert(text.last() == 48 + n % 10);
    } else {
        assert(text.drop_last() == Seq::<u8>::empty());
        assert(digits_value(text.drop_last()) == 0);
        assert(text.last() == 48 + n);
    }
    assert(digits_value(text) == 10 * digits_value(text.drop_last()) + (text.last() - 48));
}

/// The whole part of `x`, held within 0 and 255.
pub fn channel(x: Scalar) -> (r: u8)
    ensures
        r == channel_spec(x),
{
    if x.bits >= SIGN_BIT || x.bits > INFINITY_BITS {
        return 0;
    }
    let e = x.bits / FRACTION_SPAN;
    let fraction = x.bits % FRACTION_SPAN;
    if e < EXPONENT_BIAS {
        return 0;
    }
    if e > EXPONENT_BIAS + 7 {
        return 255;
    }
    let mut divisor: u64 = 0x2000_0000_0000;
    let mut k: u64 = EXPONENT_BIAS + 7;
    proof {
        lemma2_to64_rest();
    }
    while k > e
        invariant
            EXPONENT_BIAS <= e <= k <= EXPONENT_BIAS + 7,
            divisor == pow2((EXPONENT_BIAS + 52 - k) as nat),
            0x2000_0000_0000 <= divisor <= FRACTION_SPAN,
        decreases k - e,
    {
        proof {
            lemma_pow2_unfold((EXPONENT_BIAS + 52 - (k - 1)) as nat);
            lemma_pow2_strictly_increases((EXPONENT_BIAS + 52 - k) as nat, 52);
            lemma2_to64_rest();
        }
        divisor = divisor * 2;
        k = k - 1;
    }
    proof {
        lemma_div_is_ordered_by_denominator(
            FRACTION_SPAN + fraction,
            0x2000_0000_0000,
            divisor as int,
        );
    }
    ((FRACTION_SPAN + fraction) / divisor) as u8
}

/// The colour as it is written, from channels that were scaled to the range
/// of a byte.
pub fn quantize(color: ColorRGB) -> (r: Rgb)
    ensures
        r == quantize_spec(color),
{
    Rgb { r: channel(color.x), g: channel(color.y), b: channel(color.z) }
}

/// Appends the digits of `n`.
fn push_digits(out: &mut Vec<u8>, n: u32)
    ensures
        final(out)@ == old(out)@ + digits(n as nat),
    decreases n,
{
    if n >= 10 {
        push_digits(out, n / 10);
    }
    out.push(48 + (n % 10) as u8);
}

/// Appends `n` as it is written.
fn push_decimal(out: &mut Vec<u8>, n: i32)
    ensures
        final(out)@ == old(out)@ + decimal(n as int),
{
    if n < 0 {
        out.push(45);
        push_digits(out, (-(n as i64)) as u32);
    } else {
        push_digits(out, n as u32);
    }
}

/// Appends the head of a pixmap of the given size.
pub fn push_header(out: &mut Vec<u8>, image_width: i32, image_height: i32)
    ensures
        final(out)@ == old(out)@ + header_text(image_width as int, image_height as int),
{
    out.push(80);
    out.push(51);
    out.push(10);
    push_decimal(out, image_width);
    out.push(32);
    push_decimal(out, image_height);
    out.push(10);
    out.push(50);
    out.push(53);
    out.push(53);
    out.push(10);
}

/// Appends the line of one pixel.
pub fn push_color(out: &mut Vec<u8>, color: Rgb)
    ensures
        final(out)@ == old(out)@ + pixel_text(color),
{
    push_digits(out, color.r as u32);
    out.push(32);
    push_digits(out, color.g as u32);
    out.push(32);
    push_digits(out, color.b as u32);
    out.push(10);
}

/// The head of a pixmap of the given size.
pub fn ppm_header(image_width: i32, image_height: i32) -> (r: Vec<u8>)
    ensures
        r@ == header_text(image_width as int, image_height as int),
{
    let mut out: Vec<u8> = Vec::new();
    push_header(&mut out, image_width, image_height);
    out
}

/// The line of one pixel, from channels that were scaled to the range of a
/// byte: the whole part of each, none below 0 or above 255.
pub fn save_color(color: ColorRGB) -> (r: Vec<u8>)
    ensures
        r@ == pixel_text(quantize_spec(color)),
{
    let mut out: Vec<u8> = Vec::new();
    push_color(&mut out, quantize(color));
    out
}

} // verus!
