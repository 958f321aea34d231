//! Colors: 8 bits per channel on the way in, 5 bits per channel on the way out.

use vstd::prelude::*;
use vstd::std_specs::convert::FromSpecImpl;

verus! {

/// A color with 8 bits for each of red, green, blue and alpha.
#[derive(Clone, Copy, Debug, PartialEq, Eq, Structural)]
pub struct Rgba {
    pub r: u8,
    pub g: u8,
    pub b: u8,
    pub a: u8,
}

/// A color word of the display hardware: red in bits 0 to 4, green in bits 5
/// to 9, blue in bits 10 to 14, bit 15 clear.
#[derive(Clone, Copy, PartialEq, Eq, Structural)]
pub struct GbaColor(pub u16);

/// The 5-bit value of an 8-bit channel: its three low bits dropped.
pub open spec fn channel5(c: u8) -> int {
    c as int / 8
}

/// The color word of a color: the 5-bit channels side by side, red lowest.
/// Alpha plays no part.
pub open spec fn quantized(color: Rgba) -> u16 {
    (channel5(color.r) + 32 * channel5(color.g) + 1024 * channel5(color.b)) as u16
}

/// Three 5-bit fields put into one word with shifts and ors.
pub open spec fn packed(red: u16, green: u16, blue: u16) -> u16 {
    red | (green << 5) | (blue << 10)
}

/// The red field of a color word.
pub open spec fn red5(word: u16) -> u16 {
    word & 0x1f
}

/// The green field of a color word.
pub open spec fn green5(word: u16) -> u16 {
    (word >> 5) & 0x1f
}

/// The blue field of a color word.
pub open spec fn blue5(word: u16) -> u16 {
    (word >> 10) & 0x1f
}

/// The 8-bit channel that a 5-bit field stands for: the field moved up by
/// three bits, the low bits zero.
pub open spec fn channel8(field: u16) -> int {
    field as int * 8
}

/// Packing three 5-bit fields adds them up at their places, and each field
/// can be read back from the word.
proof fn lemma_pack_fields(r: u16, g: u16, b: u16)
    requires
        r < 32,
        g < 32,
        b < 32,
    ensures
        packed(r, g, b) == r + 32 * g + 1024 * b,
        red5(packed(r, g, b)) == r,
        green5(packed(r, g, b)) == g,
        blue5(packed(r, g, b)) == b,
        packed(r, g, b) <= 0x7fff,
{
    let w = r | (g << 5) | (b << 10);
    assert(w == r + 32 * g + 1024 * b) by (bit_vector)
        requires
            w == r | (g << 5) | (b << 10),
            r < 32,
            g < 32,
            b < 32,
    ;
    assert(w & 0x1f == r && (w >> 5) & 0x1f == g && (w >> 10) & 0x1f == b && w <= 0x7fff)
        by (bit_vector)
        requires
            w == r | (g << 5) | (b << 10),
            r < 32,
            g < 32,
            b < 32,
    ;
}

/// Dropping the three low bits of a channel is dividing it by 8.
proof fn lemma_shift_is_division(c: u8)
    ensures
        (c >> 3) == channel5(c),
        (c >> 3) < 32,
{
    assert((c >> 3) == c / 8 && (c >> 3) < 32) by (bit_vector);
}

/// Every color word of a color fits in 15 bits, and its three fields are the
/// color's channels shifted right by three bits.
pub proof fn lemma_quantized_fields(color: Rgba)
    ensures
        quantized(color) <= 0x7fff,
        quantized(color) >> 15 == 0,
        red5(quantized(color)) == color.r >> 3,
        green5(quantized(color)) == color.g >> 3,
        blue5(quantized(color)) == color.b >> 3,
        quantized(color) == packed(
            (color.r >> 3) as u16,
            (color.g >> 3) as u16,
            (color.b >> 3) as u16,
        ),
{
    lemma_shift_is_division(color.r);
    lemma_shift_is_division(color.g);
    lemma_shift_is_division(color.b);
    let r = (color.r >> 3) as u16;
    let g = (color.g >> 3) as u16;
    let b = (color.b >> 3) as u16;
    lemma_pack_fields(r, g, b);
    let w = quantized(color);
    assert(w >> 15 == 0) by (bit_vector)
        requires
            w <= 0x7fff,
    ;
}

/// The color word depends on red, green and blue alone: two colors that agree
/// on them have the same word, whatever their alpha. In particular the same
/// color always gives the same word.
pub proof fn lemma_quantized_ignores_alpha(first: Rgba, second: Rgba)
    requires
        first.r == second.r,
        first.g == second.g,
        first.b == second.b,
    ensures
        quantized(first) == quantized(second),
{
}

/// A color whose channels are multiples of 8 loses nothing: each field of its
/// word, moved back up by three bits, is the channel again.
pub proof fn lemma_aligned_round_trip(color: Rgba)
    requires
        color.r % 8 == 0,
        color.g % 8 == 0,
        color.b % 8 == 0,
    ensures
        channel8(red5(quantized(color))) == color.r,
        channel8(green5(quantized(color))) == color.g,
        channel8(blue5(quantized(color))) == color.b,
        (red5(quantized(color)) << 3) == color.r,
        (green5(quantized(color)) << 3) == color.g,
        (blue5(quantized(color)) << 3) == color.b,
{
    lemma_quantized_fields(color);
    lemma_shift_is_division(color.r);
    lemma_shift_is_division(color.g);
    lemma_shift_is_division(color.b);
    lemma_field_shift(red5(quantized(color)));
    lemma_field_shift(green5(quantized(color)));
    lemma_field_shift(blue5(quantized(color)));
}

/// Moving a 5-bit field up by three bits multiplies it by 8.
proof fn lemma_field_shift(field: u16)
    requires
        field < 32,
    ensures
        (field << 3) == channel8(field),
{
    assert((field << 3) == field * 8) by (bit_vector)
        requires
            field < 32,
    ;
}

/// Quantizing what a color word stands for gives the word back: the word of a
/// color is the word of that color with its low channel bits cleared.
pub proof fn lemma_quantized_idempotent(color: Rgba)
    ensures
        quantized(
            Rgba {
                r: channel8(red5(quantized(color))) as u8,
                g: channel8(green5(quantized(color))) as u8,
                b: channel8(blue5(quantized(color))) as u8,
                a: color.a,
            },
        ) == quantized(color),
{
    lemma_quantized_fields(color);
    lemma_shift_is_division(color.r);
    lemma_shift_is_division(color.g);
    lemma_shift_is_division(color.b);
}

impl From<Rgba> for GbaColor {
    /// Quantizes a color: each of red, green and blue keeps its five high
    /// bits, and alpha is dropped.
    fn from(value: Rgba) -> (out: GbaColor)
        ensures
            out.0 == quantized(value),
            out.0 <= 0x7fff,
            red5(out.0) == value.r >> 3,
            green5(out.0) == value.g >> 3,
            blue5(out.0) == value.b >> 3,
    {
        let r = (value.r >> 3) as u16;
        let g = (value.g >> 3) as u16;
        let b = (value.b >> 3) as u16;
        proof {
            lemma_quantized_fields(value);
        }
        GbaColor(r | (g << 5) | (b << 10))
    }
}

impl FromSpecImpl<Rgba> for GbaColor {
    open spec fn obeys_from_spec() -> bool {
        true
    }

    open spec fn from_spec(v: Rgba) -> GbaColor {
        GbaColor(quantized(v))
    }
}

} // verus!
