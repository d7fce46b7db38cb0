//! Packed 32-bit colors (`0xAARRGGBB`) and the channel arithmetic used by
//! effect scripts: packing, unpacking and linear gradients.
use vstd::prelude::*;

verus! {

/// One pixel of a frame: three color channels and a foreground opacity.
#[derive(Clone, Copy, Debug, PartialEq, Eq, Structural)]
pub struct Rgba {
    pub r: u8,
    pub g: u8,
    pub b: u8,
    pub a: u8,
}

/// Alpha channel of a packed color (bits 24..32).
pub open spec fn alpha_of(c: u32) -> u8 {
    ((c >> 24u32) & 0xffu32) as u8
}

/// Red channel of a packed color (bits 16..24).
pub open spec fn red_of(c: u32) -> u8 {
    ((c >> 16u32) & 0xffu32) as u8
}

/// Green channel of a packed color (bits 8..16).
pub open spec fn green_of(c: u32) -> u8 {
    ((c >> 8u32) & 0xffu32) as u8
}

/// Blue channel of a packed color (bits 0..8).
pub open spec fn blue_of(c: u32) -> u8 {
    (c & 0xffu32) as u8
}

/// The packed color `0xAARRGGBB` of four channels.
pub open spec fn color_of(r: u8, g: u8, b: u8, a: u8) -> u32 {
    ((a as u32) << 24u32) | ((r as u32) << 16u32) | ((g as u32) << 8u32) | (b as u32)
}

/// The pixel that a packed color stands for.
pub open spec fn rgba_of(c: u32) -> Rgba {
    Rgba { r: red_of(c), g: green_of(c), b: blue_of(c), a: alpha_of(c) }
}

/// The packed color of a pixel.
pub open spec fn packed(p: Rgba) -> u32 {
    color_of(p.r, p.g, p.b, p.a)
}

/// The value of four bytes read least significant first.
pub open spec fn le_value(b0: u8, b1: u8, b2: u8, b3: u8) -> int {
    b0 + 0x100 * b1 + 0x1_0000 * b2 + 0x100_0000 * b3
}

/// Relies on byteorder's `LittleEndian::read_u32`: the first four bytes of the
/// buffer, least significant first.
#[verifier::external_body]
fn read_u32_le(b0: u8, b1: u8, b2: u8, b3: u8) -> (r: u32)
    ensures
        r as int == le_value(b0, b1, b2, b3),
{
    <byteorder::LittleEndian as byteorder::ByteOrder>::read_u32(&[b0, b1, b2, b3])
}

proof fn lemma_le_value_is_color(r: u8, g: u8, b: u8, a: u8)
    ensures
        le_value(b, g, r, a) == color_of(r, g, b, a) as int,
{
    assert(((a as u32) << 24u32) | ((r as u32) << 16u32) | ((g as u32) << 8u32) | (b as u32) == (b
        as u32) + 0x100u32 * (g as u32) + 0x1_0000u32 * (r as u32) + 0x100_0000u32 * (a as u32))
        by (bit_vector);
}

/// Packing the four channels of a color and reading them back gives the
/// same four channels.
pub proof fn lemma_channels_of_color(r: u8, g: u8, b: u8, a: u8)
    ensures
        red_of(color_of(r, g, b, a)) == r,
        green_of(color_of(r, g, b, a)) == g,
        blue_of(color_of(r, g, b, a)) == b,
        alpha_of(color_of(r, g, b, a)) == a,
{
    assert(((((a as u32) << 24u32) | ((r as u32) << 16u32) | ((g as u32) << 8u32) | (b as u32))
        >> 16u32) & 0xffu32 == r as u32) by (bit_vector);
    assert(((((a as u32) << 24u32) | ((r as u32) << 16u32) | ((g as u32) << 8u32) | (b as u32))
        >> 8u32) & 0xffu32 == g as u32) by (bit_vector);
    assert(((((a as u32) << 24u32) | ((r as u32) << 16u32) | ((g as u32) << 8u32) | (b as u32))
        & 0xffu32) == b as u32) by (bit_vector);
    assert(((((a as u32) << 24u32) | ((r as u32) << 16u32) | ((g as u32) << 8u32) | (b as u32))
        >> 24u32) & 0xffu32 == a as u32) by (bit_vector);
}

/// Every packed color is the packing of its own four channels.
pub proof fn lemma_color_of_channels(c: u32)
    ensures
        color_of(red_of(c), green_of(c), blue_of(c), alpha_of(c)) == c,
{
    assert(((((c >> 24u32) & 0xffu32) as u8 as u32) << 24u32) | ((((c >> 16u32) & 0xffu32) as u8
        as u32) << 16u32) | ((((c >> 8u32) & 0xffu32) as u8 as u32) << 8u32) | ((c & 0xffu32) as u8
        as u32) == c) by (bit_vector);
}

/// Unpacking a color packed by `rgba_to_color` gives back the channels it was
/// packed from, in the order `(r, g, b, a)`.
pub proof fn lemma_rgba_round_trip(r: u8, g: u8, b: u8, a: u8)
    ensures
        (red_of(color_of(r, g, b, a)), green_of(color_of(r, g, b, a)), blue_of(
            color_of(r, g, b, a),
        ), alpha_of(color_of(r, g, b, a))) == (r, g, b, a),
{
    lemma_channels_of_color(r, g, b, a);
}

/// Get the RGB components of a 32 bits color value.
pub fn color_to_rgb(c: u32) -> (res: (u8, u8, u8))
    ensures
        res == (red_of(c), green_of(c), blue_of(c)),
{
    let r = ((c >> 16u32) & 0xffu32) as u8;
    let g = ((c >> 8u32) & 0xffu32) as u8;
    let b = (c & 0xffu32) as u8;
    (r, g, b)
}

/// Get the RGBA components of a 32 bits color value, in the order `(r, g, b, a)`.
pub fn color_to_rgba(c: u32) -> (res: (u8, u8, u8, u8))
    ensures
        res == (red_of(c), green_of(c), blue_of(c), alpha_of(c)),
{
    let a = ((c >> 24u32) & 0xffu32) as u8;
    let r = ((c >> 16u32) & 0xffu32) as u8;
    let g = ((c >> 8u32) & 0xffu32) as u8;
    let b = (c & 0xffu32) as u8;
    (r, g, b, a)
}

/// Convert RGB components to a 32 bits color value, fully opaque.
pub fn rgb_to_color(r: u8, g: u8, b: u8) -> (c: u32)
    ensures
        c == color_of(r, g, b, 255),
{
    proof {
        lemma_le_value_is_color(r, g, b, 255);
    }
    read_u32_le(b, g, r, 255)
}

/// Convert RGBA components to a 32 bits color value.
pub fn rgba_to_color(r: u8, g: u8, b: u8, a: u8) -> (c: u32)
    ensures
        c == color_of(r, g, b, a),
{
    proof {
        lemma_le_value_is_color(r, g, b, a);
    }
    read_u32_le(b, g, r, a)
}

/// The pixel that a packed color stands for.
pub fn color_to_pixel(c: u32) -> (p: Rgba)
    ensures
        p == rgba_of(c),
{
    let (r, g, b, a) = color_to_rgba(c);
    Rgba { r, g, b, a }
}

/// `x` clipped to the range of a byte.
pub open spec fn clip8(x: int) -> u8 {
    if x < 0 {
        0
    } else if x > 255 {
        255
    } else {
        x as u8
    }
}

/// `n / d` rounded to the nearest integer, halves away from zero.
pub open spec fn round_div(n: int, d: int) -> int
    recommends
        d > 0,
{
    if n >= 0 {
        (2 * n + d) / (2 * d)
    } else {
        -((-2 * n + d) / (2 * d))
    }
}

/// One channel of a gradient at position `num / den` from `s` towards `d`.
pub open spec fn gradient_channel(s: u8, d: u8, num: int, den: int) -> u8 {
    clip8(round_div(s * den + (d - s) * num, den))
}

/// The color at position `num / den` of the linear gradient from `start` to
/// `dest`, channel by channel, alpha included.
pub open spec fn gradient_of(start: u32, dest: u32, num: int, den: int) -> u32 {
    color_of(
        gradient_channel(red_of(start), red_of(dest), num, den),
        gradient_channel(green_of(start), green_of(dest), num, den),
        gradient_channel(blue_of(start), blue_of(dest), num, den),
        gradient_channel(alpha_of(start), alpha_of(dest), num, den),
    )
}

proof fn lemma_round_div_nonpositive(n: int, d: int)
    requires
        n < 0,
        d > 0,
    ensures
        round_div(n, d) <= 0,
{
    assert((-2 * n + d) / (2 * d) >= 0) by (nonlinear_arith)
        requires
            n < 0,
            d > 0,
    ;
}

fn gradient_step(s: u8, d: u8, num: i32, den: u32) -> (c: u8)
    requires
        den > 0,
    ensures
        c == gradient_channel(s, d, num as int, den as int),
{
    assert(0 <= s * den <= 255 * 0xffff_ffff) by (nonlinear_arith)
        requires
            0 <= s <= 255,
            0 <= den <= 0xffff_ffff,
    ;
    let sd: i64 = (s as i64) * (den as i64);
    let delta: i64 = (d as i64) - (s as i64);
    assert(-255 * 0x8000_0000 <= delta * num <= 255 * 0x8000_0000) by (nonlinear_arith)
        requires
            -255 <= delta <= 255,
            -0x8000_0000 <= num < 0x8000_0000,
    ;
    let v: i64 = sd + delta * (num as i64);
    if v < 0 {
        proof {
            lemma_round_div_nonpositive(v as int, den as int);
        }
        0
    } else {
        let q: i64 = (2 * v + den as i64) / (2 * den as i64);
        if q > 255 {
            255
        } else {
            q as u8
        }
    }
}

/// Generate a linear RGBA color gradient from `start` to `dest` at position
/// `p_num / p_den`; positions from 0 to 1 lie between the two colors. Each
/// channel is rounded half away from zero and clipped to a byte.
pub fn linear_gradient(start: u32, dest: u32, p_num: i32, p_den: u32) -> (c: u32)
    requires
        p_den > 0,
    ensures
        c == gradient_of(start, dest, p_num as int, p_den as int),
{
    let (sr, sg, sb, sa) = color_to_rgba(start);
    let (dr, dg, db, da) = color_to_rgba(dest);
    let r = gradient_step(sr, dr, p_num, p_den);
    let g = gradient_step(sg, dg, p_num, p_den);
    let b = gradient_step(sb, db, p_num, p_den);
    let a = gradient_step(sa, da, p_num, p_den);
    rgba_to_color(r, g, b, a)
}

proof fn lemma_round_div_exact(x: int, den: int)
    requires
        0 <= x,
        den > 0,
    ensures
        round_div(x * den, den) == x,
{
    assert(2 * (x * den) + den == (2 * den) * x + den) by (nonlinear_arith);
    vstd::arithmetic::div_mod::lemma_div_multiples_vanish_fancy(x, den, 2 * den);
}

/// A gradient starts at its first color and ends at its second: at position
/// 0 it is `start` and at position 1 it is `dest`.
pub proof fn lemma_gradient_endpoints(start: u32, dest: u32, den: int)
    requires
        den > 0,
    ensures
        gradient_of(start, dest, 0, den) == start,
        gradient_of(start, dest, den, den) == dest,
{
    assert forall|s: u8, d: u8|
        gradient_channel(s, d, 0, den) == s && gradient_channel(s, d, den, den) == d by {
        assert(s * den + (d - s) * 0 == s * den);
        assert(s * den + (d - s) * den == d * den) by (nonlinear_arith);
        lemma_round_div_exact(s as int, den);
        lemma_round_div_exact(d as int, den);
    }
    lemma_color_of_channels(start);
    lemma_color_of_channels(dest);
}

} // verus!
