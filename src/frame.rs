//! Frames of per-key pixels: the global (background) frame that the
//! compositor presents, the local (foreground) frame of each script, and the
//! blend of one into the other.
use vstd::prelude::*;

use crate::color::{
    clip8, color_of, color_to_pixel, rgb_to_color, rgba_of, round_div, Rgba,
};
use crate::NUM_KEYS;

verus! {

/// A frame: one pixel per key, index `i` standing for a fixed physical key.
pub struct Frame {
    pub pixels: Vec<Rgba>,
}

impl View for Frame {
    type V = Seq<Rgba>;

    open spec fn view(&self) -> Seq<Rgba> {
        self.pixels@
    }
}

/// The pixel with all channels zero.
pub open spec fn black() -> Rgba {
    Rgba { r: 0, g: 0, b: 0, a: 0 }
}

/// The packed color of a pixel as `get_color_map` reports it: its three color
/// channels, with the alpha bits zero.
pub open spec fn rgb_packed(p: Rgba) -> u32 {
    color_of(p.r, p.g, p.b, 0)
}

/// One channel of a foreground pixel with opacity `fg_a` laid over a
/// background channel, scaled by a brightness in percent.
pub open spec fn blend_channel(fg_c: u8, fg_a: u8, bg_c: u8, brightness: u8) -> u8 {
    clip8(round_div((fg_a * fg_c + (255 - fg_a) * bg_c) * brightness, 25500int))
}

/// A foreground pixel laid over a background pixel; the result takes the
/// foreground's opacity.
pub open spec fn blend_pixel(bg: Rgba, fg: Rgba, brightness: u8) -> Rgba {
    Rgba {
        r: blend_channel(fg.r, fg.a, bg.r, brightness),
        g: blend_channel(fg.g, fg.a, bg.g, brightness),
        b: blend_channel(fg.b, fg.a, bg.b, brightness),
        a: fg.a,
    }
}

/// The frame that results from laying `fg` over `bg` key by key.
pub open spec fn blend_frame(bg: Seq<Rgba>, fg: Seq<Rgba>, brightness: u8) -> Seq<Rgba> {
    Seq::new(bg.len(), |i: int| blend_pixel(bg[i], fg[i], brightness))
}

/// A channel scaled by a brightness in percent.
pub open spec fn scale_channel(c: u8, brightness: u8) -> u8 {
    clip8(round_div(c * brightness, 100))
}

/// The color channels of `p` scaled by a brightness in percent, with opacity `a`.
pub open spec fn scaled_pixel(p: Rgba, brightness: u8, a: u8) -> Rgba {
    Rgba {
        r: scale_channel(p.r, brightness),
        g: scale_channel(p.g, brightness),
        b: scale_channel(p.b, brightness),
        a,
    }
}

/// The frame that a color map stands for, one packed color per key.
pub open spec fn frame_of_map(map: Seq<u32>) -> Seq<Rgba> {
    Seq::new(map.len(), |i: int| rgba_of(map[i]))
}

impl Frame {
    /// A frame has one pixel per key.
    pub open spec fn wf(&self) -> bool {
        self@.len() == NUM_KEYS
    }

    /// A frame with every pixel black and transparent.
    pub fn new() -> (f: Frame)
        ensures
            f.wf(),
            f@ == Seq::new(NUM_KEYS as nat, |i: int| black()),
    {
        let mut pixels: Vec<Rgba> = Vec::new();
        let mut i: usize = 0;
        while i < NUM_KEYS
            invariant
                i <= NUM_KEYS,
                pixels@ == Seq::new(i as nat, |j: int| black()),
            decreases NUM_KEYS - i,
        {
            pixels.push(Rgba { r: 0, g: 0, b: 0, a: 0 });
            i = i + 1;
            assert(pixels@ =~= Seq::new(i as nat, |j: int| black()));
        }
        Frame { pixels }
    }

    /// The frame that a color map stands for.
    pub fn from_color_map(map: &[u32]) -> (f: Frame)
        requires
            map@.len() == NUM_KEYS,
        ensures
            f.wf(),
            f@ == frame_of_map(map@),
    {
        let mut pixels: Vec<Rgba> = Vec::new();
        let mut i: usize = 0;
        while i < map.len()
            invariant
                i <= map@.len(),
                pixels@ == frame_of_map(map@.take(i as int)),
            decreases map@.len() - i,
        {
            pixels.push(color_to_pixel(map[i]));
            i = i + 1;
            assert(pixels@ =~= frame_of_map(map@.take(i as int)));
        }
        assert(map@.take(map@.len() as int) =~= map@);
        Frame { pixels }
    }

    /// The pixel of key `idx`.
    pub fn pixel(&self, idx: usize) -> (p: Rgba)
        requires
            idx < self@.len(),
        ensures
            p == self@[idx as int],
    {
        self.pixels[idx]
    }
}

fn blend_step(fg_c: u8, fg_a: u8, bg_c: u8, brightness: u8) -> (c: u8)
    ensures
        c == blend_channel(fg_c, fg_a, bg_c, brightness),
{
    let inv_a: u32 = 255 - fg_a as u32;
    assert(fg_a * fg_c + inv_a * bg_c <= 255 * 255) by (nonlinear_arith)
        requires
            0 <= fg_a <= 255,
            inv_a == 255 - fg_a,
            0 <= fg_c <= 255,
            0 <= bg_c <= 255,
    ;
    let mix: u32 = fg_a as u32 * fg_c as u32 + inv_a * bg_c as u32;
    assert(mix * brightness <= 255 * 255 * 255) by (nonlinear_arith)
        requires
            mix <= 255 * 255,
            0 <= brightness <= 255,
    ;
    let n: u32 = mix * brightness as u32;
    let q: u32 = (2 * n + 255 * 100) / (2 * 255 * 100);
    if q > 255 {
        255
    } else {
        q as u8
    }
}

/// Lay the foreground frame `local` over the global frame, key by key, scaled
/// by `brightness` in percent: each color channel becomes
/// `(fg.a * fg.c + (255 - fg.a) * bg.c) * brightness / (255 * 100)`, rounded
/// and clipped to a byte, and the opacity becomes the foreground's.
pub fn blend_into(global: &mut Frame, local: &Frame, brightness: u8)
    requires
        old(global).wf(),
        local.wf(),
    ensures
        final(global).wf(),
        final(global)@ == blend_frame(old(global)@, local@, brightness),
{
    let mut i: usize = 0;
    while i < global.pixels.len()
        invariant
            i <= NUM_KEYS,
            global@.len() == NUM_KEYS,
            local@.len() == NUM_KEYS,
            forall|j: int| 0 <= j < i ==> global@[j] == blend_pixel(old(global)@[j], local@[j], brightness),
            forall|j: int| i <= j < NUM_KEYS ==> global@[j] == old(global)@[j],
        decreases NUM_KEYS - i,
    {
        let bg = global.pixels[i];
        let fg = local.pixels[i];
        let p = Rgba {
            r: blend_step(fg.r, fg.a, bg.r, brightness),
            g: blend_step(fg.g, fg.a, bg.g, brightness),
            b: blend_step(fg.b, fg.a, bg.b, brightness),
            a: fg.a,
        };
        global.pixels.set(i, p);
        i = i + 1;
    }
    assert(global@ =~= blend_frame(old(global)@, local@, brightness));
}

proof fn lemma_div_common_factor(m: int, k: int, f: int)
    requires
        m >= 0,
        k > 0,
        f > 0,
    ensures
        (f * m) / (f * k) == m / k,
{
    let q = m / k;
    let r = m % k;
    vstd::arithmetic::div_mod::lemma_fundamental_div_mod(m, k);
    assert(0 <= r < k);
    assert(f * m == (f * k) * q + f * r) by (nonlinear_arith)
        requires
            m == k * q + r,
    ;
    assert(0 <= f * r < f * k) by (nonlinear_arith)
        requires
            0 <= r < k,
            f > 0,
    ;
    vstd::arithmetic::div_mod::lemma_div_multiples_vanish_fancy(q, f * r, f * k);
}

proof fn lemma_opaque_channel(c: u8, other: u8, brightness: u8)
    ensures
        blend_channel(c, 255, other, brightness) == scale_channel(c, brightness),
        blend_channel(other, 0, c, brightness) == scale_channel(c, brightness),
{
    let x: int = c * brightness;
    assert((255 * c + (255 - 255) * other) * brightness == 255 * x) by (nonlinear_arith)
        requires
            x == c * brightness,
    ;
    assert((0 * other + (255 - 0) * c) * brightness == 255 * x) by (nonlinear_arith)
        requires
            x == c * brightness,
    ;
    assert(x >= 0) by (nonlinear_arith)
        requires
            x == c * brightness,
            c >= 0,
            brightness >= 0,
    ;
    assert(2 * (255 * x) + 255 * 100 == 255 * (2 * x + 100));
    assert(2 * (255 * 100) == 255 * (2 * 100));
    lemma_div_common_factor(2 * x + 100, 200int, 255int);
}

/// Blending a fully transparent foreground leaves the global frame's colors
/// as they were, scaled by the brightness; the opacity becomes zero.
pub proof fn lemma_blend_transparent(bg: Seq<Rgba>, fg: Seq<Rgba>, brightness: u8)
    requires
        bg.len() == fg.len(),
        forall|i: int| 0 <= i < fg.len() ==> #[trigger] fg[i].a == 0,
    ensures
        blend_frame(bg, fg, brightness) == Seq::new(
            bg.len(),
            |i: int| scaled_pixel(bg[i], brightness, 0),
        ),
{
    assert forall|i: int| 0 <= i < bg.len() implies blend_frame(bg, fg, brightness)[i]
        == scaled_pixel(bg[i], brightness, 0) by {
        assert(fg[i].a == 0);
        lemma_opaque_channel(bg[i].r, fg[i].r, brightness);
        lemma_opaque_channel(bg[i].g, fg[i].g, brightness);
        lemma_opaque_channel(bg[i].b, fg[i].b, brightness);
    }
    assert(blend_frame(bg, fg, brightness) =~= Seq::new(
        bg.len(),
        |i: int| scaled_pixel(bg[i], brightness, 0),
    ));
}

/// Blending a fully opaque foreground replaces the global frame by the
/// foreground, scaled by the brightness and fully opaque.
pub proof fn lemma_blend_opaque(bg: Seq<Rgba>, fg: Seq<Rgba>, brightness: u8)
    requires
        bg.len() == fg.len(),
        forall|i: int| 0 <= i < fg.len() ==> #[trigger] fg[i].a == 255,
    ensures
        blend_frame(bg, fg, brightness) == Seq::new(
            fg.len(),
            |i: int| scaled_pixel(fg[i], brightness, 255),
        ),
{
    assert forall|i: int| 0 <= i < bg.len() implies blend_frame(bg, fg, brightness)[i]
        == scaled_pixel(fg[i], brightness, 255) by {
        assert(fg[i].a == 255);
        lemma_opaque_channel(fg[i].r, bg[i].r, brightness);
        lemma_opaque_channel(fg[i].g, bg[i].g, brightness);
        lemma_opaque_channel(fg[i].b, bg[i].b, brightness);
    }
    assert(blend_frame(bg, fg, brightness) =~= Seq::new(
        fg.len(),
        |i: int| scaled_pixel(fg[i], brightness, 255),
    ));
}

/// Get the state of all LEDs: one packed color per key, without alpha.
pub fn get_color_map(global: &Frame) -> (r: Vec<u32>)
    ensures
        r@ == Seq::new(global@.len(), |i: int| rgb_packed(global@[i])),
{
    let mut result: Vec<u32> = Vec::new();
    let mut i: usize = 0;
    while i < global.pixels.len()
        invariant
            i <= global@.len(),
            result@ == Seq::new(i as nat, |j: int| rgb_packed(global@[j])),
        decreases global@.len() - i,
    {
        let p = global.pixels[i];
        result.push(rgb_without_alpha(p.r, p.g, p.b));
        i = i + 1;
        assert(result@ =~= Seq::new(i as nat, |j: int| rgb_packed(global@[j])));
    }
    result
}

fn rgb_without_alpha(r: u8, g: u8, b: u8) -> (c: u32)
    ensures
        c == color_of(r, g, b, 0),
{
    let c = rgb_to_color(r, g, b);
    assert(c & 0x00ff_ffffu32 == color_of(r, g, b, 0)) by (bit_vector)
        requires
            c == color_of(r, g, b, 255),
    ;
    c & 0x00ff_ffffu32
}

/// Get the current color of the key `idx` in the global frame, packed as
/// `get_color_map` packs it; 0 for an index past the last key.
pub fn get_key_color(global: &Frame, idx: usize) -> (c: u32)
    ensures
        c == (if idx < global@.len() {
            rgb_packed(global@[idx as int])
        } else {
            0
        }),
{
    if idx < global.pixels.len() {
        let p = global.pixels[idx];
        rgb_without_alpha(p.r, p.g, p.b)
    } else {
        0
    }
}

/// Set the color of the key `idx` of the global frame to `c`.
pub fn set_key_color(global: &mut Frame, idx: usize, c: u32)
    requires
        old(global).wf(),
        idx < NUM_KEYS,
    ensures
        final(global).wf(),
        final(global)@ == old(global)@.update(idx as int, rgba_of(c)),
{
    global.pixels.set(idx, color_to_pixel(c));
}

/// Set all LEDs of the global frame at once.
pub fn set_color_map(global: &mut Frame, map: &[u32])
    requires
        map@.len() == NUM_KEYS,
    ensures
        final(global).wf(),
        final(global)@ == frame_of_map(map@),
{
    *global = Frame::from_color_map(map);
}

/// Submit a color map as the local frame, to be blended into the global
/// frame at the next realization.
pub fn submit_color_map(local: &mut Frame, map: &[u32])
    requires
        map@.len() == NUM_KEYS,
    ensures
        final(local).wf(),
        final(local)@ == frame_of_map(map@),
{
    *local = Frame::from_color_map(map);
}

/// `val` clamped to `[lo, hi]`.
pub open spec fn clamped(val: int, lo: int, hi: int) -> int {
    if val < lo {
        lo
    } else if val > hi {
        hi
    } else {
        val
    }
}

/// Clamp `val` to the range `[lo, hi]`.
pub fn clamp(val: i64, lo: usize, hi: usize) -> (r: usize)
    requires
        lo <= hi,
    ensures
        r as int == clamped(val as int, lo as int, hi as int),
{
    if val < 0 || (val as u64 as u128) < lo as u128 {
        lo
    } else if (val as u64 as u128) > hi as u128 {
        hi
    } else {
        val as usize
    }
}

/// Rearrange a color map: entry `i` of the result is the entry of `map` at
/// `targets[i]`, with out-of-range targets clamped to the valid indices.
pub fn remap_clamped(map: &[u32], targets: &[i64]) -> (r: Vec<u32>)
    requires
        targets@.len() == map@.len(),
    ensures
        r@.len() == map@.len(),
        forall|i: int|
            0 <= i < map@.len() ==> r@[i] == map@[clamped(
                #[trigger] targets@[i] as int,
                0,
                map@.len() - 1,
            )],
{
    let mut result: Vec<u32> = Vec::new();
    let mut i: usize = 0;
    while i < map.len()
        invariant
            i <= map@.len(),
            targets@.len() == map@.len(),
            result@.len() == i,
            forall|j: int|
                0 <= j < i ==> result@[j] == map@[clamped(
                    #[trigger] targets@[j] as int,
                    0,
                    map@.len() - 1,
                )],
        decreases map@.len() - i,
    {
        let idx = clamp(targets[i], 0, map.len() - 1);
        result.push(map[idx]);
        i = i + 1;
    }
    result
}

} // verus!
