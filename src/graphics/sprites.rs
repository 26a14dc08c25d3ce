//! Sprites, the panel's sprite sheets, and alpha-blended drawing of a sprite
//! onto the window buffer.

use vstd::prelude::*;
use vstd::arithmetic::div_mod::lemma_fundamental_div_mod_converse;

verus! {

/// A rectangular image: `width * height` ARGB pixels in row-major order.
#[derive(Debug)]
pub struct Sprite {
    pub width: u32,
    pub height: u32,
    pub data: Vec<u32>,
}

/// The sprite sheets of the front panel, each cut into its sprites.
#[derive(Debug)]
pub struct Sprites {
    pub notes: Vec<Sprite>,
    pub numbers: Vec<Sprite>,
    pub keys: Vec<Sprite>,
    pub tangents: Vec<Sprite>,
    pub knob: Vec<Sprite>,
    pub rack: Vec<Sprite>,
    pub display_sine: Vec<Sprite>,
    pub display_square: Vec<Sprite>,
    pub octave_fader: Vec<Sprite>,
}

impl Sprite {
    /// A sprite holds a pixel for each of its `width * height` places.
    pub open spec fn wf(&self) -> bool {
        self.data@.len() >= self.width * self.height
    }

    /// A sprite of the given size over the given pixels.
    pub fn new(width: u32, height: u32, data: Vec<u32>) -> (r: Sprite)
        ensures
            r.width == width,
            r.height == height,
            r.data@ == data@,
    {
        Sprite { width, height, data }
    }
}

/// The alpha channel of an ARGB pixel.
pub open spec fn alpha_of(p: u32) -> u32 {
    (p >> 24u32) & 0xFFu32
}

/// The 8-bit channel of an ARGB pixel that starts at bit `shift`.
pub open spec fn channel_of(p: u32, shift: u32) -> u32 {
    (p >> shift) & 0xFFu32
}

/// One channel of `fg` laid over `bg` with opacity `alpha` out of 255.
pub open spec fn mix(fg: u32, bg: u32, alpha: u32) -> u32 {
    (fg * alpha / 255 + bg * (255 - alpha) / 255) as u32
}

/// The sprite pixel `s` blended over the window pixel `w`; the result is opaque.
pub open spec fn blend(s: u32, w: u32) -> u32 {
    let a = alpha_of(s);
    let r = mix(channel_of(s, 16), channel_of(w, 16), a);
    let g = mix(channel_of(s, 8), channel_of(w, 8), a);
    let b = mix(channel_of(s, 0), channel_of(w, 0), a);
    0xFF000000u32 | ((r & 0xFFu32) << 16u32) | ((g & 0xFFu32) << 8u32) | (b & 0xFFu32)
}

/// The buffer after the first `k` pixels of a sprite of width `w` with pixels
/// `data` have been drawn at `(x, y)` in row-major order, in a window `ww`
/// pixels wide: a pixel that falls outside the buffer, or is fully
/// transparent, leaves the buffer as it is.
pub open spec fn paint(buf: Seq<u32>, x: int, y: int, w: int, data: Seq<u32>, ww: int, k: nat) -> Seq<
    u32,
>
    decreases k,
{
    if k == 0 {
        buf
    } else {
        let prev = paint(buf, x, y, w, data, ww, (k - 1) as nat);
        let p = k - 1;
        let idx = (y + p / w) * ww + (x + p % w);
        if 0 <= idx < prev.len() && alpha_of(data[p]) > 0 {
            prev.update(idx, blend(data[p], prev[idx]))
        } else {
            prev
        }
    }
}

/// The buffer after the whole sprite has been drawn at `(x, y)`.
pub open spec fn drawn(buf: Seq<u32>, x: int, y: int, sprite: Sprite, ww: int) -> Seq<u32> {
    paint(buf, x, y, sprite.width as int, sprite.data@, ww, (sprite.width * sprite.height) as nat)
}

/// Drawing a sprite at `(x, y)` keeps every index computation within `usize`.
pub open spec fn fits(x: int, y: int, sprite: Sprite, ww: int) -> bool {
    &&& y + sprite.height <= usize::MAX
    &&& (y + sprite.height) * ww + x + sprite.width <= usize::MAX
}

/// Painting never changes the length of the buffer.
pub proof fn lemma_paint_len(buf: Seq<u32>, x: int, y: int, w: int, data: Seq<u32>, ww: int, k: nat)
    ensures
        paint(buf, x, y, w, data, ww, k).len() == buf.len(),
    decreases k,
{
    if k > 0 {
        lemma_paint_len(buf, x, y, w, data, ww, (k - 1) as nat);
    }
}

/// Blends sprite pixel `s` over window pixel `w`.
pub fn blend_pixel(s: u32, w: u32) -> (r: u32)
    ensures
        r == blend(s, w),
{
    let sprite_alpha = (s >> 24) & 0xFF;
    let sprite_rgb = s & 0x00FFFFFF;
    let window_rgb = w & 0x00FFFFFF;
    proof {
        assert(sprite_alpha <= 0xFF) by (bit_vector)
            requires
                sprite_alpha == (s >> 24u32) & 0xFFu32,
        ;
        assert((sprite_rgb >> 16u32) & 0xFFu32 == (s >> 16u32) & 0xFFu32 && (sprite_rgb >> 8u32)
            & 0xFFu32 == (s >> 8u32) & 0xFFu32 && sprite_rgb & 0xFFu32 == (s >> 0u32) & 0xFFu32
            && ((sprite_rgb >> 16u32) & 0xFFu32) <= 0xFF && ((sprite_rgb >> 8u32) & 0xFFu32) <= 0xFF
            && (sprite_rgb & 0xFFu32) <= 0xFF) by (bit_vector)
            requires
                sprite_rgb == s & 0x00FFFFFFu32,
        ;
        assert((window_rgb >> 16u32) & 0xFFu32 == (w >> 16u32) & 0xFFu32 && (window_rgb >> 8u32)
            & 0xFFu32 == (w >> 8u32) & 0xFFu32 && window_rgb & 0xFFu32 == (w >> 0u32) & 0xFFu32
            && ((window_rgb >> 16u32) & 0xFFu32) <= 0xFF && ((window_rgb >> 8u32) & 0xFFu32) <= 0xFF
            && (window_rgb & 0xFFu32) <= 0xFF) by (bit_vector)
            requires
                window_rgb == w & 0x00FFFFFFu32,
        ;
    }
    let sr = (sprite_rgb >> 16) & 0xFF;
    let sg = (sprite_rgb >> 8) & 0xFF;
    let sb = sprite_rgb & 0xFF;
    let wr = (window_rgb >> 16) & 0xFF;
    let wg = (window_rgb >> 8) & 0xFF;
    let wb = window_rgb & 0xFF;
    assert(sr * sprite_alpha <= 255 * 255 && wr * (255 - sprite_alpha) <= 255 * 255) by (nonlinear_arith)
        requires sr <= 255, wr <= 255, sprite_alpha <= 255;
    assert(sg * sprite_alpha <= 255 * 255 && wg * (255 - sprite_alpha) <= 255 * 255) by (nonlinear_arith)
        requires sg <= 255, wg <= 255, sprite_alpha <= 255;
    assert(sb * sprite_alpha <= 255 * 255 && wb * (255 - sprite_alpha) <= 255 * 255) by (nonlinear_arith)
        requires sb <= 255, wb <= 255, sprite_alpha <= 255;
    let blended_r = sr * sprite_alpha / 255 + wr * (255 - sprite_alpha) / 255;
    let blended_g = sg * sprite_alpha / 255 + wg * (255 - sprite_alpha) / 255;
    let blended_b = sb * sprite_alpha / 255 + wb * (255 - sprite_alpha) / 255;
    0xFF000000 | (blended_r & 0xFF) << 16 | (blended_g & 0xFF) << 8 | (blended_b & 0xFF)
}

/// Draws the `width * height` pixels `data` with their top-left corner at
/// `(x, y)`, blending each one that is not fully transparent.
pub(crate) fn blit(x: usize, y: usize, width: u32, height: u32, data: &Vec<u32>, window_buffer: &mut [u32], window_width: usize)
    requires
        data@.len() >= width * height,
        y + height <= usize::MAX,
        (y + height) * window_width + x + width <= usize::MAX,
    ensures
        final(window_buffer)@ == paint(
            old(window_buffer)@,
            x as int,
            y as int,
            width as int,
            data@,
            window_width as int,
            (width * height) as nat,
        ),
{
    let ghost start = window_buffer@;
    let w = width as usize;
    let h = height as usize;
    let data_len = data.len();
    assert(0 * w == 0);
    for row in 0..h
        invariant
            data_len == data@.len(),
            w == width,
            h == height,
            data@.len() >= width * height,
            y + height <= usize::MAX,
            (y + height) * window_width + x + width <= usize::MAX,
            window_buffer@ == paint(start, x as int, y as int, w as int, data@, window_width as int, (row * w) as nat),
    {
        for col in 0..w
            invariant
                data_len == data@.len(),
                w == width,
                h == height,
                row < h,
                data@.len() >= width * height,
                y + height <= usize::MAX,
                (y + height) * window_width + x + width <= usize::MAX,
                window_buffer@ == paint(start, x as int, y as int, w as int, data@, window_width as int, (row * w + col) as nat),
        {
            proof {
                lemma_paint_len(start, x as int, y as int, w as int, data@, window_width as int, (row * w + col) as nat);
                lemma_fundamental_div_mod_converse((row * w + col) as int, w as int, row as int, col as int);
                assert(row * w + col < h * w) by (nonlinear_arith)
                    requires row < h, col < w;
                assert((y + row) * window_width + (x + col) <= (y + h) * window_width + x + w) by (nonlinear_arith)
                    requires row < h, col < w;
                assert(w * h == h * w) by (nonlinear_arith);
            }
            let sprite_pixel_index = row * w + col;
            let window_pixel_index = (y + row) * window_width + (x + col);
            if window_pixel_index < window_buffer.len() {
                let sprite_pixel = data[sprite_pixel_index];
                if (sprite_pixel >> 24) & 0xFF > 0 {
                    let window_pixel = window_buffer[window_pixel_index];
                    window_buffer[window_pixel_index] = blend_pixel(sprite_pixel, window_pixel);
                }
            }
        }
        assert(row * w + w == (row + 1) * w) by (nonlinear_arith);
    }
    assert(h * w == w * h) by (nonlinear_arith);
}

/// Draws `sprite` with its top-left corner at `(x, y)` onto a window buffer
/// that is `window_width` pixels wide, blending each pixel that is not fully
/// transparent over the pixel beneath it. Pixels that fall past the end of the
/// buffer are dropped.
pub fn draw_sprite(x: usize, y: usize, sprite: &Sprite, window_buffer: &mut [u32], window_width: usize)
    requires
        sprite.wf(),
        fits(x as int, y as int, *sprite, window_width as int),
    ensures
        final(window_buffer)@ == drawn(old(window_buffer)@, x as int, y as int, *sprite, window_width as int),
{
    blit(x, y, sprite.width, sprite.height, &sprite.data, window_buffer, window_width);
}

} // verus!
