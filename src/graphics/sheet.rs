//! Turning a sprite sheet's RGBA bytes into ARGB sprites.

use vstd::prelude::*;
use vstd::arithmetic::div_mod::{lemma_fundamental_div_mod_converse, lemma_fundamental_div_mod};
use crate::graphics::sprites::Sprite;

verus! {

/// The ARGB pixel with the given channels.
pub open spec fn argb_of(r: u8, g: u8, b: u8, a: u8) -> u32 {
    (a * 0x1000000 + r * 0x10000 + g * 0x100 + b) as u32
}

/// The ARGB pixels of RGBA bytes, four bytes to a pixel; trailing bytes that
/// do not make a whole pixel are ignored.
pub open spec fn argb_pixels(bytes: Seq<u8>) -> Seq<u32> {
    Seq::new(
        bytes.len() / 4,
        |i: int| argb_of(bytes[4 * i], bytes[4 * i + 1], bytes[4 * i + 2], bytes[4 * i + 3]),
    )
}

/// The pixels of the tile at grid column `tx` and row `ty` of a sheet `mw`
/// pixels wide cut into `sw` x `sh` tiles, in row-major order.
pub open spec fn sheet_tile(pixels: Seq<u32>, mw: int, tx: int, ty: int, sw: int, sh: int) -> Seq<u32> {
    Seq::new((sw * sh) as nat, |p: int| pixels[(ty * sh + p / sw) * mw + tx * sw + p % sw])
}

/// A `mw` x `mh` sheet cut into as many whole `sw` x `sh` sprites as fit,
/// row by row.
pub open spec fn sheet_sprites_ok(r: Seq<Sprite>, pixels: Seq<u32>, mw: int, mh: int, sw: int, sh: int) -> bool {
    let nx = mw / sw;
    let ny = mh / sh;
    &&& r.len() == nx * ny
    &&& forall|k: int|
        0 <= k < r.len() ==> {
            &&& (#[trigger] r[k]).width == sw
            &&& r[k].height == sh
            &&& r[k].data@ == sheet_tile(pixels, mw, k % nx, k / nx, sw, sh)
        }
}

/// Packs an image's RGBA bytes into ARGB pixels, four bytes to a pixel.
pub fn img_to_buffer(bytes: &Vec<u8>) -> (r: Vec<u32>)
    ensures
        r@ == argb_pixels(bytes@),
{
    let len = bytes.len();
    let n = len / 4;
    let mut out: Vec<u32> = Vec::with_capacity(n);
    for i in 0..n
        invariant
            len == bytes@.len(),
            n == len / 4,
            out@ =~= argb_pixels(bytes@).take(i as int),
    {
        assert(4 * i + 3 < len);
        let r = bytes[4 * i];
        let g = bytes[4 * i + 1];
        let b = bytes[4 * i + 2];
        let a = bytes[4 * i + 3];
        let px = ((a as u32) << 24) | ((r as u32) << 16) | ((g as u32) << 8) | (b as u32);
        assert(px == argb_of(r, g, b, a)) by (bit_vector)
            requires
                px == ((a as u32) << 24u32) | ((r as u32) << 16u32) | ((g as u32) << 8u32) | (b as u32),
        ;
        out.push(px);
    }
    assert(argb_pixels(bytes@).take(n as int) =~= argb_pixels(bytes@));
    out
}

/// Copies the `sw` x `sh` tile at grid column `tx` and row `ty` out of a
/// sheet `mw` pixels wide.
fn cut_tile(pixels: &Vec<u32>, mw: u32, mh: u32, tx: u32, ty: u32, sw: u32, sh: u32) -> (r: Vec<u32>)
    requires
        pixels@.len() >= mw * mh,
        (tx + 1) * sw <= mw,
        (ty + 1) * sh <= mh,
    ensures
        r@ == sheet_tile(pixels@, mw as int, tx as int, ty as int, sw as int, sh as int),
{
    let ghost tile = sheet_tile(pixels@, mw as int, tx as int, ty as int, sw as int, sh as int);
    let len = pixels.len();
    let w = sw as usize;
    let h = sh as usize;
    let mut out: Vec<u32> = Vec::new();
    assert(0 * w == 0);
    for row in 0..h
        invariant
            len == pixels@.len(),
            w == sw,
            h == sh,
            pixels@.len() >= mw * mh,
            (tx + 1) * sw <= mw,
            (ty + 1) * sh <= mh,
            tile == sheet_tile(pixels@, mw as int, tx as int, ty as int, sw as int, sh as int),
            out@ =~= tile.take((row * w) as int),
    {
        for col in 0..w
            invariant
                len == pixels@.len(),
                w == sw,
                h == sh,
                row < h,
                pixels@.len() >= mw * mh,
                (tx + 1) * sw <= mw,
                (ty + 1) * sh <= mh,
                tile == sheet_tile(pixels@, mw as int, tx as int, ty as int, sw as int, sh as int),
                out@ =~= tile.take((row * w + col) as int),
        {
            proof {
                lemma_fundamental_div_mod_converse((row * w + col) as int, w as int, row as int, col as int);
                assert(row * w + col < h * w) by (nonlinear_arith)
                    requires row < h, col < w;
                assert(w * h == h * w) by (nonlinear_arith);
                assert((ty * h + row) * mw + tx * w + col < mw * mh) by (nonlinear_arith)
                    requires
                        row < h,
                        col < w,
                        (tx + 1) * w <= mw,
                        (ty + 1) * h <= mh,
                ;
                assert(ty * h + row <= mh && tx * w + col <= mw) by (nonlinear_arith)
                    requires
                        row < h,
                        col < w,
                        (tx + 1) * w <= mw,
                        (ty + 1) * h <= mh,
                ;
            }
            let index = (ty as usize * h + row) * mw as usize + tx as usize * w + col;
            out.push(pixels[index]);
        }
        assert(row * w + w == (row + 1) * w) by (nonlinear_arith);
    }
    assert(h * w == w * h) by (nonlinear_arith);
    assert(tile.take((h * w) as int) =~= tile);
    out
}

/// Cuts a sheet of `map_width` x `map_height` ARGB pixels into as many whole
/// `sprite_width` x `sprite_height` sprites as fit, row by row, left to
/// right; a partial tile at the right or bottom edge is dropped.
pub fn split_sprite_map(
    map_width: u32,
    map_height: u32,
    pixels: &Vec<u32>,
    sprite_width: u32,
    sprite_height: u32,
) -> (r: Vec<Sprite>)
    requires
        sprite_width > 0,
        sprite_height > 0,
        pixels@.len() >= map_width * map_height,
    ensures
        sheet_sprites_ok(r@, pixels@, map_width as int, map_height as int, sprite_width as int, sprite_height as int),
{
    let sprites_x = map_width / sprite_width;
    let sprites_y = map_height / sprite_height;
    let mut sprites: Vec<Sprite> = Vec::new();
    assert(0 * sprites_x == 0);
    for y in 0..sprites_y
        invariant
            sprite_width > 0,
            sprite_height > 0,
            pixels@.len() >= map_width * map_height,
            sprites_x == map_width / sprite_width,
            sprites_y == map_height / sprite_height,
            sprites@.len() == y * sprites_x,
            forall|k: int|
                0 <= k < sprites@.len() ==> {
                    &&& (#[trigger] sprites@[k]).width == sprite_width
                    &&& sprites@[k].height == sprite_height
                    &&& sprites@[k].data@ == sheet_tile(
                        pixels@,
                        map_width as int,
                        k % sprites_x as int,
                        k / sprites_x as int,
                        sprite_width as int,
                        sprite_height as int,
                    )
                },
    {
        for x in 0..sprites_x
            invariant
                y < sprites_y,
                sprite_width > 0,
                sprite_height > 0,
                pixels@.len() >= map_width * map_height,
                sprites_x == map_width / sprite_width,
                sprites_y == map_height / sprite_height,
                sprites@.len() == y * sprites_x + x,
                forall|k: int|
                    0 <= k < sprites@.len() ==> {
                        &&& (#[trigger] sprites@[k]).width == sprite_width
                        &&& sprites@[k].height == sprite_height
                        &&& sprites@[k].data@ == sheet_tile(
                            pixels@,
                            map_width as int,
                            k % sprites_x as int,
                            k / sprites_x as int,
                            sprite_width as int,
                            sprite_height as int,
                        )
                    },
        {
            proof {
                lemma_fundamental_div_mod(map_width as int, sprite_width as int);
                lemma_fundamental_div_mod(map_height as int, sprite_height as int);
                assert((x + 1) * sprite_width <= map_width) by (nonlinear_arith)
                    requires
                        x < sprites_x,
                        map_width == sprite_width * sprites_x + map_width % sprite_width,
                        map_width % sprite_width >= 0,
                ;
                assert((y + 1) * sprite_height <= map_height) by (nonlinear_arith)
                    requires
                        y < sprites_y,
                        map_height == sprite_height * sprites_y + map_height % sprite_height,
                        map_height % sprite_height >= 0,
                ;
                lemma_fundamental_div_mod_converse((y * sprites_x + x) as int, sprites_x as int, y as int, x as int);
            }
            let data = cut_tile(pixels, map_width, map_height, x, y, sprite_width, sprite_height);
            sprites.push(Sprite::new(sprite_width, sprite_height, data));
        }
        assert(y * sprites_x + sprites_x == (y + 1) * sprites_x) by (nonlinear_arith);
    }
    assert(sprites_y * sprites_x == sprites_x * sprites_y) by (nonlinear_arith);
    sprites
}

/// Cuts a sprite sheet of `map_width` x `map_height` pixels, given as RGBA
/// bytes row by row, into `sprite_width` x `sprite_height` ARGB sprites, row
/// by row, left to right.
pub fn load_sprites_from_map(
    map_width: u32,
    map_height: u32,
    rgba: &Vec<u8>,
    sprite_width: u32,
    sprite_height: u32,
) -> (r: Vec<Sprite>)
    requires
        sprite_width > 0,
        sprite_height > 0,
        rgba@.len() >= 4 * map_width * map_height,
    ensures
        sheet_sprites_ok(
            r@,
            argb_pixels(rgba@),
            map_width as int,
            map_height as int,
            sprite_width as int,
            sprite_height as int,
        ),
{
    let pixels = img_to_buffer(rgba);
    assert(pixels@.len() >= map_width * map_height) by (nonlinear_arith)
        requires
            pixels@.len() == rgba@.len() / 4,
            rgba@.len() >= 4 * map_width * map_height,
    ;
    split_sprite_map(map_width, map_height, &pixels, sprite_width, sprite_height)
}

} // verus!
