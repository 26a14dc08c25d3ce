//! The tile-grid panel: sprites as `(width, height, pixels)` triples laid out
//! on a grid of 64 x 48 tiles in a 640 x 480 window.

use vstd::prelude::*;
use vstd::arithmetic::div_mod::lemma_fundamental_div_mod_converse;
use crate::graphics::{
    KEY_IDLE, KEY_PRESSED, NOTE_A_SHARP, NOTE_C_SHARP, NOTE_D_SHARP, NOTE_F_SHARP, NOTE_G_SHARP,
    TANGENT_IDLE, TANGENT_PRESSED,
};
use crate::graphics::sprites::{blit, paint};

verus! {

/// Width of the tile-grid window, in pixels.
pub const WINDOW_WIDTH: usize = 640;

/// Height of the tile-grid window, in pixels.
pub const WINDOW_HEIGHT: usize = 480;

/// Size of a grid tile, in pixels.
pub const TILE_WIDTH: usize = 64;
pub const TILE_HEIGHT: usize = 48;

/// Width of a tangent (black key), in pixels.
pub const TANGENT_WIDTH: usize = 30;

/// The sprite sheets of the tile-grid panel, each cut into sprites given as
/// `(width, height, pixels)`.
pub struct Sprites {
    pub notes: Vec<(u32, u32, Vec<u32>)>,
    pub waveforms: Vec<(u32, u32, Vec<u32>)>,
    pub background: Vec<(u32, u32, Vec<u32>)>,
    pub numbers: Vec<(u32, u32, Vec<u32>)>,
    pub keys: Vec<(u32, u32, Vec<u32>)>,
    pub tangents: Vec<(u32, u32, Vec<u32>)>,
    pub text: Vec<(u32, u32, Vec<u32>)>,
}

/// The buffer after sprite `s` has been drawn at `(x, y)` in a window `ww`
/// pixels wide.
pub open spec fn tile_drawn(buf: Seq<u32>, x: int, y: int, s: (u32, u32, Vec<u32>), ww: int) -> Seq<u32> {
    paint(buf, x, y, s.0 as int, s.2@, ww, (s.0 * s.1) as nat)
}

/// Sprite `s` can be drawn at `(x, y)` in a window `ww` pixels wide.
pub open spec fn tile_placeable(x: int, y: int, s: (u32, u32, Vec<u32>), ww: int) -> bool {
    &&& 0 <= x
    &&& 0 <= y
    &&& s.2@.len() >= s.0 * s.1
    &&& y + s.1 <= usize::MAX
    &&& (y + s.1) * ww + x + s.0 <= usize::MAX
}

/// Draws the sprite `(width, height, pixels)` with its top-left corner at
/// `(x, y)`, blending each pixel that is not fully transparent over the
/// window pixel beneath it; pixels past the end of the buffer are dropped.
pub fn draw_sprite(x: usize, y: usize, sprite: &(u32, u32, Vec<u32>), window_buffer: &mut [u32], window_width: usize)
    requires
        tile_placeable(x as int, y as int, *sprite, window_width as int),
    ensures
        final(window_buffer)@ == tile_drawn(old(window_buffer)@, x as int, y as int, *sprite, window_width as int),
{
    let (sprite_width, sprite_height, sprite_data) = sprite;
    blit(x, y, *sprite_width, *sprite_height, sprite_data, window_buffer, window_width);
}

/// The background sprite for grid row `row`: rows take the sheet's sprites
/// from the last one backwards.
pub open spec fn background_tile(map: Seq<(u32, u32, Vec<u32>)>, row: int) -> (u32, u32, Vec<u32>) {
    map[map.len() - 1 - row]
}

/// The background tile at `(row, col)` can be drawn where it goes.
pub open spec fn background_cell_placeable(map: Seq<(u32, u32, Vec<u32>)>, ww: int, row: int, col: int) -> bool {
    let s = background_tile(map, row);
    tile_placeable(col * s.0, row * s.1, s, ww)
}

/// The buffer after the first `k` cells of a grid `gw` cells wide have been
/// filled with background tiles, row by row.
pub open spec fn background_drawn(buf: Seq<u32>, map: Seq<(u32, u32, Vec<u32>)>, gw: int, ww: int, k: nat) -> Seq<u32>
    decreases k,
{
    if k == 0 {
        buf
    } else {
        let prev = background_drawn(buf, map, gw, ww, (k - 1) as nat);
        let row = (k - 1) / gw;
        let col = (k - 1) % gw;
        let s = background_tile(map, row);
        tile_drawn(prev, col * s.0, row * s.1, s, ww)
    }
}

/// Fills a `grid_width` x `grid_height` grid with background tiles: every
/// tile of a row is the same sprite, taken from the end of the sheet for the
/// first row and one further back for each following row.
pub fn fill_background(
    buffer: &mut [u32],
    sprite_map: &Vec<(u32, u32, Vec<u32>)>,
    grid_width: usize,
    grid_height: usize,
    window_width: usize,
)
    requires
        grid_height < sprite_map@.len(),
        forall|row: int, col: int|
            0 <= row < grid_height && 0 <= col < grid_width ==> #[trigger] background_cell_placeable(
                sprite_map@,
                window_width as int,
                row,
                col,
            ),
    ensures
        final(buffer)@ == background_drawn(
            old(buffer)@,
            sprite_map@,
            grid_width as int,
            window_width as int,
            (grid_width * grid_height) as nat,
        ),
{
    let ghost start = buffer@;
    let mut counter = sprite_map.len() - 1;
    assert(0 * grid_width == 0);
    for y in 0..grid_height
        invariant
            grid_height < sprite_map@.len(),
            counter == sprite_map@.len() - 1 - y,
            forall|row: int, col: int|
                0 <= row < grid_height && 0 <= col < grid_width ==> #[trigger] background_cell_placeable(
                    sprite_map@,
                    window_width as int,
                    row,
                    col,
                ),
            buffer@ == background_drawn(start, sprite_map@, grid_width as int, window_width as int, (y * grid_width) as nat),
    {
        for x in 0..grid_width
            invariant
                y < grid_height,
                grid_height < sprite_map@.len(),
                counter == sprite_map@.len() - 1 - y,
                forall|row: int, col: int|
                    0 <= row < grid_height && 0 <= col < grid_width ==> #[trigger] background_cell_placeable(
                        sprite_map@,
                        window_width as int,
                        row,
                        col,
                    ),
                buffer@ == background_drawn(
                    start,
                    sprite_map@,
                    grid_width as int,
                    window_width as int,
                    (y * grid_width + x) as nat,
                ),
        {
            proof {
                assert(background_cell_placeable(sprite_map@, window_width as int, y as int, x as int));
                lemma_fundamental_div_mod_converse((y * grid_width + x) as int, grid_width as int, y as int, x as int);
            }
            let tile = &sprite_map[counter];
            draw_sprite(x * tile.0 as usize, y * tile.1 as usize, tile, buffer, window_width);
        }
        assert(y * grid_width + grid_width == (y + 1) * grid_width) by (nonlinear_arith);
        counter -= 1;
    }
    assert(grid_height * grid_width == grid_width * grid_height) by (nonlinear_arith);
}

/// The tangents of the tile-grid keyboard, from left to right: the grid
/// column each is centred on (its left edge) and the sprite index of its sharp.
pub open spec fn grid_tangents() -> Seq<(i32, usize)> {
    seq![
        (1i32, NOTE_C_SHARP),
        (2i32, NOTE_D_SHARP),
        (4i32, NOTE_F_SHARP),
        (5i32, NOTE_G_SHARP),
        (6i32, NOTE_A_SHARP),
    ]
}

/// Whether a note sprite index names a sharp.
pub open spec fn is_sharp_index(i: usize) -> bool {
    i == NOTE_C_SHARP || i == NOTE_D_SHARP || i == NOTE_F_SHARP || i == NOTE_G_SHARP || i == NOTE_A_SHARP
}

/// The buffer after idle keys have been drawn in grid columns `from .. to`
/// of the key row.
pub open spec fn key_row_drawn(buf: Seq<u32>, key: (u32, u32, Vec<u32>), from: int, to: int) -> Seq<u32>
    decreases to - from,
{
    if to <= from {
        buf
    } else {
        tile_drawn(
            key_row_drawn(buf, key, from, to - 1),
            (to - 1) * TILE_WIDTH,
            7 * TILE_HEIGHT as int,
            key,
            WINDOW_WIDTH as int,
        )
    }
}

/// The buffer after the first `n` tangents of the grid have been drawn, the
/// one that plays `note_sprite_index` pressed and the others idle.
pub open spec fn grid_tangents_drawn(
    buf: Seq<u32>,
    note_sprite_index: usize,
    tangents: Seq<(u32, u32, Vec<u32>)>,
    n: nat,
) -> Seq<u32>
    decreases n,
{
    if n == 0 {
        buf
    } else {
        let (pos, tangent) = grid_tangents()[n - 1];
        let t = if note_sprite_index == tangent {
            TANGENT_PRESSED
        } else {
            TANGENT_IDLE
        };
        tile_drawn(
            grid_tangents_drawn(buf, note_sprite_index, tangents, (n - 1) as nat),
            pos * TILE_WIDTH - TANGENT_WIDTH / 2,
            7 * TILE_HEIGHT as int,
            tangents[t as int],
            WINDOW_WIDTH as int,
        )
    }
}

/// The key sprite drawn at the pressed key's column: idle for a sharp (its
/// tangent shows the press), pressed for a natural.
pub open spec fn pressed_column_key(sprites: Sprites, note_sprite_index: usize) -> (u32, u32, Vec<u32>) {
    if is_sharp_index(note_sprite_index) {
        sprites.keys@[KEY_IDLE as int]
    } else {
        sprites.keys@[KEY_PRESSED as int]
    }
}

/// The whole tile-grid panel: background, note name, octave number, waveform
/// and its caption, the key row with the pressed key, and the tangents.
pub open spec fn grid_panel_drawn(
    buf: Seq<u32>,
    pressed_key_position: int,
    note_sprite_index: usize,
    sprites: Sprites,
    grid_width: int,
    grid_height: int,
    waveform_index: int,
    octave_index: int,
) -> Seq<u32> {
    let ww = WINDOW_WIDTH as int;
    let tw = TILE_WIDTH as int;
    let th = TILE_HEIGHT as int;
    let b1 = background_drawn(buf, sprites.background@, grid_width, ww, (grid_width * grid_height) as nat);
    let b2 = tile_drawn(b1, 8 * tw, 0, sprites.notes@[note_sprite_index as int], ww);
    let b3 = tile_drawn(b2, 9 * tw, 0, sprites.numbers@[octave_index], ww);
    let b4 = tile_drawn(b3, 7 * tw, 9 * th, sprites.waveforms@[waveform_index], ww);
    let b5 = tile_drawn(b4, 8 * tw, 9 * th, sprites.text@[0], ww);
    let b6 = key_row_drawn(b5, sprites.keys@[KEY_IDLE as int], 0, pressed_key_position);
    let b7 = tile_drawn(b6, pressed_key_position * tw, 7 * th, pressed_column_key(sprites, note_sprite_index), ww);
    let b8 = key_row_drawn(b7, sprites.keys@[KEY_IDLE as int], pressed_key_position + 1, 7);
    grid_tangents_drawn(b8, note_sprite_index, sprites.tangents@, 5)
}

/// Every sprite of the tile-grid panel can be drawn where it goes.
pub open spec fn grid_panel_placeable(
    pressed_key_position: int,
    note_sprite_index: usize,
    sprites: Sprites,
    grid_width: int,
    grid_height: int,
    waveform_index: int,
    octave_index: int,
) -> bool {
    let ww = WINDOW_WIDTH as int;
    let tw = TILE_WIDTH as int;
    let th = TILE_HEIGHT as int;
    &&& grid_height < sprites.background@.len()
    &&& forall|row: int, col: int|
        0 <= row < grid_height && 0 <= col < grid_width ==> #[trigger] background_cell_placeable(
            sprites.background@,
            ww,
            row,
            col,
        )
    &&& note_sprite_index < sprites.notes@.len()
    &&& tile_placeable(8 * tw, 0, sprites.notes@[note_sprite_index as int], ww)
    &&& 0 <= octave_index < sprites.numbers@.len()
    &&& tile_placeable(9 * tw, 0, sprites.numbers@[octave_index], ww)
    &&& 0 <= waveform_index < sprites.waveforms@.len()
    &&& tile_placeable(7 * tw, 9 * th, sprites.waveforms@[waveform_index], ww)
    &&& sprites.text@.len() > 0
    &&& tile_placeable(8 * tw, 9 * th, sprites.text@[0], ww)
    &&& sprites.keys@.len() > KEY_PRESSED
    &&& forall|i: int|
        0 <= i < 7 || 0 <= i < pressed_key_position ==> #[trigger] tile_placeable(i * tw, 7 * th, sprites.keys@[KEY_IDLE as int], ww)
    &&& tile_placeable(pressed_key_position * tw, 7 * th, pressed_column_key(sprites, note_sprite_index), ww)
    &&& sprites.tangents@.len() > TANGENT_PRESSED
    &&& forall|i: int, t: int|
        0 <= i < 5 && (t == TANGENT_IDLE || t == TANGENT_PRESSED) ==> #[trigger] tile_placeable(
            grid_tangents()[i].0 * tw - TANGENT_WIDTH / 2,
            7 * th,
            #[trigger] sprites.tangents@[t],
            ww,
        )
}

/// Draws the tile-grid panel: the background, the note name and octave
/// number in the top row, the waveform and its caption, the white keys with
/// the one at `pressed_key_position` pressed (unless the note is a sharp),
/// and the tangents with the sharp's own pressed.
pub fn draw_sprites(
    pressed_key_position: usize,
    note_sprite_index: usize,
    sprites: &Sprites,
    grid_width: &usize,
    grid_height: &usize,
    waveform_index: &mut usize,
    octave_index: usize,
    window_buffer: &mut Vec<u32>,
)
    requires
        grid_panel_placeable(
            pressed_key_position as int,
            note_sprite_index,
            *sprites,
            *grid_width as int,
            *grid_height as int,
            *old(waveform_index) as int,
            octave_index as int,
        ),
    ensures
        *final(waveform_index) == *old(waveform_index),
        final(window_buffer)@ == grid_panel_drawn(
            old(window_buffer)@,
            pressed_key_position as int,
            note_sprite_index,
            *sprites,
            *grid_width as int,
            *grid_height as int,
            *old(waveform_index) as int,
            octave_index as int,
        ),
{
    let ghost start = window_buffer@;
    fill_background(window_buffer.as_mut_slice(), &sprites.background, *grid_width, *grid_height, WINDOW_WIDTH);
    draw_sprite(8 * TILE_WIDTH, 0 * TILE_HEIGHT, &sprites.notes[note_sprite_index], window_buffer.as_mut_slice(), WINDOW_WIDTH);
    draw_sprite(9 * TILE_WIDTH, 0 * TILE_HEIGHT, &sprites.numbers[octave_index], window_buffer.as_mut_slice(), WINDOW_WIDTH);
    draw_sprite(7 * TILE_WIDTH, 9 * TILE_HEIGHT, &sprites.waveforms[*waveform_index], window_buffer.as_mut_slice(), WINDOW_WIDTH);
    draw_sprite(8 * TILE_WIDTH, 9 * TILE_HEIGHT, &sprites.text[0], window_buffer.as_mut_slice(), WINDOW_WIDTH);
    let ghost b5 = window_buffer@;

    // Idle white keys left of the pressed key.
    for i in 0..pressed_key_position
        invariant
            grid_panel_placeable(
                pressed_key_position as int,
                note_sprite_index,
                *sprites,
                *grid_width as int,
                *grid_height as int,
                *waveform_index as int,
                octave_index as int,
            ),
            window_buffer@ == key_row_drawn(b5, sprites.keys@[KEY_IDLE as int], 0, i as int),
    {
        assert(tile_placeable(i * TILE_WIDTH, 7 * TILE_HEIGHT, sprites.keys@[KEY_IDLE as int], WINDOW_WIDTH as int));
        draw_sprite(i * TILE_WIDTH, 7 * TILE_HEIGHT, &sprites.keys[KEY_IDLE], window_buffer.as_mut_slice(), WINDOW_WIDTH);
    }

    // A sharp is shown on its tangent, so its column keeps an idle key.
    if note_sprite_index == NOTE_C_SHARP || note_sprite_index == NOTE_D_SHARP || note_sprite_index == NOTE_F_SHARP
        || note_sprite_index == NOTE_G_SHARP || note_sprite_index == NOTE_A_SHARP {
        draw_sprite(pressed_key_position * TILE_WIDTH, 7 * TILE_HEIGHT, &sprites.keys[KEY_IDLE], window_buffer.as_mut_slice(), WINDOW_WIDTH);
    } else {
        draw_sprite(pressed_key_position * TILE_WIDTH, 7 * TILE_HEIGHT, &sprites.keys[KEY_PRESSED], window_buffer.as_mut_slice(), WINDOW_WIDTH);
    }
    let ghost b7 = window_buffer@;

    // Idle white keys right of the pressed key.
    let mut i = pressed_key_position + 1;
    while i < 7
        invariant
            pressed_key_position + 1 <= i,
            i <= 7 || i == pressed_key_position + 1,
            grid_panel_placeable(
                pressed_key_position as int,
                note_sprite_index,
                *sprites,
                *grid_width as int,
                *grid_height as int,
                *waveform_index as int,
                octave_index as int,
            ),
            window_buffer@ == key_row_drawn(b7, sprites.keys@[KEY_IDLE as int], pressed_key_position + 1, i as int),
        decreases 7 - i,
    {
        assert(tile_placeable(i * TILE_WIDTH, 7 * TILE_HEIGHT, sprites.keys@[KEY_IDLE as int], WINDOW_WIDTH as int));
        draw_sprite(i * TILE_WIDTH, 7 * TILE_HEIGHT, &sprites.keys[0], window_buffer.as_mut_slice(), WINDOW_WIDTH);
        i = i + 1;
    }
    let ghost b8 = window_buffer@;

    // Tangents, the played sharp's one pressed.
    let tangent_map: Vec<(i32, usize)> = vec![
        (1, NOTE_C_SHARP),
        (2, NOTE_D_SHARP),
        (4, NOTE_F_SHARP),
        (5, NOTE_G_SHARP),
        (6, NOTE_A_SHARP),
    ];
    assert(tangent_map@ =~= grid_tangents());
    for k in 0..tangent_map.len()
        invariant
            tangent_map@ == grid_tangents(),
            grid_panel_placeable(
                pressed_key_position as int,
                note_sprite_index,
                *sprites,
                *grid_width as int,
                *grid_height as int,
                *waveform_index as int,
                octave_index as int,
            ),
            window_buffer@ == grid_tangents_drawn(b8, note_sprite_index, sprites.tangents@, k as nat),
    {
        let (pos, tangent) = tangent_map[k];
        let tangent_sprite_index = if note_sprite_index == tangent {
            TANGENT_PRESSED
        } else {
            TANGENT_IDLE
        };
        assert(tile_placeable(
            grid_tangents()[k as int].0 * TILE_WIDTH - TANGENT_WIDTH / 2,
            7 * TILE_HEIGHT,
            sprites.tangents@[tangent_sprite_index as int],
            WINDOW_WIDTH as int,
        ));
        let x = pos * (TILE_WIDTH as i32) - (TANGENT_WIDTH as i32 / 2i32);
        draw_sprite(x as usize, 7 * TILE_HEIGHT, &sprites.tangents[tangent_sprite_index], window_buffer.as_mut_slice(), WINDOW_WIDTH);
    }
}

} // verus!
