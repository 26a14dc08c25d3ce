//! Drawing the front panel from the synthesizer's state: rack, keys,
//! tangents, knobs, octave fader, waveform display and the played note.

use vstd::prelude::*;
use crate::graphics::{KEY_IDLE, KEY_PRESSED, TANGENT_IDLE, TANGENT_PRESSED, WINDOW_WIDTH};
use crate::graphics::sprites::{Sprite, Sprites, draw_sprite, drawn, fits};
use crate::music_theory::Note;
use crate::state::{State, StateView, CUTOFF_STEPS};
use crate::state::keys::{
    create_tangent_map, get_key_position, get_note_sprite_index, is_natural, key_position_of,
    note_sprite_index_of, tangent_map,
};
use crate::waveforms::Waveform;

verus! {

/// A sprite can be drawn at `(x, y)` in the window: the coordinates are not
/// negative, the sprite holds all its pixels and every index fits in `usize`.
pub open spec fn placeable(x: int, y: int, s: Sprite) -> bool {
    &&& 0 <= x
    &&& 0 <= y
    &&& s.wf()
    &&& fits(x, y, s, WINDOW_WIDTH as int)
}

/// The window buffer after drawing `s` at `(x, y)`.
pub open spec fn panel_drawn(buf: Seq<u32>, x: int, y: int, s: Sprite) -> Seq<u32> {
    drawn(buf, x, y, s, WINDOW_WIDTH as int)
}

/// The coordinates of a placeable sprite leave room below `usize::MAX` for
/// the small offsets that the panel layout adds to them.
proof fn lemma_placeable_bounds(x: int, y: int, s: Sprite)
    requires
        placeable(x, y, s),
    ensures
        x <= usize::MAX,
        y + 20 <= usize::MAX,
{
    assert(x <= usize::MAX && y + 20 <= usize::MAX) by (nonlinear_arith)
        requires
            0 <= x,
            0 <= y,
            0 <= s.width,
            0 <= s.height,
            (y + s.height) * (WINDOW_WIDTH as int) + x + s.width <= usize::MAX,
            WINDOW_WIDTH == 575,
            usize::MAX >= 0xFFFF_FFFF,
    ;
}

/// Left edge of a tangent centred on white-key position `pos`, never left of
/// the window.
pub open spec fn tangent_x(pos: i32, key_width: u32, tangent_width: u32) -> int {
    let x = pos * key_width - tangent_width / 2;
    if x >= 0 {
        x
    } else {
        0
    }
}

/// The tangent sprite for a tangent that plays `tangent`, while the note with
/// sprite index `sounding` sounds (if any does).
pub open spec fn tangent_sprite_for(sounding: Option<usize>, tangent: usize) -> usize {
    if sounding == Some(tangent) {
        TANGENT_PRESSED
    } else {
        TANGENT_IDLE
    }
}

/// The knob sprite that shows a cutoff of `step` sevenths of the range.
pub open spec fn knob_sprite_of(step: int) -> int {
    if step <= CUTOFF_STEPS {
        step
    } else {
        CUTOFF_STEPS as int
    }
}

/// The buffer after the first `n` entries of `tmap` have been drawn as
/// tangents, pressed where they play the sounding note and idle elsewhere.
pub open spec fn tangents_drawn(
    buf: Seq<u32>,
    tmap: Seq<(i32, usize)>,
    sounding: Option<usize>,
    sprites: Sprites,
    n: nat,
) -> Seq<u32>
    decreases n,
{
    if n == 0 {
        buf
    } else {
        let prev = tangents_drawn(buf, tmap, sounding, sprites, (n - 1) as nat);
        let (pos, tangent) = tmap[n - 1];
        let t = sprites.tangents@[tangent_sprite_for(sounding, tangent) as int];
        let key = sprites.keys@[KEY_IDLE as int];
        panel_drawn(prev, tangent_x(pos, key.width, t.width), 2 * key.height, t)
    }
}

/// Every tangent of `tmap`, in either sprite, can be drawn where it goes.
pub open spec fn tangents_placeable(tmap: Seq<(i32, usize)>, sprites: Sprites) -> bool {
    &&& sprites.keys@.len() > KEY_IDLE
    &&& sprites.tangents@.len() > TANGENT_PRESSED
    &&& sprites.keys@[KEY_IDLE as int].width <= i32::MAX
    &&& forall|i: int, t: int|
        0 <= i < tmap.len() && (t == TANGENT_IDLE || t == TANGENT_PRESSED) ==> {
            let ts = #[trigger] sprites.tangents@[t];
            let key = sprites.keys@[KEY_IDLE as int];
            &&& ts.width <= i32::MAX
            &&& i32::MIN <= #[trigger] tmap[i].0 * key.width - ts.width / 2 <= i32::MAX
            &&& i32::MIN <= tmap[i].0 * key.width <= i32::MAX
            &&& placeable(tangent_x(tmap[i].0, key.width, ts.width), 2 * key.height, ts)
        }
}

/// The buffer after idle keys have been drawn at positions `1 .. n`.
pub open spec fn idle_keys_drawn(buf: Seq<u32>, key: Sprite, n: nat) -> Seq<u32>
    decreases n,
{
    if n <= 1 {
        buf
    } else {
        let prev = idle_keys_drawn(buf, key, (n - 1) as nat);
        panel_drawn(prev, (n - 1) * key.width, 2 * key.height, key)
    }
}

/// The rack sprite `rack_index` at the top-left corner.
pub fn draw_rack_sprite(sprites: &Sprites, buffer: &mut [u32], rack_index: usize)
    requires
        rack_index < sprites.rack@.len(),
        placeable(0, 0, sprites.rack@[rack_index as int]),
    ensures
        final(buffer)@ == panel_drawn(old(buffer)@, 0, 0, sprites.rack@[rack_index as int]),
{
    draw_sprite(0, 0, &sprites.rack[rack_index], buffer, WINDOW_WIDTH);
}

/// Where frame `display_index` of a waveform display animation goes.
pub open spec fn display_place(sheet: Seq<Sprite>) -> (int, int) {
    (sheet[0].width as int, 4 * sheet[0].height + 17)
}

/// Frame `display_index` of a waveform display animation, right of the rack
/// edge and above the keys.
pub fn draw_display_sprite(sprite: &Vec<Sprite>, buffer: &mut [u32], display_index: usize)
    requires
        display_index < sprite@.len(),
        placeable(display_place(sprite@).0, display_place(sprite@).1, sprite@[display_index as int]),
    ensures
        final(buffer)@ == panel_drawn(
            old(buffer)@,
            display_place(sprite@).0,
            display_place(sprite@).1,
            sprite@[display_index as int],
        ),
{
    proof {
        lemma_placeable_bounds(display_place(sprite@).0, display_place(sprite@).1, sprite@[display_index as int]);
    }
    let w = sprite[0].width as usize;
    let h = sprite[0].height as usize;
    draw_sprite(w, 4 * h + 17, &sprite[display_index], buffer, WINDOW_WIDTH);
}

/// Where the pressed white key at `key_position` goes.
pub open spec fn pressed_key_place(sprites: Sprites, key_position: int) -> (int, int) {
    let k = sprites.keys@[KEY_PRESSED as int];
    (key_position * k.width, 2 * k.height)
}

/// The pressed white key at `key_position`.
pub fn draw_pressed_key_sprite(sprites: &Sprites, window_buffer: &mut Vec<u32>, key_position: usize)
    requires
        sprites.keys@.len() > KEY_PRESSED,
        placeable(
            pressed_key_place(*sprites, key_position as int).0,
            pressed_key_place(*sprites, key_position as int).1,
            sprites.keys@[KEY_PRESSED as int],
        ),
    ensures
        final(window_buffer)@ == panel_drawn(
            old(window_buffer)@,
            pressed_key_place(*sprites, key_position as int).0,
            pressed_key_place(*sprites, key_position as int).1,
            sprites.keys@[KEY_PRESSED as int],
        ),
{
    proof {
        lemma_placeable_bounds(
            pressed_key_place(*sprites, key_position as int).0,
            pressed_key_place(*sprites, key_position as int).1,
            sprites.keys@[KEY_PRESSED as int],
        );
    }
    let key = &sprites.keys[KEY_PRESSED];
    let x = key_position * key.width as usize;
    let y = 2 * key.height as usize;
    draw_sprite(x, y, key, window_buffer.as_mut_slice(), WINDOW_WIDTH);
}

/// Where the octave fader goes.
pub open spec fn fader_place(sprites: Sprites) -> (int, int) {
    let k = sprites.keys@[KEY_IDLE as int];
    (8 * k.width + 5, 2 * k.height)
}

/// The octave fader, in the position of octave `octave`.
pub fn draw_octave_fader_sprite(octave: i32, sprites: &Sprites, window_buffer: &mut Vec<u32>)
    requires
        sprites.keys@.len() > KEY_IDLE,
        0 <= octave < sprites.octave_fader@.len(),
        placeable(fader_place(*sprites).0, fader_place(*sprites).1, sprites.octave_fader@[octave as int]),
    ensures
        final(window_buffer)@ == panel_drawn(
            old(window_buffer)@,
            fader_place(*sprites).0,
            fader_place(*sprites).1,
            sprites.octave_fader@[octave as int],
        ),
{
    proof {
        lemma_placeable_bounds(fader_place(*sprites).0, fader_place(*sprites).1, sprites.octave_fader@[octave as int]);
    }
    let key = &sprites.keys[KEY_IDLE];
    let x = 8 * key.width as usize + 5;
    let y = 2 * key.height as usize;
    draw_sprite(x, y, &sprites.octave_fader[octave as usize], window_buffer.as_mut_slice(), WINDOW_WIDTH);
}

/// Where knob `slot` of the knob row goes (the cutoff knob is slot 6).
pub open spec fn knob_place(sprites: Sprites, slot: int) -> (int, int) {
    let k = sprites.knob@[0];
    (slot * k.width, 5 * k.height - 10)
}

/// The low-pass filter's cutoff knob, turned to the state's cutoff.
pub fn draw_filter_cutoff_knob_sprite(state: &State, sprites: &Sprites, window_buffer: &mut Vec<u32>)
    requires
        sprites.knob@.len() > knob_sprite_of(state@.cutoff_step),
        5 * sprites.knob@[0].height >= 10,
        placeable(
            knob_place(*sprites, 6).0,
            knob_place(*sprites, 6).1,
            sprites.knob@[knob_sprite_of(state@.cutoff_step)],
        ),
    ensures
        final(window_buffer)@ == panel_drawn(
            old(window_buffer)@,
            knob_place(*sprites, 6).0,
            knob_place(*sprites, 6).1,
            sprites.knob@[knob_sprite_of(state@.cutoff_step)],
        ),
{
    proof {
        lemma_placeable_bounds(
            knob_place(*sprites, 6).0,
            knob_place(*sprites, 6).1,
            sprites.knob@[knob_sprite_of(state@.cutoff_step)],
        );
    }
    let step = state.get_filter_cutoff_step();
    let knob_sprite_index: usize = if step <= CUTOFF_STEPS {
        step as usize
    } else {
        CUTOFF_STEPS as usize
    };
    let knob = &sprites.knob[0];
    let x = 6 * knob.width as usize;
    let y = 5 * knob.height as usize - 10;
    draw_sprite(x, y, &sprites.knob[knob_sprite_index], window_buffer.as_mut_slice(), WINDOW_WIDTH);
}

/// The idle knob left of the cutoff knob.
pub fn draw_idle_knob_sprite(sprites: &Sprites, window_buffer: &mut Vec<u32>)
    requires
        sprites.knob@.len() > 0,
        5 * sprites.knob@[0].height >= 10,
        placeable(knob_place(*sprites, 7).0, knob_place(*sprites, 7).1, sprites.knob@[0]),
    ensures
        final(window_buffer)@ == panel_drawn(
            old(window_buffer)@,
            knob_place(*sprites, 7).0,
            knob_place(*sprites, 7).1,
            sprites.knob@[0],
        ),
{
    proof {
        lemma_placeable_bounds(knob_place(*sprites, 7).0, knob_place(*sprites, 7).1, sprites.knob@[0]);
    }
    let knob = &sprites.knob[0];
    let x = 7 * knob.width as usize;
    let y = 5 * knob.height as usize - 10;
    draw_sprite(x, y, knob, window_buffer.as_mut_slice(), WINDOW_WIDTH);
}

/// Where the note name goes.
pub open spec fn note_place(sprites: Sprites) -> (int, int) {
    let n = sprites.notes@[0];
    (n.width as int, 5 * n.height - 15)
}

/// The name of the note with sprite index `note_sprite_index`.
pub fn draw_note_sprite(sprites: &Sprites, window_buffer: &mut Vec<u32>, note_sprite_index: usize)
    requires
        note_sprite_index < sprites.notes@.len(),
        5 * sprites.notes@[0].height >= 15,
        placeable(note_place(*sprites).0, note_place(*sprites).1, sprites.notes@[note_sprite_index as int]),
    ensures
        final(window_buffer)@ == panel_drawn(
            old(window_buffer)@,
            note_place(*sprites).0,
            note_place(*sprites).1,
            sprites.notes@[note_sprite_index as int],
        ),
{
    proof {
        lemma_placeable_bounds(note_place(*sprites).0, note_place(*sprites).1, sprites.notes@[note_sprite_index as int]);
    }
    let first = &sprites.notes[0];
    let x = first.width as usize;
    let y = 5 * first.height as usize - 15;
    draw_sprite(x, y, &sprites.notes[note_sprite_index], window_buffer.as_mut_slice(), WINDOW_WIDTH);
}

/// Draws the tangent at `pos` with tangent sprite `t`.
fn draw_tangent_at(pos: i32, t: usize, sprites: &Sprites, window_buffer: &mut Vec<u32>)
    requires
        sprites.keys@.len() > KEY_IDLE,
        t < sprites.tangents@.len(),
        sprites.keys@[KEY_IDLE as int].width <= i32::MAX,
        sprites.tangents@[t as int].width <= i32::MAX,
        i32::MIN <= pos * sprites.keys@[KEY_IDLE as int].width <= i32::MAX,
        i32::MIN <= pos * sprites.keys@[KEY_IDLE as int].width - sprites.tangents@[t as int].width / 2 <= i32::MAX,
        placeable(
            tangent_x(pos, sprites.keys@[KEY_IDLE as int].width, sprites.tangents@[t as int].width),
            2 * sprites.keys@[KEY_IDLE as int].height,
            sprites.tangents@[t as int],
        ),
    ensures
        final(window_buffer)@ == panel_drawn(
            old(window_buffer)@,
            tangent_x(pos, sprites.keys@[KEY_IDLE as int].width, sprites.tangents@[t as int].width),
            2 * sprites.keys@[KEY_IDLE as int].height,
            sprites.tangents@[t as int],
        ),
{
    proof {
        lemma_placeable_bounds(
            tangent_x(pos, sprites.keys@[KEY_IDLE as int].width, sprites.tangents@[t as int].width),
            2 * sprites.keys@[KEY_IDLE as int].height,
            sprites.tangents@[t as int],
        );
    }
    let key_width = sprites.keys[KEY_IDLE].width as i32;
    let key_height = sprites.keys[KEY_IDLE].height as usize;
    let tangent_width = sprites.tangents[t].width as i32;
    let x = (pos * key_width) - (tangent_width / 2);
    let x_usize: usize = if x >= 0 {
        x as usize
    } else {
        0
    };
    draw_sprite(x_usize, 2 * key_height, &sprites.tangents[t], window_buffer.as_mut_slice(), WINDOW_WIDTH);
}

/// Every tangent of `tangent_map` in its idle state.
pub fn draw_idle_tangent_sprites(sprites: &Sprites, window_buffer: &mut Vec<u32>, tangent_map: &Vec<(i32, usize)>)
    requires
        tangents_placeable(tangent_map@, *sprites),
    ensures
        final(window_buffer)@ == tangents_drawn(
            old(window_buffer)@,
            tangent_map@,
            None,
            *sprites,
            tangent_map@.len(),
        ),
{
    draw_tangents(None, tangent_map, sprites, window_buffer);
}

/// Draws every tangent of `tangent_map`, pressed where it plays the
/// sounding note.
fn draw_tangents(sounding: Option<usize>, tangent_map: &Vec<(i32, usize)>, sprites: &Sprites, window_buffer: &mut Vec<u32>)
    requires
        tangents_placeable(tangent_map@, *sprites),
    ensures
        final(window_buffer)@ == tangents_drawn(
            old(window_buffer)@,
            tangent_map@,
            sounding,
            *sprites,
            tangent_map@.len(),
        ),
{
    let ghost start = window_buffer@;
    for i in 0..tangent_map.len()
        invariant
            tangents_placeable(tangent_map@, *sprites),
            window_buffer@ == tangents_drawn(start, tangent_map@, sounding, *sprites, i as nat),
    {
        let (pos, tangent) = tangent_map[i];
        let t = if sounding == Some(tangent) {
            TANGENT_PRESSED
        } else {
            TANGENT_IDLE
        };
        assert(t == TANGENT_IDLE || t == TANGENT_PRESSED);
        draw_tangent_at(pos, t, sprites, window_buffer);
    }
}

/// Every tangent of `tangent_map`: pressed where it plays the note with
/// sprite index `note_sprite_index`, idle elsewhere.
pub fn draw_tangent_sprites(note_sprite_index: usize, tangent_map: &Vec<(i32, usize)>, sprites: &Sprites, window_buffer: &mut Vec<u32>)
    requires
        tangents_placeable(tangent_map@, *sprites),
    ensures
        final(window_buffer)@ == tangents_drawn(
            old(window_buffer)@,
            tangent_map@,
            Some(note_sprite_index),
            *sprites,
            tangent_map@.len(),
        ),
{
    draw_tangents(Some(note_sprite_index), tangent_map, sprites, window_buffer);
}

/// Every idle key position can take an idle key.
pub open spec fn idle_keys_placeable(sprites: Sprites) -> bool {
    &&& sprites.keys@.len() > KEY_IDLE
    &&& forall|i: int|
        1 <= i < 8 ==> placeable(
            #[trigger] (i * sprites.keys@[KEY_IDLE as int].width),
            2 * sprites.keys@[KEY_IDLE as int].height,
            sprites.keys@[KEY_IDLE as int],
        )
}

/// The seven white keys, at positions 1 to 7, all idle.
pub fn draw_idle_key_sprites(sprites: &Sprites, window_buffer: &mut Vec<u32>)
    requires
        idle_keys_placeable(*sprites),
    ensures
        final(window_buffer)@ == idle_keys_drawn(old(window_buffer)@, sprites.keys@[KEY_IDLE as int], 8),
{
    let ghost start = window_buffer@;
    let key = &sprites.keys[KEY_IDLE];
    for i in 1..8usize
        invariant
            idle_keys_placeable(*sprites),
            *key == sprites.keys@[KEY_IDLE as int],
            window_buffer@ == idle_keys_drawn(start, *key, i as nat),
    {
        proof {
            assert(placeable(i * key.width, 2 * key.height, *key));
            lemma_placeable_bounds(i * key.width, 2 * key.height, *key);
        }
        let x = i * key.width as usize;
        let y = 2 * key.height as usize;
        draw_sprite(x, y, key, window_buffer.as_mut_slice(), WINDOW_WIDTH);
    }
}

/// Number of frames in a waveform display animation.
pub const DISPLAY_FRAMES: usize = 6;

/// The display animation frame that follows frame `display_index`, wrapping
/// after the last one.
pub fn next_display_index(display_index: usize) -> (r: usize)
    ensures
        r == (display_index + 1) % (DISPLAY_FRAMES as int),
{
    (display_index % DISPLAY_FRAMES + 1) % DISPLAY_FRAMES
}

/// The display animation of a waveform (Saw has none of its own and shows
/// the sine animation).
pub open spec fn display_sheet(sprites: Sprites, w: Waveform) -> Seq<Sprite> {
    match w {
        Waveform::SQUARE => sprites.display_square@,
        _ => sprites.display_sine@,
    }
}

/// The front panel drawn for controls `v`: rack, idle keys and tangents,
/// cutoff and idle knobs, octave fader and display frame; then, once a note
/// has been played, its name, its white key if it is a natural, and the
/// tangents again with its own pressed if it is a sharp.
pub open spec fn panel_for_state(
    buf: Seq<u32>,
    v: StateView,
    sprites: Sprites,
    rack_index: int,
    display_index: int,
) -> Seq<u32> {
    let b1 = panel_drawn(buf, 0, 0, sprites.rack@[rack_index]);
    let b2 = idle_keys_drawn(b1, sprites.keys@[KEY_IDLE as int], 8);
    let b3 = tangents_drawn(b2, tangent_map(), None, sprites, 5);
    let b4 = panel_drawn(
        b3,
        knob_place(sprites, 6).0,
        knob_place(sprites, 6).1,
        sprites.knob@[knob_sprite_of(v.cutoff_step)],
    );
    let b5 = panel_drawn(b4, knob_place(sprites, 7).0, knob_place(sprites, 7).1, sprites.knob@[0]);
    let b6 = panel_drawn(b5, fader_place(sprites).0, fader_place(sprites).1, sprites.octave_fader@[v.octave]);
    let sheet = display_sheet(sprites, v.waveform);
    let b7 = panel_drawn(b6, display_place(sheet).0, display_place(sheet).1, sheet[display_index]);
    match v.pressed_key {
        None => b7,
        Some(hit) => {
            let n = hit.1;
            let b8 = panel_drawn(b7, note_place(sprites).0, note_place(sprites).1, sprites.notes@[note_sprite_index_of(n) as int]);
            let b9 = if is_natural(n) {
                panel_drawn(
                    b8,
                    pressed_key_place(sprites, key_position_of(n) as int).0,
                    pressed_key_place(sprites, key_position_of(n) as int).1,
                    sprites.keys@[KEY_PRESSED as int],
                )
            } else {
                b8
            };
            tangents_drawn(b9, tangent_map(), Some(note_sprite_index_of(n)), sprites, 5)
        },
    }
}

/// Every sprite of the panel for controls `v` can be drawn where it goes.
pub open spec fn panel_placeable(v: StateView, sprites: Sprites, rack_index: int, display_index: int) -> bool {
    let sheet = display_sheet(sprites, v.waveform);
    &&& 0 <= rack_index < sprites.rack@.len()
    &&& placeable(0, 0, sprites.rack@[rack_index])
    &&& idle_keys_placeable(sprites)
    &&& tangents_placeable(tangent_map(), sprites)
    &&& sprites.knob@.len() > CUTOFF_STEPS
    &&& 5 * sprites.knob@[0].height >= 10
    &&& placeable(knob_place(sprites, 6).0, knob_place(sprites, 6).1, sprites.knob@[knob_sprite_of(v.cutoff_step)])
    &&& placeable(knob_place(sprites, 7).0, knob_place(sprites, 7).1, sprites.knob@[0])
    &&& 0 <= v.octave < sprites.octave_fader@.len()
    &&& placeable(fader_place(sprites).0, fader_place(sprites).1, sprites.octave_fader@[v.octave])
    &&& 0 <= display_index < sheet.len()
    &&& placeable(display_place(sheet).0, display_place(sheet).1, sheet[display_index])
    &&& v.pressed_key matches Some(hit) ==> {
        let n = hit.1;
        &&& note_sprite_index_of(n) < sprites.notes@.len()
        &&& 5 * sprites.notes@[0].height >= 15
        &&& placeable(note_place(sprites).0, note_place(sprites).1, sprites.notes@[note_sprite_index_of(n) as int])
        &&& sprites.keys@.len() > KEY_PRESSED
        &&& is_natural(n) ==> placeable(
            pressed_key_place(sprites, key_position_of(n) as int).0,
            pressed_key_place(sprites, key_position_of(n) as int).1,
            sprites.keys@[KEY_PRESSED as int],
        )
    }
}

/// Draws the whole front panel for the current state into the window buffer.
pub fn update_buffer_with_state(
    state: &State,
    sprites: &Sprites,
    window_buffer: &mut Vec<u32>,
    rack_index: usize,
    display_index: usize,
)
    requires
        panel_placeable(state@, *sprites, rack_index as int, display_index as int),
    ensures
        final(window_buffer)@ == panel_for_state(
            old(window_buffer)@,
            state@,
            *sprites,
            rack_index as int,
            display_index as int,
        ),
{
    draw_rack_sprite(sprites, window_buffer.as_mut_slice(), rack_index);
    draw_idle_key_sprites(sprites, window_buffer);
    let tangent_map = create_tangent_map();
    draw_idle_tangent_sprites(sprites, window_buffer, &tangent_map);
    draw_filter_cutoff_knob_sprite(state, sprites, window_buffer);
    draw_idle_knob_sprite(sprites, window_buffer);
    draw_octave_fader_sprite(state.get_current_octave(), sprites, window_buffer);
    let sprite = match state.get_current_waveform() {
        Waveform::SQUARE => &sprites.display_square,
        _ => &sprites.display_sine,
    };
    draw_display_sprite(sprite, window_buffer.as_mut_slice(), display_index);
    if let Some((_, note)) = state.get_pressed_key() {
        let note_sprite_index = match get_note_sprite_index(&note) {
            Some(i) => i,
            None => 0,
        };
        let key_position = match get_key_position(&note) {
            Some(p) => p,
            None => 0,
        };
        draw_note_sprite(sprites, window_buffer, note_sprite_index);
        if matches!(note, Note::A | Note::B | Note::C | Note::D | Note::E | Note::F | Note::G) {
            draw_pressed_key_sprite(sprites, window_buffer, key_position);
        }
        draw_tangent_sprites(note_sprite_index, &tangent_map, sprites, window_buffer);
    }
}

} // verus!
