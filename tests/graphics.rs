use synthesizer::graphics::sheet::{img_to_buffer, load_sprites_from_map, split_sprite_map};
use synthesizer::graphics::sprite::{self as grid, draw_sprites, fill_background};
use synthesizer::graphics::sprites::{blend_pixel, draw_sprite, Sprite, Sprites};
use synthesizer::graphics::{NOTE_A, NOTE_C_SHARP, NOTE_F, NOTE_F_SHARP, WINDOW_WIDTH};
use synthesizer::music_theory::Note;
use synthesizer::state::keys::Key;
use synthesizer::state::utils::update_buffer_with_state;
use synthesizer::state::{handle_key_presses, State};

const BLACK: u32 = 0xFF00_0000;

#[test]
fn blend_opaque_pixel_replaces() {
    assert_eq!(blend_pixel(0xFF12_3456, 0xFFAB_CDEF), 0xFF12_3456);
}

#[test]
fn blend_half_transparent_magenta_over_white() {
    assert_eq!(blend_pixel(0x80FF_00FF, 0xFFFF_FFFF), 0xFFFF_7FFF);
}

#[test]
fn blend_faint_white_over_black() {
    assert_eq!(blend_pixel(0x01FF_FFFF, 0xFF00_0000), 0xFF01_0101);
}

#[test]
fn blend_result_is_opaque() {
    assert_eq!(blend_pixel(0x4000_0000, 0x0000_0000) >> 24, 0xFF);
}

#[test]
fn draw_sprite_blends_and_skips_transparent() {
    let mut buf = vec![BLACK; 12];
    let sprite = Sprite::new(2, 2, vec![0xFFFF_0000, 0x00FF_FFFF, 0xFF00_FF00, 0x80FF_FFFF]);
    draw_sprite(1, 1, &sprite, &mut buf, 4);
    let mut expected = vec![BLACK; 12];
    expected[5] = 0xFFFF_0000;
    expected[9] = 0xFF00_FF00;
    expected[10] = 0xFF80_8080;
    assert_eq!(buf, expected);
}

#[test]
fn draw_sprite_wraps_past_window_edge() {
    let mut buf = vec![BLACK; 6];
    let sprite = Sprite::new(2, 1, vec![0xFF11_1111, 0xFF22_2222]);
    draw_sprite(2, 0, &sprite, &mut buf, 3);
    assert_eq!(buf, vec![BLACK, BLACK, 0xFF11_1111, 0xFF22_2222, BLACK, BLACK]);
}

#[test]
fn draw_sprite_drops_pixels_past_buffer_end() {
    let mut buf = vec![BLACK; 4];
    let sprite = Sprite::new(2, 2, vec![0xFF00_0001, 0xFF00_0002, 0xFF00_0003, 0xFF00_0004]);
    draw_sprite(0, 1, &sprite, &mut buf, 2);
    assert_eq!(buf, vec![BLACK, BLACK, 0xFF00_0001, 0xFF00_0002]);
}

#[test]
fn draw_empty_sprite_changes_nothing() {
    let mut buf = vec![BLACK; 4];
    draw_sprite(0, 0, &Sprite::new(0, 5, vec![]), &mut buf, 2);
    assert_eq!(buf, vec![BLACK; 4]);
}

#[test]
fn rgba_bytes_pack_to_argb() {
    assert_eq!(img_to_buffer(&vec![1, 2, 3, 4, 5, 6, 7, 8, 9]), vec![0x0401_0203, 0x0805_0607]);
    assert_eq!(img_to_buffer(&vec![]), Vec::<u32>::new());
}

#[test]
fn sheet_is_cut_row_by_row() {
    let pixels: Vec<u32> = (0..15).collect();
    let sprites = split_sprite_map(5, 3, &pixels, 2, 1);
    assert_eq!(sprites.len(), 6);
    let data: Vec<Vec<u32>> = sprites.iter().map(|s| s.data.clone()).collect();
    assert_eq!(data, vec![vec![0, 1], vec![2, 3], vec![5, 6], vec![7, 8], vec![10, 11], vec![12, 13]]);
    assert!(sprites.iter().all(|s| s.width == 2 && s.height == 1));
}

#[test]
fn sheet_with_square_tiles() {
    let pixels: Vec<u32> = (0..8).collect();
    let sprites = split_sprite_map(4, 2, &pixels, 2, 2);
    assert_eq!(sprites.len(), 2);
    assert_eq!(sprites[0].data, vec![0, 1, 4, 5]);
    assert_eq!(sprites[1].data, vec![2, 3, 6, 7]);
}

#[test]
fn sheet_smaller_than_a_tile_gives_nothing() {
    let pixels: Vec<u32> = (0..4).collect();
    assert_eq!(split_sprite_map(2, 2, &pixels, 3, 1).len(), 0);
}

#[test]
fn decoded_image_pixels_become_argb() {
    let rgba = image::RgbaImage::from_raw(2, 1, vec![1, 2, 3, 4, 5, 6, 7, 8]).unwrap();
    assert_eq!(img_to_buffer(&rgba.into_raw()), vec![0x0401_0203, 0x0805_0607]);
}

#[test]
fn rgba_sheet_is_cut_into_sprites() {
    let bytes: Vec<u8> = (0..32).collect();
    let sprites = load_sprites_from_map(4, 2, &bytes, 2, 2);
    assert_eq!(sprites.len(), 2);
    assert_eq!(sprites[0].width, 2);
    assert_eq!(sprites[0].height, 2);
    assert_eq!(sprites[0].data, vec![0x0300_0102, 0x0704_0506, 0x1310_1112, 0x1714_1516]);
    assert_eq!(sprites[1].data, vec![0x0B08_090A, 0x0F0C_0D0E, 0x1B18_191A, 0x1F1C_1D1E]);
}

#[test]
fn rgba_sheet_drops_partial_tiles() {
    let bytes: Vec<u8> = (0..36).collect();
    let sprites = load_sprites_from_map(3, 3, &bytes, 2, 2);
    assert_eq!(sprites.len(), 1);
    assert_eq!(sprites[0].data, vec![0x0300_0102, 0x0704_0506, 0x0F0C_0D0E, 0x1310_1112]);
}

fn tile(c: u32) -> (u32, u32, Vec<u32>) {
    (1, 1, vec![c])
}

#[test]
fn background_rows_take_sheet_from_the_end() {
    let map = vec![tile(0xFFAA_0000), tile(0xFFBB_0000), tile(0xFFCC_0000)];
    let mut buf = vec![BLACK; 4];
    fill_background(&mut buf, &map, 2, 2, 2);
    assert_eq!(buf, vec![0xFFCC_0000, 0xFFCC_0000, 0xFFBB_0000, 0xFFBB_0000]);
}

#[test]
fn grid_draw_sprite_places_tuple_sprite() {
    let mut buf = vec![BLACK; 4];
    grid::draw_sprite(1, 1, &tile(0xFF12_3456), &mut buf, 2);
    assert_eq!(buf, vec![BLACK, BLACK, BLACK, 0xFF12_3456]);
}

const KEY_IDLE_C: u32 = 0xFF00_0010;
const KEY_PRESSED_C: u32 = 0xFF00_0011;
const TANGENT_IDLE_C: u32 = 0xFF00_0020;
const TANGENT_PRESSED_C: u32 = 0xFF00_0021;

fn grid_sprites() -> grid::Sprites {
    grid::Sprites {
        notes: (0..12).map(|i| tile(0xFF01_0000 + i)).collect(),
        waveforms: vec![tile(0xFF02_0000), tile(0xFF02_0001)],
        background: vec![tile(0xFF03_0000)],
        numbers: (0..9).map(|i| tile(0xFF04_0000 + i)).collect(),
        keys: vec![tile(KEY_IDLE_C), tile(KEY_PRESSED_C)],
        tangents: vec![tile(TANGENT_IDLE_C), tile(TANGENT_PRESSED_C)],
        text: vec![tile(0xFF05_0000)],
    }
}

fn at(x: usize, y: usize) -> usize {
    y * grid::WINDOW_WIDTH + x
}

#[test]
fn grid_panel_with_natural_note() {
    let sprites = grid_sprites();
    let mut buf = vec![BLACK; grid::WINDOW_WIDTH * grid::WINDOW_HEIGHT];
    let mut waveform_index = 1usize;
    draw_sprites(2, NOTE_A, &sprites, &0, &0, &mut waveform_index, 4, &mut buf);
    assert_eq!(waveform_index, 1);
    assert_eq!(buf[at(512, 0)], 0xFF01_0000 + NOTE_A as u32);
    assert_eq!(buf[at(576, 0)], 0xFF04_0004);
    assert_eq!(buf[at(448, 432)], 0xFF02_0001);
    assert_eq!(buf[at(512, 432)], 0xFF05_0000);
    assert_eq!(buf[at(0, 336)], KEY_IDLE_C);
    assert_eq!(buf[at(64, 336)], KEY_IDLE_C);
    assert_eq!(buf[at(128, 336)], KEY_PRESSED_C);
    assert_eq!(buf[at(384, 336)], KEY_IDLE_C);
    assert_eq!(buf[at(448, 336)], BLACK);
    for x in [49, 113, 241, 305, 369] {
        assert_eq!(buf[at(x, 336)], TANGENT_IDLE_C);
    }
}

#[test]
fn grid_panel_with_sharp_note() {
    let sprites = grid_sprites();
    let mut buf = vec![BLACK; grid::WINDOW_WIDTH * grid::WINDOW_HEIGHT];
    let mut waveform_index = 0usize;
    draw_sprites(0, NOTE_C_SHARP, &sprites, &0, &0, &mut waveform_index, 3, &mut buf);
    assert_eq!(buf[at(0, 336)], KEY_IDLE_C);
    assert_eq!(buf[at(49, 336)], TANGENT_PRESSED_C);
    assert_eq!(buf[at(113, 336)], TANGENT_IDLE_C);
    assert_eq!(buf[at(448, 432)], 0xFF02_0000);
}

fn sprite(w: u32, h: u32, c: u32) -> Sprite {
    Sprite::new(w, h, vec![c; (w * h) as usize])
}

const RACK_C: u32 = 0xFF10_0000;
const FADER_BASE: u32 = 0xFF20_0000;
const KNOB_BASE: u32 = 0xFF30_0000;
const DISPLAY_SINE_BASE: u32 = 0xFF40_0000;
const DISPLAY_SQUARE_BASE: u32 = 0xFF50_0000;
const NOTE_BASE: u32 = 0xFF60_0000;

fn panel_sprites() -> Sprites {
    Sprites {
        notes: (0..12).map(|i| Sprite::new(1, 3, vec![NOTE_BASE + i, NOTE_BASE + i, 0])).collect(),
        numbers: vec![],
        keys: vec![sprite(1, 1, KEY_IDLE_C), sprite(1, 1, KEY_PRESSED_C)],
        tangents: vec![sprite(1, 1, TANGENT_IDLE_C), sprite(1, 1, TANGENT_PRESSED_C)],
        knob: (0..8).map(|i| sprite(1, 2, KNOB_BASE + i)).collect(),
        rack: vec![sprite(1, 1, RACK_C)],
        display_sine: (0..6).map(|i| sprite(1, 1, DISPLAY_SINE_BASE + i)).collect(),
        display_square: (0..6).map(|i| sprite(1, 1, DISPLAY_SQUARE_BASE + i)).collect(),
        octave_fader: (0..9).map(|i| sprite(1, 1, FADER_BASE + i)).collect(),
    }
}

fn px(x: usize, y: usize) -> usize {
    y * WINDOW_WIDTH + x
}

#[test]
fn panel_before_any_note() {
    let sprites = panel_sprites();
    let state = State::new();
    let mut buf = vec![BLACK; WINDOW_WIDTH * 30];
    update_buffer_with_state(&state, &sprites, &mut buf, 0, 3);
    assert_eq!(buf[px(0, 0)], RACK_C);
    assert_eq!(buf[px(1, 2)], KEY_IDLE_C);
    assert_eq!(buf[px(4, 2)], KEY_IDLE_C);
    for x in [2, 3, 5, 6, 7] {
        assert_eq!(buf[px(x, 2)], TANGENT_IDLE_C);
    }
    assert_eq!(buf[px(6, 0)], KNOB_BASE);
    assert_eq!(buf[px(7, 1)], KNOB_BASE);
    assert_eq!(buf[px(13, 2)], FADER_BASE + 4);
    assert_eq!(buf[px(1, 21)], DISPLAY_SINE_BASE + 3);
    assert_eq!(buf[px(1, 0)], BLACK);
}

#[test]
fn panel_with_natural_note_and_controls() {
    let sprites = panel_sprites();
    let mut state = State::new();
    state.toggle_lpf();
    state.increase_filter_cutoff();
    state.increase_filter_cutoff();
    state.increase_octave();
    state.toggle_waveform();
    assert_eq!(handle_key_presses(&mut state, &vec![Key::R]), Some(Note::F));
    let mut buf = vec![BLACK; WINDOW_WIDTH * 30];
    update_buffer_with_state(&state, &sprites, &mut buf, 0, 5);
    assert_eq!(buf[px(4, 2)], KEY_PRESSED_C);
    assert_eq!(buf[px(5, 2)], TANGENT_IDLE_C);
    assert_eq!(buf[px(6, 0)], KNOB_BASE + 2);
    assert_eq!(buf[px(13, 2)], FADER_BASE + 5);
    assert_eq!(buf[px(1, 21)], DISPLAY_SQUARE_BASE + 5);
    assert_eq!(buf[px(1, 0)], NOTE_BASE + NOTE_F as u32);
    assert_eq!(buf[px(1, 1)], NOTE_BASE + NOTE_F as u32);
    assert_eq!(buf[px(1, 2)], KEY_IDLE_C);
}

#[test]
fn panel_with_sharp_note_presses_its_tangent() {
    let sprites = panel_sprites();
    let mut state = State::new();
    assert_eq!(handle_key_presses(&mut state, &vec![Key::Key5]), Some(Note::FSharp));
    let mut buf = vec![BLACK; WINDOW_WIDTH * 30];
    update_buffer_with_state(&state, &sprites, &mut buf, 0, 0);
    assert_eq!(buf[px(4, 2)], KEY_IDLE_C);
    assert_eq!(buf[px(5, 2)], TANGENT_PRESSED_C);
    assert_eq!(buf[px(6, 2)], TANGENT_IDLE_C);
    assert_eq!(buf[px(1, 0)], NOTE_BASE + NOTE_F_SHARP as u32);
}
