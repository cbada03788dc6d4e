use pitch1002::app::App;
use pitch1002::buzzer::BuzzerState;
use pitch1002::cli::{Cli, CliAction};
use pitch1002::config::{Color, Config};
use pitch1002::cpu::{Cpu, DISPLAY_DATA_LEN};
use pitch1002::overlay::{draw_rect, draw_sprite, draw_text, glyph_index};
use pitch1002::text::decimal;

fn app() -> App {
    let cli = match Cli::parse(&vec![]) {
        Ok(CliAction::Run(cli)) => cli,
        _ => panic!(),
    };
    App::new(Config::new(cli), Cpu::default(), Some(BuzzerState::new()))
}

fn blank() -> [Option<bool>; DISPLAY_DATA_LEN] {
    [None; DISPLAY_DATA_LEN]
}

#[test]
fn decimal_digits() {
    assert_eq!(decimal(0), b"0".to_vec());
    assert_eq!(decimal(7), b"7".to_vec());
    assert_eq!(decimal(20), b"20".to_vec());
    assert_eq!(decimal(40000), b"40000".to_vec());
    assert_eq!(decimal(65535), b"65535".to_vec());
}

#[test]
fn glyph_numbers() {
    assert_eq!(glyph_index(b'0'), 1);
    assert_eq!(glyph_index(b'9'), 10);
    assert_eq!(glyph_index(b'a'), 11);
    assert_eq!(glyph_index(b'z'), 36);
    assert_eq!(glyph_index(b'!'), 37);
    assert_eq!(glyph_index(b'-'), 45);
    assert_eq!(glyph_index(b'A'), 0);
}

#[test]
fn rect_fills_only_its_cells() {
    let mut s = blank();
    draw_rect(&mut s, 2, 1, 3, 2, true);
    let lit: Vec<usize> = (0..DISPLAY_DATA_LEN).filter(|k| s[*k].is_some()).collect();
    assert_eq!(lit, vec![66, 67, 68, 130, 131, 132]);
    assert_eq!(s[66], Some(true));
}

#[test]
fn sprite_sets_bits_and_wraps() {
    let mut s = blank();
    draw_sprite(&mut s, &[0x90], 62, 0, false);
    assert_eq!(s[62], Some(false));
    assert_eq!(s[1], Some(false));
    assert_eq!(s[63], None);
    assert_eq!(s[0], None);
}

#[test]
fn text_uses_font_and_skips_spaces() {
    let mut font = vec![0u8; 46 * 5];
    font[5] = 0x80; // glyph 1, the digit 0: one pixel top left
    let mut s = blank();
    draw_text(&mut s, b"0 0", 2, 3, true, &font);
    let lit: Vec<usize> = (0..DISPLAY_DATA_LEN).filter(|k| s[*k].is_some()).collect();
    assert_eq!(lit, vec![3 * 64 + 2, 3 * 64 + 12]);
}

#[test]
fn text_stops_at_missing_glyph() {
    let font = vec![0x80u8; 10];
    let mut s = blank();
    // glyph 1 exists, glyph 2 does not: drawing stops there
    draw_text(&mut s, b"010", 0, 0, true, &font);
    let lit: Vec<usize> = (0..DISPLAY_DATA_LEN).filter(|k| s[*k].is_some()).collect();
    assert_eq!(lit, vec![0, 64, 128, 192, 256]);
}

#[test]
fn ui_bars() {
    let mut a = app();
    a.is_paused = true;
    a.is_fastforward = true;
    a.set_speed(20);
    a.draw_ui(&[]);
    assert_eq!(a.ui.speed_msg_timer, 29);
    // speed bar on the top rows
    assert_eq!(a.screen[0], Some(true));
    assert_eq!(a.screen[6 * 64 + 63], Some(true));
    assert_eq!(a.screen[7 * 64], Some(false));
    assert_eq!(a.screen[8 * 64], None);
    // pause bar at the bottom
    assert_eq!(a.screen[24 * 64], Some(false));
    assert_eq!(a.screen[25 * 64], Some(true));
    // fast-forward sign: its first row 0x90 at (57, 27) is drawn off
    assert_eq!(a.screen[27 * 64 + 57], Some(false));
    assert_eq!(a.screen[27 * 64 + 58], Some(true));
    assert_eq!(a.screen[27 * 64 + 60], Some(false));
    assert_eq!(a.screen[25 * 64 + 55], Some(false));
}

#[test]
fn ui_clears_when_nothing_to_show() {
    let mut a = app();
    a.screen[5] = Some(true);
    a.draw_ui(&[]);
    assert!(a.screen.iter().all(|c| c.is_none()));
}

#[test]
fn render_combines_overlay_and_display() {
    let mut a = app();
    a.cpu.set_i_sprite(0);
    a.cpu.draw(0, 0, 1);
    a.screen[1] = Some(false);
    a.screen[100] = Some(true);
    let rgba = a.render_rgba();
    assert_eq!(rgba.len(), 4 * DISPLAY_DATA_LEN);
    let fg = Color(0xdd, 0xdd, 0xdd);
    let bg = Color(0, 0, 0);
    let px = |i: usize| (Color(rgba[4 * i], rgba[4 * i + 1], rgba[4 * i + 2]), rgba[4 * i + 3]);
    assert_eq!(px(0), (fg, 255));
    assert_eq!(px(1), (bg, 255));
    assert_eq!(px(2), (fg, 255));
    assert_eq!(px(4), (bg, 255));
    assert_eq!(px(100), (fg, 255));
}
