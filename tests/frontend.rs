use pitch1002::app::{key_to_btn, App, HostKey, SPEED_MSG_FRAMES};
use pitch1002::buzzer::{BuzzerCommand, BuzzerError, BuzzerState};
use pitch1002::cli::{parse_palettes, Cli, CliAction, CliError};
use pitch1002::config::{color_hex, default_palettes, Color, Config, DrawStrategy, DEFAULT_SPEED, MAX_SPEED};
use pitch1002::cpu::Cpu;
use pitch1002::text::{parse_u16, str_eq};
use pitch1002::ui::Ui;

fn args(list: &[&str]) -> Vec<String> {
    list.iter().map(|s| s.to_string()).collect()
}

fn run(list: &[&str]) -> Cli {
    match Cli::parse(&args(list)) {
        Ok(CliAction::Run(cli)) => cli,
        other => panic!("expected settings, got {:?}", other.err()),
    }
}

fn err(list: &[&str]) -> CliError {
    match Cli::parse(&args(list)) {
        Err(e) => e,
        Ok(_) => panic!("expected an error"),
    }
}

fn default_app() -> App {
    let config = Config::new(run(&[]));
    App::new(config, Cpu::default(), Some(BuzzerState::new()))
}

#[test]
fn color_from_long_hex() {
    assert_eq!(Color::from_hex_str("#0d2b45"), Some(Color(0x0d, 0x2b, 0x45)));
    assert_eq!(Color::from_hex_str("#FFD4A3"), Some(Color(0xff, 0xd4, 0xa3)));
}

#[test]
fn color_from_short_hex_doubles_digits() {
    assert_eq!(Color::from_hex_str("#f0a"), Some(Color(0xff, 0x00, 0xaa)));
}

#[test]
fn color_rejects_malformed() {
    assert_eq!(Color::from_hex_str("fff"), None);
    assert_eq!(Color::from_hex_str("#ffff"), None);
    assert_eq!(Color::from_hex_str("#gggggg"), None);
    assert_eq!(Color::from_hex_str("#"), None);
    assert_eq!(Color::from_hex_str(""), None);
    assert_eq!(Color::from_hex_str("#ffé"), None);
}

#[test]
fn color_accepts_plus_before_single_digit() {
    assert_eq!(Color::from_hex_str("#+f0000"), Some(Color(0x0f, 0x00, 0x00)));
    assert_eq!(Color::from_hex_str("#+00"), None);
}

#[test]
fn color_hex_splits_channels() {
    assert_eq!(color_hex(0xd2b7ff), Color(0xd2, 0xb7, 0xff));
}

#[test]
fn default_palettes_list() {
    let p = default_palettes();
    assert_eq!(p.len(), 15);
    assert_eq!(p[0], (Color(0xdd, 0xdd, 0xdd), Color(0, 0, 0)));
    assert_eq!(p[14], (Color(0xd8, 0xbf, 0xd8), Color(0x74, 0x56, 0x9b)));
}

#[test]
fn parse_u16_like_std() {
    assert_eq!(parse_u16("20"), Some(20));
    assert_eq!(parse_u16("+7"), Some(7));
    assert_eq!(parse_u16("65535"), Some(65535));
    assert_eq!(parse_u16("65536"), None);
    assert_eq!(parse_u16("999999999999"), None);
    assert_eq!(parse_u16(""), None);
    assert_eq!(parse_u16("+"), None);
    assert_eq!(parse_u16("-1"), None);
    assert_eq!(parse_u16("1x"), None);
    for s in ["0", "1", "00042", "40000"] {
        assert_eq!(parse_u16(s), s.parse::<u16>().ok());
    }
}

#[test]
fn str_eq_compares_characters() {
    assert!(str_eq("--mute", "--mute"));
    assert!(!str_eq("--mute", "--mut"));
    assert!(!str_eq("ab", "ba"));
}

#[test]
fn cli_defaults() {
    let cli = run(&[]);
    assert!(cli.game_path.is_none());
    assert!(cli.palettes.is_none());
    assert_eq!(cli.speed, None);
    assert!(!cli.mute);
    assert_eq!(cli.draw_strategy, DrawStrategy::Frame);
}

#[test]
fn cli_reads_options_and_last_path() {
    let cli = run(&["a.ch8", "--speed", "35", "--mute", "--draw-on-step", "games/"]);
    assert_eq!(cli.game_path.as_deref(), Some("games/"));
    assert_eq!(cli.speed, Some(35));
    assert!(cli.mute);
    assert_eq!(cli.draw_strategy, DrawStrategy::Step);
}

#[test]
fn cli_reads_palettes() {
    let cli = run(&["-p", "#fff,#000;#e0f8d0,#081820"]);
    let p = cli.palettes.unwrap();
    assert_eq!(p.len(), 2);
    assert_eq!(p[0], (Color(255, 255, 255), Color(0, 0, 0)));
    assert_eq!(p[1], (Color(0xe0, 0xf8, 0xd0), Color(0x08, 0x18, 0x20)));
}

#[test]
fn palette_errors() {
    match parse_palettes("#fff", "--palettes") {
        Err(CliError::InvalidArg(a)) => assert_eq!(a, "--palettes"),
        _ => panic!(),
    }
    match parse_palettes("#fff,#000;#zzz,#000", "-p") {
        Err(CliError::InvalidColor(c)) => assert_eq!(c, "#zzz"),
        _ => panic!(),
    }
    match parse_palettes("#fff,#000,#111", "-p") {
        Err(CliError::InvalidColor(c)) => assert_eq!(c, "#000,#111"),
        _ => panic!(),
    }
}

#[test]
fn cli_actions() {
    assert!(matches!(Cli::parse(&args(&["--help"])), Ok(CliAction::Help)));
    assert!(matches!(Cli::parse(&args(&["help", "--bogus"])), Ok(CliAction::Help)));
    assert!(matches!(Cli::parse(&args(&["-b"])), Ok(CliAction::Version)));
    assert!(matches!(Cli::parse(&args(&["--hello"])), Ok(CliAction::Hello)));
}

#[test]
fn cli_errors() {
    match err(&["--speed"]) {
        CliError::NoArgValue(a) => assert_eq!(a, "--speed"),
        _ => panic!(),
    }
    match err(&["-s", "fast"]) {
        CliError::InvalidValue(v) => assert_eq!(v, "fast"),
        _ => panic!(),
    }
    assert!(matches!(err(&["-s", "0"]), CliError::NonZeroSpeed));
    match err(&["--frobnicate"]) {
        CliError::NoSuchArg(a) => assert_eq!(a, "--frobnicate"),
        _ => panic!(),
    }
    match err(&["--palettes", "#fff"]) {
        CliError::InvalidArg(a) => assert_eq!(a, "--palettes"),
        _ => panic!(),
    }
}

#[test]
fn config_from_cli() {
    let config = Config::new(run(&["-s", "7", "-p", "#123,#456"]));
    assert_eq!(config.speed, 7);
    assert_eq!(config.palettes.len(), 1);
    assert_eq!(*config.fg(), Color(0x11, 0x22, 0x33));
    assert_eq!(*config.bg(), Color(0x44, 0x55, 0x66));
    let config = Config::new(run(&[]));
    assert_eq!(config.speed, DEFAULT_SPEED);
    assert_eq!(config.palettes.len(), 15);
    assert_eq!(config.cur_palette_index, 0);
}

#[test]
fn palette_cycling() {
    let mut config = Config::new(run(&[]));
    config.prev_palette();
    assert_eq!(config.cur_palette_index, 14);
    assert_eq!(config.palette, config.palettes[14]);
    config.next_palette();
    assert_eq!(config.cur_palette_index, 1);
    config.next_palette();
    assert_eq!(config.cur_palette_index, 2);
    config.prev_palette();
    config.prev_palette();
    assert_eq!(config.cur_palette_index, 0);
    for _ in 0..13 {
        config.next_palette();
    }
    assert_eq!(config.cur_palette_index, 13);
    config.next_palette();
    assert_eq!(config.cur_palette_index, 0);
    assert_eq!(*config.fg(), config.palettes[0].0);
}

#[test]
fn ui_starts_without_message() {
    assert_eq!(Ui::new().speed_msg_timer, 0);
}

#[test]
fn buzzer_plays_builds_once_and_pauses() {
    let mut b = BuzzerState::new();
    assert_eq!(b.set_playing(false), BuzzerCommand::Keep);
    assert_eq!(b.set_playing(true), BuzzerCommand::Play { build_stream: true });
    assert_eq!(b.set_playing(true), BuzzerCommand::Keep);
    assert_eq!(b.set_playing(false), BuzzerCommand::Pause);
    assert_eq!(b.set_playing(true), BuzzerCommand::Play { build_stream: false });
}

#[test]
fn muted_buzzer_stays_silent() {
    let mut b = BuzzerState::new();
    b.set_playing(true);
    assert_eq!(b.set_muted(true), BuzzerCommand::Pause);
    assert!(!b.playing);
    assert_eq!(b.set_playing(true), BuzzerCommand::Keep);
    assert_eq!(b.set_muted(false), BuzzerCommand::Keep);
    assert_eq!(b.set_playing(true), BuzzerCommand::Play { build_stream: false });
}

#[test]
fn buzzer_error_messages() {
    assert_eq!(BuzzerError::NoOutputDevice.message(), "No output device was found");
    assert_eq!(BuzzerError::NoAvaliableConfigs.message(), "Unable to fetch a stream config");
}

#[test]
fn keypad_layout() {
    assert_eq!(key_to_btn(HostKey::Digit1), Some(0x1));
    assert_eq!(key_to_btn(HostKey::Digit4), Some(0xC));
    assert_eq!(key_to_btn(HostKey::KeyX), Some(0x0));
    assert_eq!(key_to_btn(HostKey::KeyV), Some(0xF));
    assert_eq!(key_to_btn(HostKey::Digit0), None);
    assert_eq!(key_to_btn(HostKey::Space), None);
}

#[test]
fn speed_is_clamped_and_shown() {
    let mut app = default_app();
    app.set_speed(0);
    assert_eq!(app.config.speed, 1);
    assert_eq!(app.ui.speed_msg_timer, SPEED_MSG_FRAMES);
    app.decrease_speed();
    assert_eq!(app.config.speed, 1);
    app.set_speed(65535);
    assert_eq!(app.config.speed, MAX_SPEED);
    app.increase_speed();
    assert_eq!(app.config.speed, MAX_SPEED);
    app.set_speed(20);
    app.increase_speed();
    assert_eq!(app.config.speed, 21);
}

#[test]
fn keys_drive_app_and_keypad() {
    let mut app = default_app();
    app.handle_key(HostKey::Escape, true);
    assert!(app.is_paused);
    app.handle_key(HostKey::Space, true);
    assert!(app.is_fastforward);
    assert_eq!(app.cycles_per_frame(), 2);
    app.handle_key(HostKey::Space, false);
    assert!(!app.is_fastforward);
    app.handle_key(HostKey::Equal, true);
    assert_eq!(app.config.speed, DEFAULT_SPEED + 1);
    app.handle_key(HostKey::Digit0, true);
    assert_eq!(app.config.speed, DEFAULT_SPEED);
    assert_eq!(app.handle_key(HostKey::KeyM, true), BuzzerCommand::Keep);
    assert!(app.buzzer.unwrap().muted);
    app.handle_key(HostKey::BracketRight, true);
    assert_eq!(app.config.cur_palette_index, 1);
    app.handle_key(HostKey::Enter, true);
    assert!(!app.is_paused);
}

#[test]
fn keypad_key_reaches_cpu() {
    let mut app = default_app();
    app.cpu.set(1, 0x5);
    app.handle_key(HostKey::KeyW, true);
    app.cpu.skip_pressed(1);
    assert_eq!(app.cpu.pc(), 0x202);
    app.handle_key(HostKey::KeyW, false);
    app.cpu.skip_pressed(1);
    assert_eq!(app.cpu.pc(), 0x202);
}

#[test]
fn run_cycle_steps_then_ticks() {
    let mut app = default_app();
    // V0 += 1, forever
    app.cpu.load(&[0x70, 0x01, 0x12, 0x00]).unwrap();
    app.cpu.set(1, 3);
    app.cpu.execute(0xF115);
    app.set_speed(10);
    app.run_cycle();
    assert_eq!(app.cpu.get(0), 5);
    assert_eq!(app.cpu.delay_timer(), 2);
    assert_eq!(app.buzzer_set_playing(app.cpu.st > 0), BuzzerCommand::Keep);
}
