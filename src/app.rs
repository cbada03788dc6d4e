use vstd::prelude::*;

use crate::buzzer::{BuzzerCommand, BuzzerState};
use crate::config::{Color, Config, DEFAULT_SPEED, MAX_SPEED};
use crate::cpu::{steps, Cpu, DISPLAY_DATA_LEN};
use crate::overlay::{draw_rect, draw_sprite, draw_text, rect_spec, sprite_spec, text_spec};
use crate::text::{decimal, decimal_spec};
use crate::ui::Ui;

verus! {

/// Frames during which the speed message stays on screen.
pub const SPEED_MSG_FRAMES: u8 = 30;

/// The host keys the front end reacts to.
#[derive(Clone, Copy, Debug, PartialEq, Eq, Structural)]
pub enum HostKey {
    Digit0,
    Digit1,
    Digit2,
    Digit3,
    Digit4,
    KeyQ,
    KeyW,
    KeyE,
    KeyR,
    KeyA,
    KeyS,
    KeyD,
    KeyF,
    KeyZ,
    KeyX,
    KeyC,
    KeyV,
    KeyM,
    BracketLeft,
    BracketRight,
    Equal,
    NumpadAdd,
    Minus,
    NumpadSubtract,
    Escape,
    Space,
    Enter,
    Other,
}

/// The keypad key a host key stands for: the left block of a QWERTY
/// keyboard, row by row, is the 4x4 hex keypad.
pub open spec fn key_to_btn_spec(key: HostKey) -> Option<u8> {
    match key {
        HostKey::Digit1 => Some(0x1u8),
        HostKey::Digit2 => Some(0x2u8),
        HostKey::Digit3 => Some(0x3u8),
        HostKey::Digit4 => Some(0xCu8),
        HostKey::KeyQ => Some(0x4u8),
        HostKey::KeyW => Some(0x5u8),
        HostKey::KeyE => Some(0x6u8),
        HostKey::KeyR => Some(0xDu8),
        HostKey::KeyA => Some(0x7u8),
        HostKey::KeyS => Some(0x8u8),
        HostKey::KeyD => Some(0x9u8),
        HostKey::KeyF => Some(0xEu8),
        HostKey::KeyZ => Some(0xAu8),
        HostKey::KeyX => Some(0x0u8),
        HostKey::KeyC => Some(0xBu8),
        HostKey::KeyV => Some(0xFu8),
        _ => None,
    }
}

/// The keypad key a host key stands for.
pub fn key_to_btn(key: HostKey) -> (r: Option<u8>)
    ensures
        r == key_to_btn_spec(key),
        r matches Some(b) ==> b < 16,
{
    match key {
        HostKey::Digit1 => Some(0x1),
        HostKey::Digit2 => Some(0x2),
        HostKey::Digit3 => Some(0x3),
        HostKey::Digit4 => Some(0xC),
        HostKey::KeyQ => Some(0x4),
        HostKey::KeyW => Some(0x5),
        HostKey::KeyE => Some(0x6),
        HostKey::KeyR => Some(0xD),
        HostKey::KeyA => Some(0x7),
        HostKey::KeyS => Some(0x8),
        HostKey::KeyD => Some(0x9),
        HostKey::KeyF => Some(0xE),
        HostKey::KeyZ => Some(0xA),
        HostKey::KeyX => Some(0x0),
        HostKey::KeyC => Some(0xB),
        HostKey::KeyV => Some(0xF),
        _ => None,
    }
}

/// Speed kept between 1 and `MAX_SPEED`.
pub open spec fn clamp_speed(speed: int) -> u16 {
    if speed < 1 {
        1
    } else if speed > MAX_SPEED {
        MAX_SPEED
    } else {
        speed as u16
    }
}

/// `speed N`, as ASCII.
pub open spec fn speed_text_spec(speed: u16) -> Seq<u8> {
    seq![115u8, 112, 101, 101, 100, 32] + decimal_spec(speed as nat)
}

/// `paused`, as ASCII.
pub open spec fn paused_text_spec() -> Seq<u8> {
    seq![112u8, 97, 117, 115, 101, 100]
}

/// The fast-forward sign, `>>`.
pub open spec fn fastforward_sprite_spec() -> Seq<u8> {
    seq![0x90u8, 0xD8, 0x90]
}

/// The overlay for one frame: a speed bar at the top while the speed
/// message is shown, a pause bar at the bottom while paused, and a
/// fast-forward sign in the bottom-right corner while fast-forwarding.
pub open spec fn overlay_spec(show_speed: bool, speed: u16, paused: bool, fastforward: bool, font: Seq<u8>) -> Seq<
    Option<bool>,
> {
    let s0 = Seq::new(DISPLAY_DATA_LEN as nat, |k: int| None::<bool>);
    let s1 = if show_speed {
        text_spec(rect_spec(rect_spec(s0, 0, 0, 64, 7, true), 0, 7, 64, 1, false), speed_text_spec(speed), 1, 1, false, font, 0)
    } else {
        s0
    };
    let s2 = if paused {
        text_spec(rect_spec(rect_spec(s1, 0, 24, 64, 1, false), 0, 25, 64, 7, true), paused_text_spec(), 1, 26, false, font, 0)
    } else {
        s1
    };
    if fastforward {
        sprite_spec(rect_spec(rect_spec(s2, 55, 25, 9, 7, false), 56, 26, 7, 5, true), fastforward_sprite_spec(), 57, 27, false)
    } else {
        s2
    }
}

/// Whether a cell shows lit: the overlay where it has a value, else the
/// machine's pixel.
pub open spec fn shown(overlay: Option<bool>, pixel: bool) -> bool {
    match overlay {
        Some(b) => b,
        None => pixel,
    }
}

/// The front end's state: settings, machine, buzzer and overlay flags.
pub struct App {
    pub config: Config,
    pub cpu: Cpu,
    pub buzzer: Option<BuzzerState>,
    pub ui: Ui,
    pub is_paused: bool,
    pub is_fastforward: bool,
    /// Overlay drawn above the machine's display: `Some(on)` hides the
    /// machine pixel under it.
    pub screen: [Option<bool>; DISPLAY_DATA_LEN],
}

impl App {
    pub open spec fn wf(&self) -> bool {
        self.config.wf() && self.cpu.wf()
    }

    /// Running, not fast-forwarding, no message.
    pub fn new(config: Config, cpu: Cpu, buzzer: Option<BuzzerState>) -> (r: App)
        ensures
            r.config == config,
            r.cpu == cpu,
            r.buzzer == buzzer,
            r.ui.speed_msg_timer == 0,
            !r.is_paused,
            !r.is_fastforward,
            forall|k: int| 0 <= k < DISPLAY_DATA_LEN ==> r.screen@[k] is None,
    {
        App {
            config,
            cpu,
            buzzer,
            ui: Ui::new(),
            is_paused: false,
            is_fastforward: false,
            screen: [None; DISPLAY_DATA_LEN],
        }
    }

    /// Sets the speed, clamped to 1..=`MAX_SPEED`, and shows it.
    pub fn set_speed(&mut self, speed: u16)
        requires
            old(self).wf(),
        ensures
            final(self).wf(),
            final(self).config.speed == clamp_speed(speed as int),
            final(self).config.palettes@ == old(self).config.palettes@,
            final(self).ui.speed_msg_timer == SPEED_MSG_FRAMES,
            final(self).cpu == old(self).cpu,
            final(self).buzzer == old(self).buzzer,
            final(self).is_paused == old(self).is_paused,
            final(self).is_fastforward == old(self).is_fastforward,
    {
        self.config.speed = if speed < 1 {
            1
        } else if speed > MAX_SPEED {
            MAX_SPEED
        } else {
            speed
        };
        self.ui.speed_msg_timer = SPEED_MSG_FRAMES;
    }

    /// One more instruction per frame.
    pub fn increase_speed(&mut self)
        requires
            old(self).wf(),
        ensures
            final(self).wf(),
            final(self).config.speed == clamp_speed(old(self).config.speed + 1),
            final(self).ui.speed_msg_timer == SPEED_MSG_FRAMES,
    {
        let s = self.config.speed.saturating_add(1);
        self.set_speed(s);
    }

    /// One instruction less per frame.
    pub fn decrease_speed(&mut self)
        requires
            old(self).wf(),
        ensures
            final(self).wf(),
            final(self).config.speed == clamp_speed(old(self).config.speed - 1),
            final(self).ui.speed_msg_timer == SPEED_MSG_FRAMES,
    {
        let s = self.config.speed.saturating_sub(1);
        self.set_speed(s);
    }

    /// Turns the tone on or off, if there is a buzzer.
    pub fn buzzer_set_playing(&mut self, state: bool) -> (r: BuzzerCommand)
        ensures
            old(self).buzzer is None ==> r == BuzzerCommand::Keep && final(self).buzzer is None,
            old(self).buzzer matches Some(b) ==> final(self).buzzer == Some(b.playing_spec(state).0) && r
                == b.playing_spec(state).1,
            final(self).config == old(self).config,
            final(self).cpu == old(self).cpu,
            final(self).is_paused == old(self).is_paused,
            final(self).is_fastforward == old(self).is_fastforward,
            final(self).ui == old(self).ui,
    {
        match &mut self.buzzer {
            Some(b) => b.set_playing(state),
            None => BuzzerCommand::Keep,
        }
    }

    /// Mutes an unmuted buzzer and unmutes a muted one.
    pub fn buzzer_toggle_mute(&mut self) -> (r: BuzzerCommand)
        ensures
            old(self).buzzer is None ==> r == BuzzerCommand::Keep && final(self).buzzer is None,
            old(self).buzzer matches Some(b) ==> final(self).buzzer == Some(b.muted_spec(!b.muted).0) && r
                == b.muted_spec(!b.muted).1,
            final(self).config == old(self).config,
            final(self).cpu == old(self).cpu,
            final(self).is_paused == old(self).is_paused,
            final(self).is_fastforward == old(self).is_fastforward,
            final(self).ui == old(self).ui,
    {
        match &mut self.buzzer {
            Some(b) => {
                let m = !b.muted;
                b.set_muted(m)
            },
            None => BuzzerCommand::Keep,
        }
    }

    /// Instruction batches per frame: two while fast-forwarding, else one.
    pub fn cycles_per_frame(&self) -> (r: u32)
        ensures
            r == (if self.is_fastforward { 2u32 } else { 1u32 }),
    {
        if self.is_fastforward { 2 } else { 1 }
    }

    /// One batch: `config.speed` steps, then one timer tick.
    pub fn run_cycle(&mut self)
        requires
            old(self).wf(),
        ensures
            final(self).wf(),
            final(self).cpu@ == steps(old(self).cpu@, old(self).config.speed as nat).timers_ticked(),
            final(self).config == old(self).config,
            final(self).buzzer == old(self).buzzer,
            final(self).ui == old(self).ui,
            final(self).is_paused == old(self).is_paused,
            final(self).is_fastforward == old(self).is_fastforward,
    {
        let n = self.config.speed;
        let mut k: u16 = 0;
        while k < n
            invariant
                k <= n,
                n == old(self).config.speed,
                self.cpu.wf(),
                self.cpu@ == steps(old(self).cpu@, k as nat),
                self.config == old(self).config,
                self.config.wf(),
                self.buzzer == old(self).buzzer,
                self.ui == old(self).ui,
                self.is_paused == old(self).is_paused,
                self.is_fastforward == old(self).is_fastforward,
            decreases n - k,
        {
            self.cpu.step();
            k += 1;
        }
        self.cpu.step_timers();
    }

    /// Reacts to a host key going down (`pressed`) or up: palette, speed,
    /// mute, pause, fast-forward and restart keys, then the keypad.
    /// Returns what the audio device has to do.
    pub fn handle_key(&mut self, key: HostKey, pressed: bool) -> (r: BuzzerCommand)
        requires
            old(self).wf(),
            pressed && key == HostKey::BracketRight ==> old(self).config.palettes@.len() >= 2,
        ensures
            final(self).wf(),
            pressed && key == HostKey::Escape ==> final(self).is_paused == !old(self).is_paused,
            key == HostKey::Space ==> final(self).is_fastforward == pressed,
            pressed && key == HostKey::Digit0 ==> final(self).config.speed == DEFAULT_SPEED,
            pressed && key == HostKey::Enter && old(self).is_paused ==> !final(self).is_paused
                && final(self).cpu@ == old(self).cpu@.restarted(),
            key_to_btn_spec(key) matches Some(b) ==> final(self).cpu@ == (if pressed {
                old(self).cpu@.pressed(b)
            } else {
                old(self).cpu@.released(b)
            }),
            key != HostKey::KeyM || !pressed ==> r == BuzzerCommand::Keep,
            pressed && key == HostKey::KeyM ==> (old(self).buzzer matches Some(b) ==> final(self).buzzer == Some(
                b.muted_spec(!b.muted).0,
            ) && r == b.muted_spec(!b.muted).1),
            pressed && (key == HostKey::Equal || key == HostKey::NumpadAdd) ==> final(self).config.speed
                == clamp_speed(old(self).config.speed + 1),
            pressed && (key == HostKey::Minus || key == HostKey::NumpadSubtract) ==> final(self).config.speed
                == clamp_speed(old(self).config.speed - 1),
            pressed && key == HostKey::BracketRight ==> final(self).config.cur_palette_index == (
            old(self).config.cur_palette_index + 1) % (old(self).config.palettes@.len() - 1) as int,
            pressed && key == HostKey::BracketLeft ==> final(self).config.cur_palette_index == (if old(
                self,
            ).config.cur_palette_index == 0 {
                old(self).config.palettes@.len() - 1
            } else {
                old(self).config.cur_palette_index - 1
            }),
    {
        let mut command = BuzzerCommand::Keep;
        if pressed {
            match key {
                HostKey::BracketRight => self.config.next_palette(),
                HostKey::BracketLeft => self.config.prev_palette(),
                HostKey::Digit0 => self.set_speed(DEFAULT_SPEED),
                HostKey::Equal | HostKey::NumpadAdd => self.increase_speed(),
                HostKey::Minus | HostKey::NumpadSubtract => self.decrease_speed(),
                HostKey::KeyM => command = self.buzzer_toggle_mute(),
                HostKey::Escape => self.is_paused = !self.is_paused,
                HostKey::Space => self.is_fastforward = true,
                HostKey::Enter => {
                    if self.is_paused {
                        self.cpu.restart();
                        self.is_paused = false;
                    }
                },
                _ => {},
            }
        } else {
            if key == HostKey::Space {
                self.is_fastforward = false;
            }
        }
        match key_to_btn(key) {
            Some(code) => {
                if pressed {
                    self.cpu.button_pressed(code);
                } else {
                    self.cpu.button_released(code);
                }
            },
            None => {},
        }
        command
    }
}

impl App {
    /// Redraws the overlay for this frame, writing text with the 5-row
    /// glyphs of `font`; the speed message counts down one frame.
    pub fn draw_ui(&mut self, font: &[u8])
        ensures
            final(self).screen@ == overlay_spec(
                old(self).ui.speed_msg_timer > 0,
                old(self).config.speed,
                old(self).is_paused,
                old(self).is_fastforward,
                font@,
            ),
            final(self).ui.speed_msg_timer == (if old(self).ui.speed_msg_timer > 0 {
                old(self).ui.speed_msg_timer - 1
            } else {
                0
            }),
            final(self).config == old(self).config,
            final(self).cpu == old(self).cpu,
            final(self).buzzer == old(self).buzzer,
            final(self).is_paused == old(self).is_paused,
            final(self).is_fastforward == old(self).is_fastforward,
    {
        let mut k: usize = 0;
        while k < DISPLAY_DATA_LEN
            invariant
                k <= DISPLAY_DATA_LEN,
                self.screen@.len() == DISPLAY_DATA_LEN,
                forall|j: int| 0 <= j < k ==> self.screen@[j] is None,
                self.ui == old(self).ui,
                self.config == old(self).config,
                self.cpu == old(self).cpu,
                self.buzzer == old(self).buzzer,
                self.is_paused == old(self).is_paused,
                self.is_fastforward == old(self).is_fastforward,
            decreases DISPLAY_DATA_LEN - k,
        {
            self.screen[k] = None;
            k += 1;
        }
        assert(self.screen@ =~= Seq::new(DISPLAY_DATA_LEN as nat, |k: int| None::<bool>));
        if self.ui.speed_msg_timer > 0 {
            draw_rect(&mut self.screen, 0, 0, 64, 7, true);
            draw_rect(&mut self.screen, 0, 7, 64, 1, false);
            let mut text: Vec<u8> = vec![115, 112, 101, 101, 100, 32];
            let mut digits = decimal(self.config.speed);
            text.append(&mut digits);
            assert(text@ =~= speed_text_spec(self.config.speed));
            draw_text(&mut self.screen, text.as_slice(), 1, 1, false, font);
            self.ui.speed_msg_timer = self.ui.speed_msg_timer - 1;
        }
        if self.is_paused {
            draw_rect(&mut self.screen, 0, 24, 64, 1, false);
            draw_rect(&mut self.screen, 0, 25, 64, 7, true);
            let text: Vec<u8> = vec![112, 97, 117, 115, 101, 100];
            assert(text@ =~= paused_text_spec());
            draw_text(&mut self.screen, text.as_slice(), 1, 26, false, font);
        }
        if self.is_fastforward {
            draw_rect(&mut self.screen, 55, 25, 9, 7, false);
            draw_rect(&mut self.screen, 56, 26, 7, 5, true);
            let sign: Vec<u8> = vec![0x90, 0xD8, 0x90];
            assert(sign@ =~= fastforward_sprite_spec());
            draw_sprite(&mut self.screen, sign.as_slice(), 57, 27, false);
        }
    }

    /// The frame as RGBA bytes, row-major: lit cells in the palette's
    /// foreground, others in its background, all opaque.
    pub fn render_rgba(&self) -> (r: Vec<u8>)
        ensures
            r@.len() == 4 * DISPLAY_DATA_LEN,
            forall|i: int|
                0 <= i < DISPLAY_DATA_LEN ==> {
                    let c = if shown(self.screen@[i], self.cpu@.display[i]) {
                        self.config.palette.0
                    } else {
                        self.config.palette.1
                    };
                    &&& #[trigger] r@[4 * i] == c.0
                    &&& r@[4 * i + 1] == c.1
                    &&& r@[4 * i + 2] == c.2
                    &&& r@[4 * i + 3] == 255
                },
    {
        let mut r: Vec<u8> = Vec::new();
        let mut i: usize = 0;
        while i < DISPLAY_DATA_LEN
            invariant
                i <= DISPLAY_DATA_LEN,
                r@.len() == 4 * i,
                forall|j: int|
                    0 <= j < i ==> {
                        let c = if shown(self.screen@[j], self.cpu@.display[j]) {
                            self.config.palette.0
                        } else {
                            self.config.palette.1
                        };
                        &&& #[trigger] r@[4 * j] == c.0
                        &&& r@[4 * j + 1] == c.1
                        &&& r@[4 * j + 2] == c.2
                        &&& r@[4 * j + 3] == 255
                    },
            decreases DISPLAY_DATA_LEN - i,
        {
            let pixel = match self.screen[i] {
                Some(b) => b,
                None => self.cpu.pixel(i),
            };
            let color: Color = if pixel { *self.config.fg() } else { *self.config.bg() };
            let ghost before = r@;
            r.push(color.0);
            r.push(color.1);
            r.push(color.2);
            r.push(255);
            assert(forall|j: int| 0 <= j < 4 * i ==> r@[j] == before[j]);
            i += 1;
        }
        r
    }
}

} // verus!
