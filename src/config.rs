use vstd::prelude::*;
use vstd::string::*;
use vstd::utf8::is_ascii_chars;

use crate::cli::Cli;

verus! {

/// Largest number of instructions per frame.
pub const MAX_SPEED: u16 = 40000;
/// Instructions per frame unless configured otherwise.
pub const DEFAULT_SPEED: u16 = 20;

/// An RGB color.
#[derive(Clone, Copy, Debug, PartialEq, Eq, Structural)]
pub struct Color(pub u8, pub u8, pub u8);

/// (foreground, background)
pub type Palette = (Color, Color);

/// The value of a hexadecimal digit, either case.
pub open spec fn hex_digit_spec(c: char) -> Option<u8> {
    if '0' <= c && c <= '9' {
        Some((c as u32 - '0' as u32) as u8)
    } else if 'a' <= c && c <= 'f' {
        Some((c as u32 - 'a' as u32 + 10) as u8)
    } else if 'A' <= c && c <= 'F' {
        Some((c as u32 - 'A' as u32 + 10) as u8)
    } else {
        None
    }
}

/// The byte that two characters spell in hexadecimal. As in
/// `u8::from_str_radix`, a leading `+` sign is accepted before a single digit.
pub open spec fn hex_byte_spec(hi: char, lo: char) -> Option<u8> {
    if hi == '+' {
        hex_digit_spec(lo)
    } else {
        match (hex_digit_spec(hi), hex_digit_spec(lo)) {
            (Some(h), Some(l)) => Some((h * 16 + l) as u8),
            _ => None,
        }
    }
}

/// Three optional channels make a color when all are present.
pub open spec fn color_of(r: Option<u8>, g: Option<u8>, b: Option<u8>) -> Option<Color> {
    match (r, g, b) {
        (Some(r), Some(g), Some(b)) => Some(Color(r, g, b)),
        _ => None,
    }
}

/// `#RGB` (each digit doubled) or `#RRGGBB`, ASCII only.
pub open spec fn color_from_hex_spec(s: Seq<char>) -> Option<Color> {
    if s.len() == 0 || s[0] != '#' {
        None
    } else {
        let h = s.drop_first();
        if !is_ascii_chars(h) {
            None
        } else if h.len() == 3 {
            color_of(hex_byte_spec(h[0], h[0]), hex_byte_spec(h[1], h[1]), hex_byte_spec(h[2], h[2]))
        } else if h.len() == 6 {
            color_of(hex_byte_spec(h[0], h[1]), hex_byte_spec(h[2], h[3]), hex_byte_spec(h[4], h[5]))
        } else {
            None
        }
    }
}

/// The color written as `0xRRGGBB`.
pub open spec fn color_hex_spec(hex: u32) -> Color {
    Color(((hex / 0x10000) % 0x100) as u8, ((hex / 0x100) % 0x100) as u8, (hex % 0x100) as u8)
}

fn hex_digit(c: char) -> (r: Option<u8>)
    ensures
        r == hex_digit_spec(c),
{
    if '0' <= c && c <= '9' {
        Some((c as u32 - '0' as u32) as u8)
    } else if 'a' <= c && c <= 'f' {
        Some((c as u32 - 'a' as u32 + 10) as u8)
    } else if 'A' <= c && c <= 'F' {
        Some((c as u32 - 'A' as u32 + 10) as u8)
    } else {
        None
    }
}

fn hex_byte(hi: char, lo: char) -> (r: Option<u8>)
    ensures
        r == hex_byte_spec(hi, lo),
{
    if hi == '+' {
        return hex_digit(lo);
    }
    match (hex_digit(hi), hex_digit(lo)) {
        (Some(h), Some(l)) => Some(h * 16 + l),
        _ => None,
    }
}

/// The color written as `0xRRGGBB`.
pub fn color_hex(hex: u32) -> (r: Color)
    ensures
        r == color_hex_spec(hex),
{
    Color(((hex / 0x10000) % 0x100) as u8, ((hex / 0x100) % 0x100) as u8, (hex % 0x100) as u8)
}

impl Color {
    /// Parses `#RGB` or `#RRGGBB`.
    pub fn from_hex_str(s: &str) -> (r: Option<Color>)
        ensures
            r == color_from_hex_spec(s@),
    {
        let len = s.unicode_len();
        if len == 0 || s.get_char(0) != '#' {
            return None;
        }
        let hex = s.substring_char(1, len);
        assert(hex@ =~= s@.drop_first());
        if !hex.is_ascii() {
            return None;
        }
        let n = len - 1;
        if n == 3 {
            let (a, b, c) = (hex.get_char(0), hex.get_char(1), hex.get_char(2));
            match (hex_byte(a, a), hex_byte(b, b), hex_byte(c, c)) {
                (Some(r), Some(g), Some(b)) => Some(Color(r, g, b)),
                _ => None,
            }
        } else if n == 6 {
            let r = hex_byte(hex.get_char(0), hex.get_char(1));
            let g = hex_byte(hex.get_char(2), hex.get_char(3));
            let b = hex_byte(hex.get_char(4), hex.get_char(5));
            match (r, g, b) {
                (Some(r), Some(g), Some(b)) => Some(Color(r, g, b)),
                _ => None,
            }
        } else {
            None
        }
    }
}

/// When the host redraws the screen.
#[derive(Clone, Copy, Debug, PartialEq, Eq, Structural)]
pub enum DrawStrategy {
    /// Once per frame.
    Frame,
    /// After every instruction step.
    Step,
}

impl Default for DrawStrategy {
    fn default() -> (r: Self)
        ensures
            r == DrawStrategy::Frame,
    {
        DrawStrategy::Frame
    }
}


/// The built-in palettes, (foreground, background) each.
pub open spec fn default_palettes_spec() -> Seq<Palette> {
    seq![
        (color_hex_spec(0xdddddd), color_hex_spec(0x000000)),
        (color_hex_spec(0xd2b7ff), color_hex_spec(0x060010)),
        (color_hex_spec(0xf0f6f0), color_hex_spec(0x222323)),
        (color_hex_spec(0xd9c8bf), color_hex_spec(0x28282e)),
        (color_hex_spec(0xc9cca1), color_hex_spec(0x515262)),
        (color_hex_spec(0xb2b47e), color_hex_spec(0x212123)),
        (color_hex_spec(0xc8d0d8), color_hex_spec(0x302828)),
        (color_hex_spec(0x4593a5), color_hex_spec(0x32313b)),
        (color_hex_spec(0xa9a77f), color_hex_spec(0x1a1b00)),
        (color_hex_spec(0xbedc7f), color_hex_spec(0x112318)),
        (color_hex_spec(0xefd8a1), color_hex_spec(0x2a1d0d)),
        (color_hex_spec(0xffd4a3), color_hex_spec(0x0d2b45)),
        (color_hex_spec(0xee8695), color_hex_spec(0x292831)),
        (color_hex_spec(0xe2f3e4), color_hex_spec(0x332c50)),
        (color_hex_spec(0xd8bfd8), color_hex_spec(0x74569b)),
    ]
}

/// The built-in palettes.
pub fn default_palettes() -> (r: Vec<Palette>)
    ensures
        r@ == default_palettes_spec(),
{
    let mut v: Vec<Palette> = Vec::new();
    v.push((color_hex(0xdddddd), color_hex(0x000000)));
    v.push((color_hex(0xd2b7ff), color_hex(0x060010)));
    v.push((color_hex(0xf0f6f0), color_hex(0x222323)));
    v.push((color_hex(0xd9c8bf), color_hex(0x28282e)));
    v.push((color_hex(0xc9cca1), color_hex(0x515262)));
    v.push((color_hex(0xb2b47e), color_hex(0x212123)));
    v.push((color_hex(0xc8d0d8), color_hex(0x302828)));
    v.push((color_hex(0x4593a5), color_hex(0x32313b)));
    v.push((color_hex(0xa9a77f), color_hex(0x1a1b00)));
    v.push((color_hex(0xbedc7f), color_hex(0x112318)));
    v.push((color_hex(0xefd8a1), color_hex(0x2a1d0d)));
    v.push((color_hex(0xffd4a3), color_hex(0x0d2b45)));
    v.push((color_hex(0xee8695), color_hex(0x292831)));
    v.push((color_hex(0xe2f3e4), color_hex(0x332c50)));
    v.push((color_hex(0xd8bfd8), color_hex(0x74569b)));
    assert(v@ =~= default_palettes_spec());
    v
}

/// Front-end settings: palettes, speed and redraw strategy.
#[derive(Debug)]
pub struct Config {
    pub palettes: Vec<Palette>,
    /// (foreground, background)
    pub palette: Palette,
    pub cur_palette_index: usize,
    /// Instructions per frame.
    pub speed: u16,
    pub draw_strategy: DrawStrategy,
}

impl Config {
    /// The current palette is the one the index names.
    pub open spec fn wf(&self) -> bool {
        &&& self.palettes@.len() > 0
        &&& self.cur_palette_index < self.palettes@.len()
        &&& self.palette == self.palettes@[self.cur_palette_index as int]
    }

    /// Settings from the command line: its palettes (or the built-in ones),
    /// the first of them current, and its speed (or `DEFAULT_SPEED`).
    pub fn new(cli: Cli) -> (r: Config)
        requires
            cli.palettes matches Some(p) ==> p@.len() > 0,
        ensures
            r.wf(),
            r.palettes@ == (match cli.palettes {
                Some(p) => p@,
                None => default_palettes_spec(),
            }),
            r.cur_palette_index == 0,
            r.speed == (match cli.speed {
                Some(s) => s,
                None => DEFAULT_SPEED,
            }),
            r.draw_strategy == cli.draw_strategy,
    {
        let palettes = match cli.palettes {
            Some(p) => p,
            None => default_palettes(),
        };
        let speed = match cli.speed {
            Some(s) => s,
            None => DEFAULT_SPEED,
        };
        Config { palette: palettes[0], palettes, cur_palette_index: 0, speed, draw_strategy: cli.draw_strategy }
    }

    /// Moves to the palette after the current one, counting modulo one less
    /// than the number of palettes.
    pub fn next_palette(&mut self)
        requires
            old(self).wf(),
            old(self).palettes@.len() >= 2,
        ensures
            final(self).wf(),
            final(self).cur_palette_index == (old(self).cur_palette_index + 1) % (old(self).palettes@.len() - 1) as int,
            final(self).palettes@ == old(self).palettes@,
            final(self).speed == old(self).speed,
            final(self).draw_strategy == old(self).draw_strategy,
    {
        let len = self.palettes.len();
        let new_index = (self.cur_palette_index + 1) % (len - 1);
        self.palette = self.palettes[new_index];
        self.cur_palette_index = new_index;
    }

    /// Moves to the palette before the current one, wrapping to the last.
    pub fn prev_palette(&mut self)
        requires
            old(self).wf(),
        ensures
            final(self).wf(),
            final(self).cur_palette_index == (if old(self).cur_palette_index == 0 {
                old(self).palettes@.len() - 1
            } else {
                old(self).cur_palette_index - 1
            }),
            final(self).palettes@ == old(self).palettes@,
            final(self).speed == old(self).speed,
            final(self).draw_strategy == old(self).draw_strategy,
    {
        let new_index = if self.cur_palette_index == 0 {
            self.palettes.len() - 1
        } else {
            self.cur_palette_index - 1
        };
        self.palette = self.palettes[new_index];
        self.cur_palette_index = new_index;
    }

    /// Foreground color of the current palette.
    pub fn fg(&self) -> (r: &Color)
        ensures
            *r == self.palette.0,
    {
        &self.palette.0
    }

    /// Background color of the current palette.
    pub fn bg(&self) -> (r: &Color)
        ensures
            *r == self.palette.1,
    {
        &self.palette.1
    }
}

} // verus!
