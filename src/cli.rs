use vstd::prelude::*;
use vstd::string::*;

use crate::config::{color_from_hex_spec, Color, DrawStrategy, Palette};
use crate::text::{find_char, find_char_spec, parse_u16, parse_u16_spec, str_eq};

verus! {

/// Why the command line was refused. Each variant carries the offending text.
#[derive(Debug)]
pub enum CliError {
    InvalidArg(String),
    InvalidValue(String),
    InvalidColor(String),
    NoSuchArg(String),
    NoArgValue(String),
    NonZeroSpeed,
}

/// `CliError` with its text as characters.
pub enum CliErrorView {
    InvalidArg(Seq<char>),
    InvalidValue(Seq<char>),
    InvalidColor(Seq<char>),
    NoSuchArg(Seq<char>),
    NoArgValue(Seq<char>),
    NonZeroSpeed,
}

impl View for CliError {
    type V = CliErrorView;

    open spec fn view(&self) -> CliErrorView {
        match self {
            CliError::InvalidArg(s) => CliErrorView::InvalidArg(s@),
            CliError::InvalidValue(s) => CliErrorView::InvalidValue(s@),
            CliError::InvalidColor(s) => CliErrorView::InvalidColor(s@),
            CliError::NoSuchArg(s) => CliErrorView::NoSuchArg(s@),
            CliError::NoArgValue(s) => CliErrorView::NoArgValue(s@),
            CliError::NonZeroSpeed => CliErrorView::NonZeroSpeed,
        }
    }
}

/// Settings read from the command line.
pub struct Cli {
    /// The last argument that is not an option: a game file or a directory
    /// of games.
    pub game_path: Option<String>,
    pub palettes: Option<Vec<Palette>>,
    pub speed: Option<u16>,
    pub mute: bool,
    pub draw_strategy: DrawStrategy,
}

pub struct CliView {
    pub game_path: Option<Seq<char>>,
    pub palettes: Option<Seq<Palette>>,
    pub speed: Option<u16>,
    pub mute: bool,
    pub draw_strategy: DrawStrategy,
}

impl View for Cli {
    type V = CliView;

    open spec fn view(&self) -> CliView {
        CliView {
            game_path: match &self.game_path {
                Some(s) => Some(s@),
                None => None,
            },
            palettes: match &self.palettes {
                Some(p) => Some(p@),
                None => None,
            },
            speed: self.speed,
            mute: self.mute,
            draw_strategy: self.draw_strategy,
        }
    }
}

/// What the command line asks for.
pub enum CliAction {
    /// Run with these settings.
    Run(Cli),
    /// Print the usage text.
    Help,
    /// Print the version.
    Version,
    /// Greet.
    Hello,
}

pub enum CliActionView {
    Run(CliView),
    Help,
    Version,
    Hello,
}

impl View for CliAction {
    type V = CliActionView;

    open spec fn view(&self) -> CliActionView {
        match self {
            CliAction::Run(c) => CliActionView::Run(c@),
            CliAction::Help => CliActionView::Help,
            CliAction::Version => CliActionView::Version,
            CliAction::Hello => CliActionView::Hello,
        }
    }
}

pub open spec fn result_view<T: View, E: View>(r: Result<T, E>) -> Result<T::V, E::V> {
    match r {
        Ok(t) => Ok(t@),
        Err(e) => Err(e@),
    }
}

/// Settings before any argument is read.
pub open spec fn initial_cli() -> CliView {
    CliView { game_path: None, palettes: None, speed: None, mute: false, draw_strategy: DrawStrategy::Frame }
}

/// `#FG,#BG`; `opt` names the option for the error when the comma is missing.
pub open spec fn parse_palette_spec(piece: Seq<char>, opt: Seq<char>) -> Result<Palette, CliErrorView> {
    match find_char_spec(piece, ',') {
        None => Err(CliErrorView::InvalidArg(opt)),
        Some(k) => {
            let fg = piece.subrange(0, k);
            let bg = piece.subrange(k + 1, piece.len() as int);
            match color_from_hex_spec(fg) {
                None => Err(CliErrorView::InvalidColor(fg)),
                Some(f) => match color_from_hex_spec(bg) {
                    None => Err(CliErrorView::InvalidColor(bg)),
                    Some(b) => Ok((f, b)),
                },
            }
        },
    }
}

/// Palettes separated by `;`, read left to right; the first bad one decides
/// the error.
pub open spec fn parse_palettes_spec(val: Seq<char>, opt: Seq<char>) -> Result<Seq<Palette>, CliErrorView>
    decreases val.len(),
{
    match find_char_spec(val, ';') {
        Some(k) if 0 <= k < val.len() => match parse_palette_spec(val.subrange(0, k), opt) {
            Err(e) => Err(e),
            Ok(p) => match parse_palettes_spec(val.subrange(k + 1, val.len() as int), opt) {
                Err(e) => Err(e),
                Ok(ps) => Ok(seq![p] + ps),
            },
        },
        _ => match parse_palette_spec(val, opt) {
            Err(e) => Err(e),
            Ok(p) => Ok(seq![p]),
        },
    }
}

pub open spec fn is_help(a: Seq<char>) -> bool {
    a == "help"@ || a == "--help"@ || a == "-h"@
}

pub open spec fn is_version(a: Seq<char>) -> bool {
    a == "version"@ || a == "--version"@ || a == "-b"@
}

pub open spec fn is_palettes(a: Seq<char>) -> bool {
    a == "--palettes"@ || a == "-p"@
}

pub open spec fn is_speed(a: Seq<char>) -> bool {
    a == "--speed"@ || a == "-s"@
}

/// The outcome of reading `args[i..]` with the settings `cur` read so far.
pub open spec fn parse_args_spec(args: Seq<String>, i: int, cur: CliView) -> Result<CliActionView, CliErrorView>
    decreases args.len() - i,
{
    if i < 0 || i >= args.len() {
        Ok(CliActionView::Run(cur))
    } else {
        let a = args[i]@;
        if is_help(a) {
            Ok(CliActionView::Help)
        } else if is_version(a) {
            Ok(CliActionView::Version)
        } else if a == "--hello"@ {
            Ok(CliActionView::Hello)
        } else if is_palettes(a) {
            if i + 1 >= args.len() {
                Err(CliErrorView::NoArgValue(a))
            } else {
                match parse_palettes_spec(args[i + 1]@, a) {
                    Err(e) => Err(e),
                    Ok(ps) => parse_args_spec(args, i + 2, CliView { palettes: Some(ps), ..cur }),
                }
            }
        } else if is_speed(a) {
            if i + 1 >= args.len() {
                Err(CliErrorView::NoArgValue(a))
            } else {
                match parse_u16_spec(args[i + 1]@) {
                    None => Err(CliErrorView::InvalidValue(args[i + 1]@)),
                    Some(n) => if n == 0 {
                        Err(CliErrorView::NonZeroSpeed)
                    } else {
                        parse_args_spec(args, i + 2, CliView { speed: Some(n), ..cur })
                    },
                }
            }
        } else if a == "--mute"@ {
            parse_args_spec(args, i + 1, CliView { mute: true, ..cur })
        } else if a == "--draw-on-step"@ {
            parse_args_spec(args, i + 1, CliView { draw_strategy: DrawStrategy::Step, ..cur })
        } else if a.len() > 0 && a[0] == '-' {
            Err(CliErrorView::NoSuchArg(a))
        } else {
            parse_args_spec(args, i + 1, CliView { game_path: Some(a), ..cur })
        }
    }
}

fn parse_palette(piece: &str, opt: &str) -> (r: Result<Palette, CliError>)
    ensures
        match r {
            Ok(p) => parse_palette_spec(piece@, opt@) == Ok::<Palette, CliErrorView>(p),
            Err(e) => parse_palette_spec(piece@, opt@) == Err::<Palette, CliErrorView>(e@),
        },
{
    let comma = find_char(piece, ',');
    match comma {
        None => Err(CliError::InvalidArg(opt.to_owned())),
        Some(k) => {
            let len = piece.unicode_len();
            let fg = piece.substring_char(0, k);
            let bg = piece.substring_char(k + 1, len);
            match Color::from_hex_str(fg) {
                None => Err(CliError::InvalidColor(fg.to_owned())),
                Some(f) => match Color::from_hex_str(bg) {
                    None => Err(CliError::InvalidColor(bg.to_owned())),
                    Some(b) => Ok((f, b)),
                },
            }
        },
    }
}

/// Reads a palette list such as `#fff,#000;#e0f8d0,#081820`.
pub fn parse_palettes(val: &str, opt: &str) -> (r: Result<Vec<Palette>, CliError>)
    ensures
        match r {
            Ok(ps) => parse_palettes_spec(val@, opt@) == Ok::<Seq<Palette>, CliErrorView>(ps@),
            Err(e) => parse_palettes_spec(val@, opt@) == Err::<Seq<Palette>, CliErrorView>(e@),
        },
        r matches Ok(ps) ==> ps@.len() > 0,
{
    let mut pals: Vec<Palette> = Vec::new();
    let mut rest: &str = val;
    loop
        invariant
            parse_palettes_spec(val@, opt@) == match parse_palettes_spec(rest@, opt@) {
                Err(e) => Err(e),
                Ok(ps) => Ok(pals@ + ps),
            },
        decreases rest@.len(),
    {
        match find_char(rest, ';') {
            None => {
                match parse_palette(rest, opt) {
                    Err(e) => return Err(e),
                    Ok(p) => {
                        let ghost before = pals@;
                        pals.push(p);
                        assert(before + seq![p] =~= pals@);
                        return Ok(pals);
                    },
                }
            },
            Some(k) => {
                let len = rest.unicode_len();
                let piece = rest.substring_char(0, k);
                let tail = rest.substring_char(k + 1, len);
                match parse_palette(piece, opt) {
                    Err(e) => return Err(e),
                    Ok(p) => {
                        let ghost before = pals@;
                        pals.push(p);
                        proof {
                            match parse_palettes_spec(tail@, opt@) {
                                Err(e) => {},
                                Ok(ps) => {
                                    assert(before + (seq![p] + ps) =~= pals@ + ps);
                                },
                            }
                        }
                        rest = tail;
                    },
                }
            },
        }
    }
}

impl Cli {
    /// Reads the command-line arguments (without the program name).
    pub fn parse(args: &Vec<String>) -> (r: Result<CliAction, CliError>)
        ensures
            result_view(r) == parse_args_spec(args@, 0, initial_cli()),
            r matches Ok(CliAction::Run(c)) ==> (c.palettes matches Some(p) ==> p@.len() > 0),
    {
        let mut cli = Cli { game_path: None, palettes: None, speed: None, mute: false, draw_strategy: DrawStrategy::Frame };
        let n = args.len();
        let mut i: usize = 0;
        while i < n
            invariant
                n == args@.len(),
                i <= n + 1,
                parse_args_spec(args@, 0, initial_cli()) == parse_args_spec(args@, i as int, cli@),
                cli.palettes matches Some(p) ==> p@.len() > 0,
            decreases n + 1 - i,
        {
            let arg = args[i].as_str();
            if str_eq(arg, "help") || str_eq(arg, "--help") || str_eq(arg, "-h") {
                return Ok(CliAction::Help);
            } else if str_eq(arg, "version") || str_eq(arg, "--version") || str_eq(arg, "-b") {
                return Ok(CliAction::Version);
            } else if str_eq(arg, "--hello") {
                return Ok(CliAction::Hello);
            } else if str_eq(arg, "--palettes") || str_eq(arg, "-p") {
                if i + 1 >= n {
                    return Err(CliError::NoArgValue(arg.to_owned()));
                }
                match parse_palettes(args[i + 1].as_str(), arg) {
                    Err(e) => return Err(e),
                    Ok(ps) => cli.palettes = Some(ps),
                }
                i += 2;
            } else if str_eq(arg, "--speed") || str_eq(arg, "-s") {
                if i + 1 >= n {
                    return Err(CliError::NoArgValue(arg.to_owned()));
                }
                let val = args[i + 1].as_str();
                match parse_u16(val) {
                    None => return Err(CliError::InvalidValue(val.to_owned())),
                    Some(num) => {
                        if num == 0 {
                            return Err(CliError::NonZeroSpeed);
                        }
                        cli.speed = Some(num);
                    },
                }
                i += 2;
            } else if str_eq(arg, "--mute") {
                cli.mute = true;
                i += 1;
            } else if str_eq(arg, "--draw-on-step") {
                cli.draw_strategy = DrawStrategy::Step;
                i += 1;
            } else if arg.unicode_len() > 0 && arg.get_char(0) == '-' {
                return Err(CliError::NoSuchArg(arg.to_owned()));
            } else {
                cli.game_path = Some(arg.to_owned());
                i += 1;
            }
        }
        Ok(CliAction::Run(cli))
    }
}

} // verus!
