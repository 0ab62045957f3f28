//! Terminal cell styling and its encoding as ANSI SGR escape sequences.
//!
//! A style maps to a parameter list that always begins with a reset code,
//! followed by the codes of the set modifiers and of the foreground and
//! background colors; an unset color is omitted rather than encoded as a
//! default-color parameter, to keep the escape sequences short.

use vstd::prelude::*;

verus! {

/// A terminal color: the named palette, an indexed color, or a 24-bit color.
/// `Reset` stands for the terminal's default and is never encoded.
#[derive(Clone, Copy, PartialEq, Eq, Structural, Debug)]
pub enum Color {
    Reset,
    Black,
    Red,
    Green,
    Yellow,
    Blue,
    Magenta,
    Cyan,
    Gray,
    DarkGray,
    LightRed,
    LightGreen,
    LightYellow,
    LightBlue,
    LightMagenta,
    LightCyan,
    White,
    Indexed(u8),
    Rgb(u8, u8, u8),
}

/// The style of one terminal cell: optional colors and six modifier flags.
#[derive(Clone, Copy, PartialEq, Eq, Structural, Debug)]
pub struct Style {
    pub fg: Option<Color>,
    pub bg: Option<Color>,
    pub bold: bool,
    pub dim: bool,
    pub italic: bool,
    pub underlined: bool,
    pub reversed: bool,
    pub crossed_out: bool,
}

impl Style {
    /// The unstyled default: no colors, no modifiers.
    pub open spec fn spec_default() -> Style {
        Style {
            fg: None,
            bg: None,
            bold: false,
            dim: false,
            italic: false,
            underlined: false,
            reversed: false,
            crossed_out: false,
        }
    }

    pub fn new() -> (r: Style)
        ensures
            r == Style::spec_default(),
    {
        Style {
            fg: None,
            bg: None,
            bold: false,
            dim: false,
            italic: false,
            underlined: false,
            reversed: false,
            crossed_out: false,
        }
    }
}

impl Default for Style {
    fn default() -> (r: Style)
        ensures
            r == Style::spec_default(),
    {
        Style::new()
    }
}

/// The SGR parameter codes of a foreground color; `Reset` encodes to nothing.
pub open spec fn fg_codes(c: Color) -> Seq<u16> {
    match c {
        Color::Reset => Seq::empty(),
        Color::Black => seq![30u16],
        Color::Red => seq![31u16],
        Color::Green => seq![32u16],
        Color::Yellow => seq![33u16],
        Color::Blue => seq![34u16],
        Color::Magenta => seq![35u16],
        Color::Cyan => seq![36u16],
        Color::Gray => seq![37u16],
        Color::DarkGray => seq![90u16],
        Color::LightRed => seq![91u16],
        Color::LightGreen => seq![92u16],
        Color::LightYellow => seq![93u16],
        Color::LightBlue => seq![94u16],
        Color::LightMagenta => seq![95u16],
        Color::LightCyan => seq![96u16],
        Color::White => seq![97u16],
        Color::Indexed(n) => seq![38u16, 5u16, n as u16],
        Color::Rgb(r, g, b) => seq![38u16, 2u16, r as u16, g as u16, b as u16],
    }
}

/// The SGR parameter codes of a background color; `Reset` encodes to nothing.
pub open spec fn bg_codes(c: Color) -> Seq<u16> {
    match c {
        Color::Reset => Seq::empty(),
        Color::Black => seq![40u16],
        Color::Red => seq![41u16],
        Color::Green => seq![42u16],
        Color::Yellow => seq![43u16],
        Color::Blue => seq![44u16],
        Color::Magenta => seq![45u16],
        Color::Cyan => seq![46u16],
        Color::Gray => seq![47u16],
        Color::DarkGray => seq![100u16],
        Color::LightRed => seq![101u16],
        Color::LightGreen => seq![102u16],
        Color::LightYellow => seq![103u16],
        Color::LightBlue => seq![104u16],
        Color::LightMagenta => seq![105u16],
        Color::LightCyan => seq![106u16],
        Color::White => seq![107u16],
        Color::Indexed(n) => seq![48u16, 5u16, n as u16],
        Color::Rgb(r, g, b) => seq![48u16, 2u16, r as u16, g as u16, b as u16],
    }
}

/// The attribute codes of the set modifiers, in a fixed order.
pub open spec fn modifier_codes(s: Style) -> Seq<u16> {
    (if s.bold {
        seq![1u16]
    } else {
        Seq::empty()
    }) + (if s.dim {
        seq![2u16]
    } else {
        Seq::empty()
    }) + (if s.italic {
        seq![3u16]
    } else {
        Seq::empty()
    }) + (if s.underlined {
        seq![4u16]
    } else {
        Seq::empty()
    }) + (if s.reversed {
        seq![7u16]
    } else {
        Seq::empty()
    }) + (if s.crossed_out {
        seq![9u16]
    } else {
        Seq::empty()
    })
}

/// The full SGR parameter list of a style: a leading reset, the modifier
/// codes, then foreground and background codes.
pub open spec fn sgr_params(s: Style) -> Seq<u16> {
    seq![0u16] + modifier_codes(s) + fg_codes(
        match s.fg {
            Some(c) => c,
            None => Color::Reset,
        },
    ) + bg_codes(
        match s.bg {
            Some(c) => c,
            None => Color::Reset,
        },
    )
}

/// The decimal digit `d` as a character.
pub open spec fn digit_char(d: int) -> char {
    if d == 0 {
        '0'
    } else if d == 1 {
        '1'
    } else if d == 2 {
        '2'
    } else if d == 3 {
        '3'
    } else if d == 4 {
        '4'
    } else if d == 5 {
        '5'
    } else if d == 6 {
        '6'
    } else if d == 7 {
        '7'
    } else if d == 8 {
        '8'
    } else {
        '9'
    }
}

/// The decimal digits of `n`, most significant first.
pub open spec fn dec_chars(n: int) -> Seq<char>
    decreases n,
{
    if n < 10 {
        seq![digit_char(n)]
    } else {
        dec_chars(n / 10) + seq![digit_char(n % 10)]
    }
}

/// The parameters from position `i` on, rendered in decimal and separated
/// by semicolons (a separator before every parameter but the first).
pub open spec fn params_chars_from(ps: Seq<u16>, i: int) -> Seq<char>
    decreases ps.len() - i,
{
    if i < 0 || i >= ps.len() {
        Seq::empty()
    } else {
        (if i > 0 {
            seq![';']
        } else {
            Seq::empty()
        }) + dec_chars(ps[i] as int) + params_chars_from(ps, i + 1)
    }
}

/// The complete SGR escape sequence of a style.
pub open spec fn sgr_chars(s: Style) -> Seq<char> {
    seq!['\u{1b}', '['] + params_chars_from(sgr_params(s), 0) + seq!['m']
}

/// The decimal digit `d` as a character.
fn digit10(d: u16) -> (c: char)
    requires
        d < 10,
    ensures
        c == digit_char(d as int),
{
    if d == 0 {
        '0'
    } else if d == 1 {
        '1'
    } else if d == 2 {
        '2'
    } else if d == 3 {
        '3'
    } else if d == 4 {
        '4'
    } else if d == 5 {
        '5'
    } else if d == 6 {
        '6'
    } else if d == 7 {
        '7'
    } else if d == 8 {
        '8'
    } else {
        '9'
    }
}

/// Append the decimal digits of `n` to `out`.
pub fn push_decimal(out: &mut Vec<char>, n: u16)
    ensures
        final(out)@ == old(out)@ + dec_chars(n as int),
    decreases n,
{
    if n >= 10 {
        push_decimal(out, n / 10);
    }
    out.push(digit10(n % 10));
    proof {
        assert(out@ =~= old(out)@ + dec_chars(n as int));
    }
}

/// Build the SGR parameter list of `style`.
fn build_sgr_params(style: Style) -> (r: Vec<u16>)
    ensures
        r@ == sgr_params(style),
{
    let mut params: Vec<u16> = Vec::new();
    params.push(0);
    if style.bold {
        params.push(1);
    }
    if style.dim {
        params.push(2);
    }
    if style.italic {
        params.push(3);
    }
    if style.underlined {
        params.push(4);
    }
    if style.reversed {
        params.push(7);
    }
    if style.crossed_out {
        params.push(9);
    }
    proof {
        assert(params@ =~= seq![0u16] + modifier_codes(style));
    }
    match style.fg {
        None => {},
        Some(c) => {
            push_fg(&mut params, c);
        },
    }
    proof {
        assert(params@ =~= seq![0u16] + modifier_codes(style) + fg_codes(
            match style.fg {
                Some(c) => c,
                None => Color::Reset,
            },
        ));
    }
    match style.bg {
        None => {},
        Some(c) => {
            push_bg(&mut params, c);
        },
    }
    proof {
        assert(params@ =~= sgr_params(style));
    }
    params
}

/// Append the foreground codes of `c`.
fn push_fg(params: &mut Vec<u16>, c: Color)
    ensures
        final(params)@ == old(params)@ + fg_codes(c),
{
    match c {
        Color::Reset => {},
        Color::Black => params.push(30),
        Color::Red => params.push(31),
        Color::Green => params.push(32),
        Color::Yellow => params.push(33),
        Color::Blue => params.push(34),
        Color::Magenta => params.push(35),
        Color::Cyan => params.push(36),
        Color::Gray => params.push(37),
        Color::DarkGray => params.push(90),
        Color::LightRed => params.push(91),
        Color::LightGreen => params.push(92),
        Color::LightYellow => params.push(93),
        Color::LightBlue => params.push(94),
        Color::LightMagenta => params.push(95),
        Color::LightCyan => params.push(96),
        Color::White => params.push(97),
        Color::Indexed(n) => {
            params.push(38);
            params.push(5);
            params.push(n as u16);
        },
        Color::Rgb(r, g, b) => {
            params.push(38);
            params.push(2);
            params.push(r as u16);
            params.push(g as u16);
            params.push(b as u16);
        },
    }
    proof {
        assert(params@ =~= old(params)@ + fg_codes(c));
    }
}

/// Append the background codes of `c`.
fn push_bg(params: &mut Vec<u16>, c: Color)
    ensures
        final(params)@ == old(params)@ + bg_codes(c),
{
    match c {
        Color::Reset => {},
        Color::Black => params.push(40),
        Color::Red => params.push(41),
        Color::Green => params.push(42),
        Color::Yellow => params.push(43),
        Color::Blue => params.push(44),
        Color::Magenta => params.push(45),
        Color::Cyan => params.push(46),
        Color::Gray => params.push(47),
        Color::DarkGray => params.push(100),
        Color::LightRed => params.push(101),
        Color::LightGreen => params.push(102),
        Color::LightYellow => params.push(103),
        Color::LightBlue => params.push(104),
        Color::LightMagenta => params.push(105),
        Color::LightCyan => params.push(106),
        Color::White => params.push(107),
        Color::Indexed(n) => {
            params.push(48);
            params.push(5);
            params.push(n as u16);
        },
        Color::Rgb(r, g, b) => {
            params.push(48);
            params.push(2);
            params.push(r as u16);
            params.push(g as u16);
            params.push(b as u16);
        },
    }
    proof {
        assert(params@ =~= old(params)@ + bg_codes(c));
    }
}

/// The SGR escape sequence that sets `style`, built with style-run
/// compression in mind: the caller emits it only when the style changes.
pub fn sgr_for_style(style: Style) -> (r: Vec<char>)
    ensures
        r@ == sgr_chars(style),
{
    let params = build_sgr_params(style);
    let mut out: Vec<char> = Vec::new();
    out.push('\u{1b}');
    out.push('[');
    let len = params.len();
    let mut i: usize = 0;
    while i < len
        invariant
            i <= len,
            len == params@.len(),
            params@ == sgr_params(style),
            out@.len() >= 2,
            out@[0] == '\u{1b}',
            out@[1] == '[',
            params_chars_from(params@, 0) == out@.skip(2) + params_chars_from(params@, i as int),
        decreases len - i,
    {
        if i > 0 {
            out.push(';');
        }
        push_decimal(&mut out, params[i]);
        i = i + 1;
        proof {
            assert(params_chars_from(params@, 0) =~= out@.skip(2) + params_chars_from(
                params@,
                i as int,
            ));
        }
    }
    out.push('m');
    proof {
        assert(out@ =~= sgr_chars(style));
    }
    out
}

} // verus!
