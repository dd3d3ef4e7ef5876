use vstd::prelude::*;

verus! {

/// A terminal colour: the named ANSI colours, a 256-colour palette index, or
/// a 24-bit RGB triple.
#[derive(Clone, Copy, PartialEq, Eq, Debug, Structural)]
pub enum Color {
    Reset,
    Black,
    DarkGrey,
    Red,
    DarkRed,
    Green,
    DarkGreen,
    Yellow,
    DarkYellow,
    Blue,
    DarkBlue,
    Magenta,
    DarkMagenta,
    Cyan,
    DarkCyan,
    White,
    Grey,
    Rgb { r: u8, g: u8, b: u8 },
    AnsiValue(u8),
}

/// The foreground colour of a character cell and, optionally, its background.
#[derive(Clone, Copy, PartialEq, Eq, Debug, Structural)]
pub struct ColorPair {
    pub fg: Color,
    pub bg: Option<Color>,
}

/// The RGB triple that the colour effects read from a colour: exact for RGB,
/// black and white, mid grey for anything else.
pub open spec fn rgb_spec(c: Color) -> (u8, u8, u8) {
    match c {
        Color::Rgb { r, g, b } => (r, g, b),
        Color::Black => (0, 0, 0),
        Color::White => (255, 255, 255),
        _ => (128, 128, 128),
    }
}

/// The RGB triple of `c` as the effects see it.
pub fn rgb(c: Color) -> (t: (u8, u8, u8))
    ensures
        t == rgb_spec(c),
{
    match c {
        Color::Rgb { r, g, b } => (r, g, b),
        Color::Black => (0, 0, 0),
        Color::White => (255, 255, 255),
        _ => (128, 128, 128),
    }
}

/// The photographic negative of a colour, as an RGB colour.
pub open spec fn invert_spec(c: Color) -> Color {
    let (r, g, b) = rgb_spec(c);
    Color::Rgb { r: (255 - r) as u8, g: (255 - g) as u8, b: (255 - b) as u8 }
}

/// Inverts each channel of `c` (`255 - v`).
pub fn invert_color(c: Color) -> (i: Color)
    ensures
        i == invert_spec(c),
{
    let (r, g, b) = rgb(c);
    Color::Rgb { r: 255 - r, g: 255 - g, b: 255 - b }
}

/// A foreground colour with no background.
pub open spec fn solid_spec(c: Color) -> ColorPair {
    ColorPair { fg: c, bg: None }
}

/// A cell coloured by `c` in the foreground only.
pub fn solid(c: Color) -> (p: ColorPair)
    ensures
        p == solid_spec(c),
{
    ColorPair { fg: c, bg: None }
}

/// A pair with both colours inverted (the strobe flash).
pub open spec fn invert_pair_spec(p: ColorPair) -> ColorPair {
    ColorPair {
        fg: invert_spec(p.fg),
        bg: match p.bg {
            Some(bg) => Some(invert_spec(bg)),
            None => None,
        },
    }
}

/// Inverts the foreground and, when there is one, the background.
pub fn invert_pair(p: ColorPair) -> (q: ColorPair)
    ensures
        q == invert_pair_spec(p),
{
    let mut q = p;
    q.fg = invert_color(p.fg);
    if let Some(bg) = p.bg {
        q.bg = Some(invert_color(bg));
    }
    q
}

/// The RGB triple written to the terminal for a colour: the RGB value itself,
/// the usual values of the named colours, and a light grey for the rest.
pub open spec fn term_rgb_spec(c: Color) -> (u8, u8, u8) {
    match c {
        Color::Rgb { r, g, b } => (r, g, b),
        Color::Black => (0, 0, 0),
        Color::White => (255, 255, 255),
        Color::DarkGrey => (80, 80, 80),
        Color::Grey => (128, 128, 128),
        Color::Red => (255, 0, 0),
        Color::Green => (0, 255, 0),
        Color::Blue => (0, 0, 255),
        Color::Yellow => (255, 255, 0),
        Color::Cyan => (0, 255, 255),
        Color::Magenta => (255, 0, 255),
        _ => (200, 200, 200),
    }
}

/// The RGB triple of a colour as sent in a 24-bit terminal escape sequence.
pub fn term_color_rgb(c: Color) -> (t: (u8, u8, u8))
    ensures
        t == term_rgb_spec(c),
{
    match c {
        Color::Rgb { r, g, b } => (r, g, b),
        Color::Black => (0, 0, 0),
        Color::White => (255, 255, 255),
        Color::DarkGrey => (80, 80, 80),
        Color::Grey => (128, 128, 128),
        Color::Red => (255, 0, 0),
        Color::Green => (0, 255, 0),
        Color::Blue => (0, 0, 255),
        Color::Yellow => (255, 255, 0),
        Color::Cyan => (0, 255, 255),
        Color::Magenta => (255, 0, 255),
        _ => (200, 200, 200),
    }
}

/// Inverting twice gives back the colour, read as RGB.
pub proof fn lemma_invert_involution(c: Color)
    ensures
        invert_spec(invert_spec(c)) == (Color::Rgb {
            r: rgb_spec(c).0,
            g: rgb_spec(c).1,
            b: rgb_spec(c).2,
        }),
{
}

/// A strobe flash applied twice restores a pair whose colours are RGB values.
pub proof fn lemma_invert_pair_involution(p: ColorPair)
    requires
        p.fg is Rgb,
        p.bg matches Some(bg) ==> bg is Rgb,
    ensures
        invert_pair_spec(invert_pair_spec(p)) == p,
{
}

/// For the colours that the effects produce (RGB, black and white), the
/// terminal triple and the effects' triple agree.
pub proof fn lemma_term_rgb_agrees(c: Color)
    requires
        c is Rgb || c is Black || c is White,
    ensures
        term_rgb_spec(c) == rgb_spec(c),
{
}

/// Inverting an RGB colour replaces each channel `v` with `255 - v`, so a
/// channel and its inverse always add up to 255; black and white swap.
pub proof fn lemma_invert_channels(c: Color, r: u8, g: u8, b: u8)
    ensures
        c == (Color::Rgb { r, g, b }) ==> invert_spec(c) == (Color::Rgb {
            r: (255 - r) as u8,
            g: (255 - g) as u8,
            b: (255 - b) as u8,
        }),
        rgb_spec(invert_spec(c)).0 + rgb_spec(c).0 == 255,
        rgb_spec(invert_spec(c)).1 + rgb_spec(c).1 == 255,
        rgb_spec(invert_spec(c)).2 + rgb_spec(c).2 == 255,
        invert_spec(Color::Black) == (Color::Rgb { r: 255, g: 255, b: 255 }),
        invert_spec(Color::White) == (Color::Rgb { r: 0, g: 0, b: 0 }),
        c == (Color::Rgb { r, g, b }) ==> rgb_spec(c) == (r, g, b),
{
}

} // verus!
