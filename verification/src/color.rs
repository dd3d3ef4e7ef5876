use vstd::prelude::*;

use crate::palette::{invert_pair, invert_pair_spec, solid, solid_spec, Color, ColorPair};
use crate::random::random_byte;

verus! {

/// Number of colour effects that the `c` key cycles through.
pub const COLOR_MODE_COUNT: usize = 33;

/// A colour effect applied to every character cell.
#[derive(Clone, Copy, PartialEq, Eq, Debug, Structural)]
pub enum ColorMode {
    Green,
    Red,
    Blue,
    Yellow,
    Orange,
    Purple,
    Cyan,
    White,
    Rainbow,
    Checkerboard,
    Matrix,
    Heatmap,
    Grayscale,
    Neon,
    Sepia,
    Complement,
    Scanlines,
    Vignette,
    Fire,
    Ocean,
    Synthwave,
    Duotone,
    Pulse,
    Wave,
    Glitch,
    Strobe,
    Aurora,
    Stripes,
    Dots,
    Radial,
    Noise,
    TrueColor,
    Face,
}

impl ColorMode {
    /// The place of a mode in the cycling order.
    pub open spec fn order(self) -> int {
        match self {
            ColorMode::Green => 0,
            ColorMode::Red => 1,
            ColorMode::Blue => 2,
            ColorMode::Yellow => 3,
            ColorMode::Orange => 4,
            ColorMode::Purple => 5,
            ColorMode::Cyan => 6,
            ColorMode::White => 7,
            ColorMode::Rainbow => 8,
            ColorMode::Checkerboard => 9,
            ColorMode::Matrix => 10,
            ColorMode::Heatmap => 11,
            ColorMode::Grayscale => 12,
            ColorMode::Neon => 13,
            ColorMode::Sepia => 14,
            ColorMode::Complement => 15,
            ColorMode::Scanlines => 16,
            ColorMode::Vignette => 17,
            ColorMode::Fire => 18,
            ColorMode::Ocean => 19,
            ColorMode::Synthwave => 20,
            ColorMode::Duotone => 21,
            ColorMode::Pulse => 22,
            ColorMode::Wave => 23,
            ColorMode::Glitch => 24,
            ColorMode::Strobe => 25,
            ColorMode::Aurora => 26,
            ColorMode::Stripes => 27,
            ColorMode::Dots => 28,
            ColorMode::Radial => 29,
            ColorMode::Noise => 30,
            ColorMode::TrueColor => 31,
            ColorMode::Face => 32,
        }
    }

    /// The mode at a place of the cycling order (places past the end give the last mode).
    pub open spec fn from_order(i: int) -> ColorMode {
        if i == 0 {
            ColorMode::Green
        } else if i == 1 {
            ColorMode::Red
        } else if i == 2 {
            ColorMode::Blue
        } else if i == 3 {
            ColorMode::Yellow
        } else if i == 4 {
            ColorMode::Orange
        } else if i == 5 {
            ColorMode::Purple
        } else if i == 6 {
            ColorMode::Cyan
        } else if i == 7 {
            ColorMode::White
        } else if i == 8 {
            ColorMode::Rainbow
        } else if i == 9 {
            ColorMode::Checkerboard
        } else if i == 10 {
            ColorMode::Matrix
        } else if i == 11 {
            ColorMode::Heatmap
        } else if i == 12 {
            ColorMode::Grayscale
        } else if i == 13 {
            ColorMode::Neon
        } else if i == 14 {
            ColorMode::Sepia
        } else if i == 15 {
            ColorMode::Complement
        } else if i == 16 {
            ColorMode::Scanlines
        } else if i == 17 {
            ColorMode::Vignette
        } else if i == 18 {
            ColorMode::Fire
        } else if i == 19 {
            ColorMode::Ocean
        } else if i == 20 {
            ColorMode::Synthwave
        } else if i == 21 {
            ColorMode::Duotone
        } else if i == 22 {
            ColorMode::Pulse
        } else if i == 23 {
            ColorMode::Wave
        } else if i == 24 {
            ColorMode::Glitch
        } else if i == 25 {
            ColorMode::Strobe
        } else if i == 26 {
            ColorMode::Aurora
        } else if i == 27 {
            ColorMode::Stripes
        } else if i == 28 {
            ColorMode::Dots
        } else if i == 29 {
            ColorMode::Radial
        } else if i == 30 {
            ColorMode::Noise
        } else if i == 31 {
            ColorMode::TrueColor
        } else {
            ColorMode::Face
        }
    }

    /// Every mode, in cycling order.
    pub open spec fn all_seq() -> Seq<ColorMode> {
        Seq::new(COLOR_MODE_COUNT as nat, |i: int| Self::from_order(i))
    }

    /// The mode that follows `self` in the cycle; the last one wraps to the first.
    pub open spec fn next_spec(self) -> ColorMode {
        Self::from_order((self.order() + 1) % (COLOR_MODE_COUNT as int))
    }

    /// Every mode, in the order in which `next` visits them.
    pub fn all() -> (v: Vec<ColorMode>)
        ensures
            v@ == Self::all_seq(),
    {
        let v = vec![
            ColorMode::Green,
            ColorMode::Red,
            ColorMode::Blue,
            ColorMode::Yellow,
            ColorMode::Orange,
            ColorMode::Purple,
            ColorMode::Cyan,
            ColorMode::White,
            ColorMode::Rainbow,
            ColorMode::Checkerboard,
            ColorMode::Matrix,
            ColorMode::Heatmap,
            ColorMode::Grayscale,
            ColorMode::Neon,
            ColorMode::Sepia,
            ColorMode::Complement,
            ColorMode::Scanlines,
            ColorMode::Vignette,
            ColorMode::Fire,
            ColorMode::Ocean,
            ColorMode::Synthwave,
            ColorMode::Duotone,
            ColorMode::Pulse,
            ColorMode::Wave,
            ColorMode::Glitch,
            ColorMode::Strobe,
            ColorMode::Aurora,
            ColorMode::Stripes,
            ColorMode::Dots,
            ColorMode::Radial,
            ColorMode::Noise,
            ColorMode::TrueColor,
            ColorMode::Face,
        ];
        assert(v@ =~= Self::all_seq());
        v
    }

    /// Where `self` stands in `all()`.
    fn position(self) -> (i: usize)
        ensures
            i == self.order(),
    {
        match self {
            ColorMode::Green => 0,
            ColorMode::Red => 1,
            ColorMode::Blue => 2,
            ColorMode::Yellow => 3,
            ColorMode::Orange => 4,
            ColorMode::Purple => 5,
            ColorMode::Cyan => 6,
            ColorMode::White => 7,
            ColorMode::Rainbow => 8,
            ColorMode::Checkerboard => 9,
            ColorMode::Matrix => 10,
            ColorMode::Heatmap => 11,
            ColorMode::Grayscale => 12,
            ColorMode::Neon => 13,
            ColorMode::Sepia => 14,
            ColorMode::Complement => 15,
            ColorMode::Scanlines => 16,
            ColorMode::Vignette => 17,
            ColorMode::Fire => 18,
            ColorMode::Ocean => 19,
            ColorMode::Synthwave => 20,
            ColorMode::Duotone => 21,
            ColorMode::Pulse => 22,
            ColorMode::Wave => 23,
            ColorMode::Glitch => 24,
            ColorMode::Strobe => 25,
            ColorMode::Aurora => 26,
            ColorMode::Stripes => 27,
            ColorMode::Dots => 28,
            ColorMode::Radial => 29,
            ColorMode::Noise => 30,
            ColorMode::TrueColor => 31,
            ColorMode::Face => 32,
        }
    }

    /// The next effect in the cycle (what the `c` key selects).
    pub fn next(self) -> (m: ColorMode)
        ensures
            m == self.next_spec(),
    {
        let all = Self::all();
        let i = self.position();
        all[(i + 1) % all.len()]
    }
    /// The preset selected by a digit key: 1 to 9 pick the first nine modes.
    pub open spec fn from_digit_spec(d: u8) -> Option<ColorMode> {
        if 1 <= d <= 9 {
            Some(Self::from_order(d - 1))
        } else {
            None
        }
    }

    /// The preset colour for a digit: `1`..`9` give green, red, blue, yellow,
    /// orange, purple, cyan, white and rainbow; any other value gives `None`.
    pub fn from_digit(d: u8) -> (m: Option<ColorMode>)
        ensures
            m == Self::from_digit_spec(d),
    {
        match d {
            1 => Some(ColorMode::Green),
            2 => Some(ColorMode::Red),
            3 => Some(ColorMode::Blue),
            4 => Some(ColorMode::Yellow),
            5 => Some(ColorMode::Orange),
            6 => Some(ColorMode::Purple),
            7 => Some(ColorMode::Cyan),
            8 => Some(ColorMode::White),
            9 => Some(ColorMode::Rainbow),
            _ => None,
        }
    }

    /// The lower-case label shown in the status bar.
    pub open spec fn name_spec(self) -> Seq<char> {
        match self {
            ColorMode::Green => "green"@,
            ColorMode::Red => "red"@,
            ColorMode::Blue => "blue"@,
            ColorMode::Yellow => "yellow"@,
            ColorMode::Orange => "orange"@,
            ColorMode::Purple => "purple"@,
            ColorMode::Cyan => "cyan"@,
            ColorMode::White => "white"@,
            ColorMode::Rainbow => "rainbow"@,
            ColorMode::Checkerboard => "checkerboard"@,
            ColorMode::Matrix => "matrix"@,
            ColorMode::Heatmap => "heatmap"@,
            ColorMode::Grayscale => "grayscale"@,
            ColorMode::Neon => "neon"@,
            ColorMode::Sepia => "sepia"@,
            ColorMode::Complement => "complement"@,
            ColorMode::Scanlines => "scanlines"@,
            ColorMode::Vignette => "vignette"@,
            ColorMode::Fire => "fire"@,
            ColorMode::Ocean => "ocean"@,
            ColorMode::Synthwave => "synthwave"@,
            ColorMode::Duotone => "duotone"@,
            ColorMode::Pulse => "pulse"@,
            ColorMode::Wave => "wave"@,
            ColorMode::Glitch => "glitch"@,
            ColorMode::Strobe => "strobe"@,
            ColorMode::Aurora => "aurora"@,
            ColorMode::Stripes => "stripes"@,
            ColorMode::Dots => "dots"@,
            ColorMode::Radial => "radial"@,
            ColorMode::Noise => "noise"@,
            ColorMode::TrueColor => "truecolor"@,
            ColorMode::Face => "face"@,
        }
    }

    /// The label of the mode, as shown in the status bar.
    pub fn name(self) -> (s: &'static str)
        ensures
            s@ == self.name_spec(),
    {
        match self {
            ColorMode::Green => "green",
            ColorMode::Red => "red",
            ColorMode::Blue => "blue",
            ColorMode::Yellow => "yellow",
            ColorMode::Orange => "orange",
            ColorMode::Purple => "purple",
            ColorMode::Cyan => "cyan",
            ColorMode::White => "white",
            ColorMode::Rainbow => "rainbow",
            ColorMode::Checkerboard => "checkerboard",
            ColorMode::Matrix => "matrix",
            ColorMode::Heatmap => "heatmap",
            ColorMode::Grayscale => "grayscale",
            ColorMode::Neon => "neon",
            ColorMode::Sepia => "sepia",
            ColorMode::Complement => "complement",
            ColorMode::Scanlines => "scanlines",
            ColorMode::Vignette => "vignette",
            ColorMode::Fire => "fire",
            ColorMode::Ocean => "ocean",
            ColorMode::Synthwave => "synthwave",
            ColorMode::Duotone => "duotone",
            ColorMode::Pulse => "pulse",
            ColorMode::Wave => "wave",
            ColorMode::Glitch => "glitch",
            ColorMode::Strobe => "strobe",
            ColorMode::Aurora => "aurora",
            ColorMode::Stripes => "stripes",
            ColorMode::Dots => "dots",
            ColorMode::Radial => "radial",
            ColorMode::Noise => "noise",
            ColorMode::TrueColor => "truecolor",
            ColorMode::Face => "face",
        }
    }
}

impl ColorMode {
    /// The mode reached from `self` after `k` presses of the cycling key.
    pub open spec fn advance(self, k: nat) -> ColorMode
        decreases k,
    {
        if k == 0 {
            self
        } else {
            self.advance((k - 1) as nat).next_spec()
        }
    }
}

/// Each mode has exactly one place in the cycle: `order` and `from_order`
/// are inverse to each other on the places `0..33`.
pub proof fn lemma_color_order_bijective(m: ColorMode, i: int)
    ensures
        0 <= m.order() < COLOR_MODE_COUNT,
        ColorMode::from_order(m.order()) == m,
        ColorMode::all_seq()[m.order()] == m,
        0 <= i < COLOR_MODE_COUNT ==> ColorMode::from_order(i).order() == i,
{
}

/// After `k` presses of the cycling key the mode has moved `k` places along
/// the cycle, wrapping around after the last mode.
pub proof fn lemma_color_advance_order(m: ColorMode, k: nat)
    ensures
        m.advance(k).order() == (m.order() + k) % (COLOR_MODE_COUNT as int),
    decreases k,
{
    lemma_color_order_bijective(m, 0);
    if k > 0 {
        let prev = m.advance((k - 1) as nat);
        lemma_color_advance_order(m, (k - 1) as nat);
        let p = (prev.order() + 1) % (COLOR_MODE_COUNT as int);
        lemma_color_order_bijective(prev, p);
        assert(((m.order() + k - 1) % 33 + 1) % 33 == (m.order() + k) % 33) by (nonlinear_arith)
            requires
                m.order() >= 0,
                k >= 1,
        ;
    }
}

/// Cycling through all the effects with `c` comes back to the starting effect
/// after exactly as many presses as there are effects.
pub proof fn lemma_color_cycle_returns(m: ColorMode)
    ensures
        m.advance(COLOR_MODE_COUNT as nat) == m,
{
    lemma_color_advance_order(m, COLOR_MODE_COUNT as nat);
    let a = m.advance(COLOR_MODE_COUNT as nat);
    lemma_color_order_bijective(a, 0);
    lemma_color_order_bijective(m, 0);
}

/// Cycling with `c` visits every effect: from any mode, any other mode is
/// reached in fewer presses than there are effects.
pub proof fn lemma_color_cycle_visits_all(from: ColorMode, to: ColorMode)
    ensures
        exists|k: nat| k < COLOR_MODE_COUNT && #[trigger] from.advance(k) == to,
{
    lemma_color_order_bijective(from, 0);
    lemma_color_order_bijective(to, 0);
    let k: nat = ((to.order() - from.order() + 33) % 33) as nat;
    lemma_color_advance_order(from, k);
    let a = from.advance(k);
    lemma_color_order_bijective(a, 0);
    assert(a.order() == to.order());
}

/// The integer inputs of a cell's colour: its position, the size of the
/// picture, the tile size of the patterned effects, whether the glitch effect
/// hits its column, whether it lies in the detected face, and the camera's
/// blue-green-red pixel when one was read.
#[derive(Clone, Copy, Debug)]
pub struct ColorCtx {
    pub x: u16,
    pub y: u16,
    pub cols: u16,
    pub rows: u16,
    pub tile: u16,
    pub glitch_hit: bool,
    pub in_face: bool,
    pub bgr: Option<(u8, u8, u8)>,
}

/// Whether the checkerboard tile holding `(x, y)` is a light one: tiles
/// alternate along both axes, starting light at the origin.
pub open spec fn checker_light_spec(x: u16, y: u16, tile: u16) -> bool {
    (x / tile + y / tile) % 2 == 0
}

/// Whether the cell lies in a light checkerboard tile of side `tile`.
pub fn checker_light(x: u16, y: u16, tile: u16) -> (light: bool)
    requires
        tile > 0,
    ensures
        light == checker_light_spec(x, y, tile),
{
    let tx = (x / tile) as u32;
    let ty = (y / tile) as u32;
    (tx + ty) % 2 == 0
}

/// The tile size used by the patterned effects: a zero size counts as one.
pub open spec fn effective_tile(tile: u16) -> u16 {
    if tile == 0 {
        1
    } else {
        tile
    }
}

/// Whether a mode's colour comes from the camera's brightness or the clock
/// rather than from the cell's position alone.
pub open spec fn is_shaded(mode: ColorMode) -> bool {
    match mode {
        ColorMode::Rainbow | ColorMode::Matrix | ColorMode::Heatmap | ColorMode::Grayscale
        | ColorMode::Neon | ColorMode::Sepia | ColorMode::Complement | ColorMode::Scanlines
        | ColorMode::Vignette | ColorMode::Fire | ColorMode::Ocean | ColorMode::Synthwave
        | ColorMode::Duotone | ColorMode::Pulse | ColorMode::Wave | ColorMode::Strobe
        | ColorMode::Aurora | ColorMode::Radial | ColorMode::Noise => true,
        _ => false,
    }
}

/// An RGB colour.
pub open spec fn rgb_color(r: u8, g: u8, b: u8) -> Color {
    Color::Rgb { r, g, b }
}

/// The colour of a cell under an effect that depends on the cell's position
/// and flags only; `None` for the effects that read brightness or time.
pub open spec fn pattern_spec(mode: ColorMode, ctx: ColorCtx) -> Option<ColorPair> {
    let tile = effective_tile(ctx.tile);
    let x = ctx.x;
    let y = ctx.y;
    match mode {
        ColorMode::Green => Some(solid_spec(rgb_color(50, 255, 50))),
        ColorMode::Red => Some(solid_spec(rgb_color(255, 50, 50))),
        ColorMode::Blue => Some(solid_spec(rgb_color(50, 100, 255))),
        ColorMode::Yellow => Some(solid_spec(rgb_color(255, 235, 50))),
        ColorMode::Orange => Some(solid_spec(rgb_color(255, 140, 20))),
        ColorMode::Purple => Some(solid_spec(rgb_color(180, 50, 255))),
        ColorMode::Cyan => Some(solid_spec(rgb_color(50, 240, 255))),
        ColorMode::White => Some(solid_spec(rgb_color(230, 230, 230))),
        ColorMode::Checkerboard => {
            let light = checker_light_spec(x, y, tile);
            Some(
                ColorPair {
                    fg: if light { Color::Black } else { Color::White },
                    bg: Some(if light { Color::White } else { Color::Black }),
                },
            )
        },
        ColorMode::Glitch => Some(solid_spec(rgb_color(0, 255, 100))),
        ColorMode::Stripes => {
            if (x / tile) % 2 == 0 {
                Some(ColorPair { fg: rgb_color(30, 30, 40), bg: Some(rgb_color(200, 220, 255)) })
            } else {
                Some(ColorPair { fg: Color::White, bg: Some(rgb_color(20, 20, 30)) })
            }
        },
        ColorMode::Dots => {
            if checker_light_spec(x, y, tile) && (x % tile < 2 || y % tile < 2) {
                Some(solid_spec(Color::White))
            } else {
                Some(ColorPair { fg: rgb_color(30, 30, 40), bg: Some(Color::Black) })
            }
        },
        ColorMode::TrueColor => Some(solid_spec(Color::White)),
        ColorMode::Face => {
            if ctx.in_face {
                Some(solid_spec(rgb_color(255, 120, 180)))
            } else {
                Some(solid_spec(rgb_color(80, 180, 255)))
            }
        },
        _ => None,
    }
}

/// The colour of a cell under the effects that need neither brightness nor
/// time: the solid presets, checkerboard, stripes, dots, face tint, and the
/// resting colours of the glitch and true-colour effects.
pub fn pattern_color(mode: ColorMode, ctx: &ColorCtx) -> (p: Option<ColorPair>)
    ensures
        p == pattern_spec(mode, *ctx),
        p is None <==> is_shaded(mode),
{
    let tile = if ctx.tile == 0 {
        1
    } else {
        ctx.tile
    };
    let x = ctx.x;
    let y = ctx.y;
    match mode {
        ColorMode::Green => Some(solid(Color::Rgb { r: 50, g: 255, b: 50 })),
        ColorMode::Red => Some(solid(Color::Rgb { r: 255, g: 50, b: 50 })),
        ColorMode::Blue => Some(solid(Color::Rgb { r: 50, g: 100, b: 255 })),
        ColorMode::Yellow => Some(solid(Color::Rgb { r: 255, g: 235, b: 50 })),
        ColorMode::Orange => Some(solid(Color::Rgb { r: 255, g: 140, b: 20 })),
        ColorMode::Purple => Some(solid(Color::Rgb { r: 180, g: 50, b: 255 })),
        ColorMode::Cyan => Some(solid(Color::Rgb { r: 50, g: 240, b: 255 })),
        ColorMode::White => Some(solid(Color::Rgb { r: 230, g: 230, b: 230 })),
        ColorMode::Checkerboard => {
            let light = checker_light(x, y, tile);
            Some(
                ColorPair {
                    fg: if light {
                        Color::Black
                    } else {
                        Color::White
                    },
                    bg: Some(
                        if light {
                            Color::White
                        } else {
                            Color::Black
                        },
                    ),
                },
            )
        },
        ColorMode::Glitch => Some(solid(Color::Rgb { r: 0, g: 255, b: 100 })),
        ColorMode::Stripes => {
            if (x / tile) % 2 == 0 {
                Some(
                    ColorPair {
                        fg: Color::Rgb { r: 30, g: 30, b: 40 },
                        bg: Some(Color::Rgb { r: 200, g: 220, b: 255 }),
                    },
                )
            } else {
                Some(ColorPair { fg: Color::White, bg: Some(Color::Rgb { r: 20, g: 20, b: 30 }) })
            }
        },
        ColorMode::Dots => {
            let dot = checker_light(x, y, tile) && (x % tile < 2 || y % tile < 2);
            if dot {
                Some(solid(Color::White))
            } else {
                Some(ColorPair { fg: Color::Rgb { r: 30, g: 30, b: 40 }, bg: Some(Color::Black) })
            }
        },
        ColorMode::TrueColor => Some(solid(Color::White)),
        ColorMode::Face => {
            if ctx.in_face {
                Some(solid(Color::Rgb { r: 255, g: 120, b: 180 }))
            } else {
                Some(solid(Color::Rgb { r: 80, g: 180, b: 255 }))
            }
        },
        _ => None,
    }
}

/// The final colour of a cell given its base colour `base` (the colour the
/// effect gives from position, brightness and time): a glitch hit gets a
/// random foreground, the strobe effect inverts the base colour on its odd
/// phases, true colour shows the camera pixel when there is one, and every
/// other case keeps the base colour.
pub open spec fn color_at_holds(
    mode: ColorMode,
    ctx: ColorCtx,
    strobe_odd: bool,
    base: ColorPair,
    p: ColorPair,
) -> bool {
    if mode == ColorMode::Glitch && ctx.glitch_hit {
        p.fg is Rgb && p.bg is None
    } else if mode == ColorMode::Strobe && strobe_odd {
        p == invert_pair_spec(base)
    } else if mode == ColorMode::TrueColor {
        match ctx.bgr {
            Some((b, g, r)) => p == solid_spec(rgb_color(r, g, b)),
            None => p == base,
        }
    } else {
        p == base
    }
}

/// The colour of a cell. `strobe_odd` tells whether the strobe effect is in
/// its inverted phase; `base` is the effect's own colour for the cell.
pub fn color_at(mode: ColorMode, ctx: &ColorCtx, strobe_odd: bool, base: ColorPair) -> (p:
    ColorPair)
    ensures
        color_at_holds(mode, *ctx, strobe_odd, base, p),
{
    if mode == ColorMode::Glitch && ctx.glitch_hit {
        return ColorPair {
            fg: Color::Rgb { r: random_byte(), g: random_byte(), b: random_byte() },
            bg: None,
        };
    }
    if mode == ColorMode::Strobe && strobe_odd {
        return invert_pair(base);
    }
    if mode == ColorMode::TrueColor {
        if let Some((b, g, r)) = ctx.bgr {
            return solid(Color::Rgb { r, g, b });
        }
    }
    base
}

/// The 16-bit noise value of a cell for a given seed: the cell coordinates
/// and the seed mixed by xor-shifts and wrapping multiplications, low 16 bits.
pub open spec fn noise_hash_spec(x: u16, y: u16, seed: u32) -> u16 {
    let n0 = (x as u32) ^ ((y as u32) << 16u32) ^ vstd::wrapping::u32_specs::wrapping_mul(
        seed,
        0x9E37_79B9u32,
    );
    let n1 = n0 ^ (n0 >> 16u32);
    let n2 = vstd::wrapping::u32_specs::wrapping_mul(n1, 0x7FEB_352Du32);
    let n3 = n2 ^ (n2 >> 15u32);
    let n4 = vstd::wrapping::u32_specs::wrapping_mul(n3, 0x846C_AEB9u32);
    let n5 = n4 ^ (n4 >> 16u32);
    (n5 & 0xFFFFu32) as u16
}

/// The noise value of a cell; the noise effect scales it to `0.0..=1.0`.
pub fn noise_hash(x: u16, y: u16, seed: u32) -> (h: u16)
    ensures
        h == noise_hash_spec(x, y, seed),
{
    let mut n: u32 = (x as u32) ^ ((y as u32) << 16u32) ^ seed.wrapping_mul(0x9E37_79B9u32);
    n = n ^ (n >> 16u32);
    n = n.wrapping_mul(0x7FEB_352Du32);
    n = n ^ (n >> 15u32);
    n = n.wrapping_mul(0x846C_AEB9u32);
    n = n ^ (n >> 16u32);
    (n & 0xFFFFu32) as u16
}

/// The red, green and blue values of an HSV colour in each sixth of the hue
/// circle, picked from the value `v` and the three intermediates `t`, `p`, `q`
/// of the standard conversion; sectors outside `0..5` count as the last one.
pub open spec fn hsv_sector_spec<T>(sector: i32, v: T, t: T, p: T, q: T) -> (T, T, T) {
    if sector == 0 {
        (v, t, p)
    } else if sector == 1 {
        (q, v, p)
    } else if sector == 2 {
        (p, v, t)
    } else if sector == 3 {
        (p, q, v)
    } else if sector == 4 {
        (t, p, v)
    } else {
        (v, p, q)
    }
}

/// Arranges the HSV intermediates into red, green and blue for a hue sector.
pub fn hsv_sector<T: Copy>(sector: i32, v: T, t: T, p: T, q: T) -> (c: (T, T, T))
    ensures
        c == hsv_sector_spec(sector, v, t, p, q),
{
    match sector {
        0 => (v, t, p),
        1 => (q, v, p),
        2 => (p, v, t),
        3 => (p, q, v),
        4 => (t, p, v),
        _ => (v, p, q),
    }
}

/// Checkerboard tiles alternate: moving one tile right or one tile down
/// switches between light and dark.
pub proof fn lemma_checker_alternates(x: u16, y: u16, tile: u16)
    requires
        tile > 0,
    ensures
        x + tile <= u16::MAX ==> checker_light_spec((x + tile) as u16, y, tile) == !checker_light_spec(
            x,
            y,
            tile,
        ),
        y + tile <= u16::MAX ==> checker_light_spec(x, (y + tile) as u16, tile) == !checker_light_spec(
            x,
            y,
            tile,
        ),
{
    vstd::arithmetic::div_mod::lemma_div_plus_one(x as int, tile as int);
    vstd::arithmetic::div_mod::lemma_div_plus_one(y as int, tile as int);
}

/// Length and first two letters of a mode's label.
spec fn name_signature(m: ColorMode) -> (nat, char, char) {
    match m {
        ColorMode::Green => (5, 'g', 'r'),
        ColorMode::Red => (3, 'r', 'e'),
        ColorMode::Blue => (4, 'b', 'l'),
        ColorMode::Yellow => (6, 'y', 'e'),
        ColorMode::Orange => (6, 'o', 'r'),
        ColorMode::Purple => (6, 'p', 'u'),
        ColorMode::Cyan => (4, 'c', 'y'),
        ColorMode::White => (5, 'w', 'h'),
        ColorMode::Rainbow => (7, 'r', 'a'),
        ColorMode::Checkerboard => (12, 'c', 'h'),
        ColorMode::Matrix => (6, 'm', 'a'),
        ColorMode::Heatmap => (7, 'h', 'e'),
        ColorMode::Grayscale => (9, 'g', 'r'),
        ColorMode::Neon => (4, 'n', 'e'),
        ColorMode::Sepia => (5, 's', 'e'),
        ColorMode::Complement => (10, 'c', 'o'),
        ColorMode::Scanlines => (9, 's', 'c'),
        ColorMode::Vignette => (8, 'v', 'i'),
        ColorMode::Fire => (4, 'f', 'i'),
        ColorMode::Ocean => (5, 'o', 'c'),
        ColorMode::Synthwave => (9, 's', 'y'),
        ColorMode::Duotone => (7, 'd', 'u'),
        ColorMode::Pulse => (5, 'p', 'u'),
        ColorMode::Wave => (4, 'w', 'a'),
        ColorMode::Glitch => (6, 'g', 'l'),
        ColorMode::Strobe => (6, 's', 't'),
        ColorMode::Aurora => (6, 'a', 'u'),
        ColorMode::Stripes => (7, 's', 't'),
        ColorMode::Dots => (4, 'd', 'o'),
        ColorMode::Radial => (6, 'r', 'a'),
        ColorMode::Noise => (5, 'n', 'o'),
        ColorMode::TrueColor => (9, 't', 'r'),
        ColorMode::Face => (4, 'f', 'a'),
    }
}

proof fn lemma_name_signature(m: ColorMode)
    ensures
        m.name_spec().len() == name_signature(m).0,
        m.name_spec()[0] == name_signature(m).1,
        m.name_spec()[1] == name_signature(m).2,
{
    reveal_strlit("green");
    reveal_strlit("red");
    reveal_strlit("blue");
    reveal_strlit("yellow");
    reveal_strlit("orange");
    reveal_strlit("purple");
    reveal_strlit("cyan");
    reveal_strlit("white");
    reveal_strlit("rainbow");
    reveal_strlit("checkerboard");
    reveal_strlit("matrix");
    reveal_strlit("heatmap");
    reveal_strlit("grayscale");
    reveal_strlit("neon");
    reveal_strlit("sepia");
    reveal_strlit("complement");
    reveal_strlit("scanlines");
    reveal_strlit("vignette");
    reveal_strlit("fire");
    reveal_strlit("ocean");
    reveal_strlit("synthwave");
    reveal_strlit("duotone");
    reveal_strlit("pulse");
    reveal_strlit("wave");
    reveal_strlit("glitch");
    reveal_strlit("strobe");
    reveal_strlit("aurora");
    reveal_strlit("stripes");
    reveal_strlit("dots");
    reveal_strlit("radial");
    reveal_strlit("noise");
    reveal_strlit("truecolor");
    reveal_strlit("face");
}

/// The status bar tells the effects apart: different modes have different labels.
pub proof fn lemma_color_names_distinct(a: ColorMode, b: ColorMode)
    ensures
        a != b ==> a.name_spec() != b.name_spec(),
{
    lemma_name_signature(a);
    lemma_name_signature(b);
    if a.name_spec() == b.name_spec() {
        assert(name_signature(a) == name_signature(b));
    }
}

/// True colour shows the camera pixel whenever there is one, whatever the
/// strobe phase and the base colour: the blue-green-red pixel `(b, g, r)`
/// becomes the foreground `Rgb { r, g, b }` with no background.
pub proof fn lemma_true_color_shows_camera(
    ctx: ColorCtx,
    strobe_odd: bool,
    base: ColorPair,
    p: ColorPair,
    b: u8,
    g: u8,
    r: u8,
)
    requires
        ctx.bgr == Some((b, g, r)),
        color_at_holds(ColorMode::TrueColor, ctx, strobe_odd, base, p),
    ensures
        p == (ColorPair { fg: Color::Rgb { r, g, b }, bg: None }),
{
}

/// The strobe phase matters only to the strobe effect, a glitch hit only to
/// the glitch effect, and the camera pixel only to true colour; every other
/// effect keeps its base colour.
pub proof fn lemma_overrides_are_local(
    mode: ColorMode,
    ctx: ColorCtx,
    strobe_odd: bool,
    base: ColorPair,
    p: ColorPair,
)
    requires
        color_at_holds(mode, ctx, strobe_odd, base, p),
    ensures
        mode != ColorMode::Strobe ==> color_at_holds(mode, ctx, !strobe_odd, base, p),
        mode != ColorMode::Glitch && mode != ColorMode::Strobe && mode != ColorMode::TrueColor
            ==> p == base,
        mode == ColorMode::Strobe && !strobe_odd ==> p == base,
        mode == ColorMode::TrueColor && ctx.bgr is None ==> p == base,
        mode == ColorMode::Glitch && !ctx.glitch_hit ==> p == base,
        mode == ColorMode::Glitch && ctx.glitch_hit ==> p.bg is None,
{
}

/// On its odd phases the strobe effect shows the negative of the base
/// colour: each channel `v` of an RGB foreground becomes `255 - v`, and an
/// absent background stays absent.
pub proof fn lemma_strobe_negates(ctx: ColorCtx, base: ColorPair, p: ColorPair, r: u8, g: u8, b: u8)
    requires
        base.fg == (Color::Rgb { r, g, b }),
        color_at_holds(ColorMode::Strobe, ctx, true, base, p),
    ensures
        p.fg == (Color::Rgb { r: (255 - r) as u8, g: (255 - g) as u8, b: (255 - b) as u8 }),
        base.bg is None ==> p.bg is None,
        base.bg is Some ==> p.bg is Some,
{
}

/// The solid presets and the resting glitch and true-colour colours ignore
/// the cell: two cells get the same colour, with no background.
pub proof fn lemma_solid_effects_ignore_position(mode: ColorMode, a: ColorCtx, b: ColorCtx)
    requires
        0 <= mode.order() < 8 || mode == ColorMode::Glitch || mode == ColorMode::TrueColor,
    ensures
        pattern_spec(mode, a) == pattern_spec(mode, b),
        pattern_spec(mode, a) matches Some(p) && p.bg is None,
{
}

/// The checkerboard draws black on white in light tiles and white on black
/// in dark ones, and the face tint depends only on whether the cell is in the
/// face, with two different tints.
pub proof fn lemma_checkerboard_and_face(ctx: ColorCtx, other: ColorCtx)
    ensures
        pattern_spec(ColorMode::Checkerboard, ctx) == Some(
            if checker_light_spec(ctx.x, ctx.y, effective_tile(ctx.tile)) {
                ColorPair { fg: Color::Black, bg: Some(Color::White) }
            } else {
                ColorPair { fg: Color::White, bg: Some(Color::Black) }
            },
        ),
        ctx.in_face == other.in_face ==> pattern_spec(ColorMode::Face, ctx) == pattern_spec(
            ColorMode::Face,
            other,
        ),
        ctx.in_face != other.in_face ==> pattern_spec(ColorMode::Face, ctx) != pattern_spec(
            ColorMode::Face,
            other,
        ),
{
}

/// The tile at the origin is light for every tile size, as is every cell of it.
pub proof fn lemma_checker_origin_light(x: u16, y: u16, tile: u16)
    requires
        0 < tile,
        x < tile,
        y < tile,
    ensures
        checker_light_spec(x, y, tile),
{
    vstd::arithmetic::div_mod::lemma_basic_div(x as int, tile as int);
    vstd::arithmetic::div_mod::lemma_basic_div(y as int, tile as int);
}

/// Stripes alternate every tile width across the picture and do not change
/// down a column.
pub proof fn lemma_stripes_alternate(ctx: ColorCtx, x2: u16, y2: u16)
    requires
        ctx.tile > 0,
        ctx.x + ctx.tile <= u16::MAX,
        x2 == ctx.x + ctx.tile,
    ensures
        pattern_spec(ColorMode::Stripes, ctx) != pattern_spec(
            ColorMode::Stripes,
            ColorCtx { x: x2, ..ctx },
        ),
        pattern_spec(ColorMode::Stripes, ctx) == pattern_spec(
            ColorMode::Stripes,
            ColorCtx { y: y2, ..ctx },
        ),
{
    vstd::arithmetic::div_mod::lemma_div_plus_one(ctx.x as int, ctx.tile as int);
}

} // verus!
