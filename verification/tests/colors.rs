use asciitubing::color::{
    checker_light, color_at, hsv_sector, noise_hash, pattern_color, ColorCtx, ColorMode,
};
use asciitubing::palette::{
    invert_color, invert_pair, rgb, solid, term_color_rgb, Color, ColorPair,
};

fn ctx(x: u16, y: u16, tile: u16) -> ColorCtx {
    ColorCtx {
        x,
        y,
        cols: 80,
        rows: 24,
        tile,
        glitch_hit: false,
        in_face: false,
        bgr: None,
    }
}

fn rgbc(r: u8, g: u8, b: u8) -> Color {
    Color::Rgb { r, g, b }
}

#[test]
fn rgb_reads_effect_colours() {
    assert_eq!(rgb(rgbc(1, 2, 3)), (1, 2, 3));
    assert_eq!(rgb(Color::Black), (0, 0, 0));
    assert_eq!(rgb(Color::White), (255, 255, 255));
    assert_eq!(rgb(Color::DarkGrey), (128, 128, 128));
    assert_eq!(rgb(Color::AnsiValue(7)), (128, 128, 128));
}

#[test]
fn term_rgb_table() {
    assert_eq!(term_color_rgb(rgbc(9, 8, 7)), (9, 8, 7));
    assert_eq!(term_color_rgb(Color::Black), (0, 0, 0));
    assert_eq!(term_color_rgb(Color::White), (255, 255, 255));
    assert_eq!(term_color_rgb(Color::DarkGrey), (80, 80, 80));
    assert_eq!(term_color_rgb(Color::Grey), (128, 128, 128));
    assert_eq!(term_color_rgb(Color::Red), (255, 0, 0));
    assert_eq!(term_color_rgb(Color::Green), (0, 255, 0));
    assert_eq!(term_color_rgb(Color::Blue), (0, 0, 255));
    assert_eq!(term_color_rgb(Color::Yellow), (255, 255, 0));
    assert_eq!(term_color_rgb(Color::Cyan), (0, 255, 255));
    assert_eq!(term_color_rgb(Color::Magenta), (255, 0, 255));
    assert_eq!(term_color_rgb(Color::DarkRed), (200, 200, 200));
    assert_eq!(term_color_rgb(Color::Reset), (200, 200, 200));
    assert_eq!(term_color_rgb(Color::AnsiValue(3)), (200, 200, 200));
}

#[test]
fn invert_is_negative_and_undoes_itself() {
    assert_eq!(invert_color(rgbc(10, 200, 255)), rgbc(245, 55, 0));
    assert_eq!(invert_color(Color::White), rgbc(0, 0, 0));
    assert_eq!(invert_color(Color::Black), rgbc(255, 255, 255));
    assert_eq!(invert_color(Color::Magenta), rgbc(127, 127, 127));
    let c = rgbc(12, 34, 56);
    assert_eq!(invert_color(invert_color(c)), c);
    let p = ColorPair { fg: rgbc(1, 2, 3), bg: Some(rgbc(4, 5, 6)) };
    assert_eq!(
        invert_pair(p),
        ColorPair { fg: rgbc(254, 253, 252), bg: Some(rgbc(251, 250, 249)) }
    );
    assert_eq!(invert_pair(invert_pair(p)), p);
    assert_eq!(invert_pair(solid(Color::White)), solid(rgbc(0, 0, 0)));
}

#[test]
fn checkerboard_tiles_alternate() {
    assert!(checker_light(0, 0, 10));
    assert!(checker_light(9, 9, 10));
    assert!(!checker_light(10, 0, 10));
    assert!(!checker_light(0, 10, 10));
    assert!(checker_light(10, 10, 10));
    assert!(checker_light(65535, 65535, 1));
    assert!(!checker_light(65535, 65534, 1));
}

#[test]
fn solid_presets() {
    let c = ctx(3, 4, 100);
    let cases = [
        (ColorMode::Green, rgbc(50, 255, 50)),
        (ColorMode::Red, rgbc(255, 50, 50)),
        (ColorMode::Blue, rgbc(50, 100, 255)),
        (ColorMode::Yellow, rgbc(255, 235, 50)),
        (ColorMode::Orange, rgbc(255, 140, 20)),
        (ColorMode::Purple, rgbc(180, 50, 255)),
        (ColorMode::Cyan, rgbc(50, 240, 255)),
        (ColorMode::White, rgbc(230, 230, 230)),
        (ColorMode::Glitch, rgbc(0, 255, 100)),
        (ColorMode::TrueColor, Color::White),
    ];
    for (m, col) in cases.iter() {
        assert_eq!(pattern_color(*m, &c), Some(ColorPair { fg: *col, bg: None }));
    }
}

#[test]
fn patterned_effects() {
    assert_eq!(
        pattern_color(ColorMode::Checkerboard, &ctx(0, 0, 4)),
        Some(ColorPair { fg: Color::Black, bg: Some(Color::White) })
    );
    assert_eq!(
        pattern_color(ColorMode::Checkerboard, &ctx(4, 0, 4)),
        Some(ColorPair { fg: Color::White, bg: Some(Color::Black) })
    );
    // a zero tile size counts as one
    assert_eq!(
        pattern_color(ColorMode::Checkerboard, &ctx(1, 0, 0)),
        Some(ColorPair { fg: Color::White, bg: Some(Color::Black) })
    );
    assert_eq!(
        pattern_color(ColorMode::Stripes, &ctx(3, 7, 4)),
        Some(ColorPair { fg: rgbc(30, 30, 40), bg: Some(rgbc(200, 220, 255)) })
    );
    assert_eq!(
        pattern_color(ColorMode::Stripes, &ctx(4, 7, 4)),
        Some(ColorPair { fg: Color::White, bg: Some(rgbc(20, 20, 30)) })
    );
    assert_eq!(pattern_color(ColorMode::Dots, &ctx(1, 3, 4)), Some(solid(Color::White)));
    assert_eq!(
        pattern_color(ColorMode::Dots, &ctx(2, 3, 4)),
        Some(ColorPair { fg: rgbc(30, 30, 40), bg: Some(Color::Black) })
    );
    assert_eq!(
        pattern_color(ColorMode::Dots, &ctx(4, 0, 4)),
        Some(ColorPair { fg: rgbc(30, 30, 40), bg: Some(Color::Black) })
    );
    let mut face = ctx(5, 5, 4);
    assert_eq!(pattern_color(ColorMode::Face, &face), Some(solid(rgbc(80, 180, 255))));
    face.in_face = true;
    assert_eq!(pattern_color(ColorMode::Face, &face), Some(solid(rgbc(255, 120, 180))));
}

#[test]
fn shaded_effects_have_no_pattern_colour() {
    for m in [
        ColorMode::Rainbow,
        ColorMode::Matrix,
        ColorMode::Heatmap,
        ColorMode::Grayscale,
        ColorMode::Neon,
        ColorMode::Sepia,
        ColorMode::Complement,
        ColorMode::Scanlines,
        ColorMode::Vignette,
        ColorMode::Fire,
        ColorMode::Ocean,
        ColorMode::Synthwave,
        ColorMode::Duotone,
        ColorMode::Pulse,
        ColorMode::Wave,
        ColorMode::Strobe,
        ColorMode::Aurora,
        ColorMode::Radial,
        ColorMode::Noise,
    ] {
        assert_eq!(pattern_color(m, &ctx(1, 1, 10)), None);
    }
}

#[test]
fn color_at_dispatch() {
    let base = ColorPair { fg: rgbc(10, 20, 30), bg: Some(rgbc(0, 0, 0)) };
    let mut c = ctx(0, 0, 10);
    assert_eq!(color_at(ColorMode::Matrix, &c, true, base), base);
    assert_eq!(color_at(ColorMode::Strobe, &c, false, base), base);
    assert_eq!(
        color_at(ColorMode::Strobe, &c, true, base),
        ColorPair { fg: rgbc(245, 235, 225), bg: Some(rgbc(255, 255, 255)) }
    );
    assert_eq!(color_at(ColorMode::TrueColor, &c, false, base), base);
    c.bgr = Some((1, 2, 3));
    assert_eq!(color_at(ColorMode::TrueColor, &c, false, base), solid(rgbc(3, 2, 1)));
    assert_eq!(color_at(ColorMode::Glitch, &c, false, base), base);
    c.glitch_hit = true;
    let g = color_at(ColorMode::Glitch, &c, false, base);
    assert!(matches!(g.fg, Color::Rgb { .. }));
    assert_eq!(g.bg, None);
    // only the glitch effect reacts to a hit
    assert_eq!(color_at(ColorMode::Green, &c, true, base), base);
}

#[test]
fn noise_hash_values() {
    assert_eq!(noise_hash(0, 0, 0), 0);
    assert_eq!(noise_hash(1, 2, 3), 1815);
    assert_eq!(noise_hash(640, 480, 123456), 65411);
    assert_eq!(noise_hash(65535, 65535, 4294967295), 58064);
}

#[test]
fn hsv_sectors() {
    assert_eq!(hsv_sector(0, 'v', 't', 'p', 'q'), ('v', 't', 'p'));
    assert_eq!(hsv_sector(1, 'v', 't', 'p', 'q'), ('q', 'v', 'p'));
    assert_eq!(hsv_sector(2, 'v', 't', 'p', 'q'), ('p', 'v', 't'));
    assert_eq!(hsv_sector(3, 'v', 't', 'p', 'q'), ('p', 'q', 'v'));
    assert_eq!(hsv_sector(4, 'v', 't', 'p', 'q'), ('t', 'p', 'v'));
    assert_eq!(hsv_sector(5, 'v', 't', 'p', 'q'), ('v', 'p', 'q'));
    assert_eq!(hsv_sector(-1, 'v', 't', 'p', 'q'), ('v', 'p', 'q'));
}
