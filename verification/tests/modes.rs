use asciitubing::color::ColorMode;
use asciitubing::ramp::RampMode;

#[test]
fn color_next_follows_cycle_order() {
    assert_eq!(ColorMode::Green.next(), ColorMode::Red);
    assert_eq!(ColorMode::White.next(), ColorMode::Rainbow);
    assert_eq!(ColorMode::TrueColor.next(), ColorMode::Face);
    assert_eq!(ColorMode::Face.next(), ColorMode::Green);
}

#[test]
fn color_cycle_visits_every_mode_once() {
    let all = ColorMode::all();
    assert_eq!(all.len(), 33);
    let mut m = ColorMode::Green;
    for (i, expected) in all.iter().enumerate() {
        assert_eq!(m, *expected, "place {}", i);
        m = m.next();
    }
    assert_eq!(m, ColorMode::Green);
    for i in 0..all.len() {
        for j in 0..all.len() {
            if i != j {
                assert_ne!(all[i], all[j]);
                assert_ne!(all[i].name(), all[j].name());
            }
        }
    }
}

#[test]
fn from_digit_presets() {
    assert_eq!(ColorMode::from_digit(0), None);
    assert_eq!(ColorMode::from_digit(1), Some(ColorMode::Green));
    assert_eq!(ColorMode::from_digit(2), Some(ColorMode::Red));
    assert_eq!(ColorMode::from_digit(3), Some(ColorMode::Blue));
    assert_eq!(ColorMode::from_digit(4), Some(ColorMode::Yellow));
    assert_eq!(ColorMode::from_digit(5), Some(ColorMode::Orange));
    assert_eq!(ColorMode::from_digit(6), Some(ColorMode::Purple));
    assert_eq!(ColorMode::from_digit(7), Some(ColorMode::Cyan));
    assert_eq!(ColorMode::from_digit(8), Some(ColorMode::White));
    assert_eq!(ColorMode::from_digit(9), Some(ColorMode::Rainbow));
    assert_eq!(ColorMode::from_digit(10), None);
    assert_eq!(ColorMode::from_digit(255), None);
}

#[test]
fn color_names_match_readme() {
    let expected = [
        "green", "red", "blue", "yellow", "orange", "purple", "cyan", "white", "rainbow",
        "checkerboard", "matrix", "heatmap", "grayscale", "neon", "sepia", "complement",
        "scanlines", "vignette", "fire", "ocean", "synthwave", "duotone", "pulse", "wave",
        "glitch", "strobe", "aurora", "stripes", "dots", "radial", "noise", "truecolor", "face",
    ];
    let all = ColorMode::all();
    for (m, n) in all.iter().zip(expected.iter()) {
        assert_eq!(m.name(), *n);
    }
}

#[test]
fn ramp_next_and_names() {
    let all = RampMode::all();
    let names = ["normal", "dense", "sparse", "inverted", "block4", "block8", "edge", "dither"];
    assert_eq!(all.len(), 8);
    for (m, n) in all.iter().zip(names.iter()) {
        assert_eq!(m.name(), *n);
    }
    assert_eq!(RampMode::Normal.next(), RampMode::Dense);
    assert_eq!(RampMode::Edge.next(), RampMode::Dither);
    assert_eq!(RampMode::Dither.next(), RampMode::Normal);
    let mut m = RampMode::Sparse;
    for _ in 0..8 {
        m = m.next();
    }
    assert_eq!(m, RampMode::Sparse);
}
