use asciitubing::controls::{Controls, FramePlan};
use asciitubing::frame::{face_contains, FrameCounts, Rect};
use asciitubing::glitch::GlitchState;
use asciitubing::ramp::{
    bayer_threshold, block_index, idx_to_char, ramp_char, RampMode, BAYER_4, RAMP_FULL,
    RAMP_SPARSE,
};

#[test]
fn ramps_match_readme() {
    assert_eq!(RAMP_FULL.len(), 70);
    assert_eq!(RAMP_FULL[0], ' ');
    assert_eq!(RAMP_FULL[69], '$');
    let sparse: String = RAMP_SPARSE.iter().collect();
    assert_eq!(sparse, " .:-=+*#%@");
}

#[test]
fn ramp_char_clamps_to_the_ramp() {
    assert_eq!(ramp_char(RampMode::Normal, 0), ' ');
    assert_eq!(ramp_char(RampMode::Normal, 69), '$');
    assert_eq!(ramp_char(RampMode::Normal, 70), '$');
    assert_eq!(ramp_char(RampMode::Normal, usize::MAX), '$');
    assert_eq!(ramp_char(RampMode::Dense, 30), RAMP_FULL[30]);
    assert_eq!(ramp_char(RampMode::Sparse, 4), '=');
    assert_eq!(ramp_char(RampMode::Sparse, 9), '@');
    assert_eq!(ramp_char(RampMode::Sparse, 10), '@');
    assert_eq!(ramp_char(RampMode::Dither, 1), '.');
    assert_eq!(idx_to_char(2, &RAMP_SPARSE), ':');
}

#[test]
fn block_levels_spread_over_the_ramp() {
    assert_eq!(block_index(0, 4), 0);
    assert_eq!(block_index(1, 4), 17);
    assert_eq!(block_index(2, 4), 34);
    assert_eq!(block_index(3, 4), 51);
    assert_eq!(block_index(4, 4), 69);
    assert_eq!(block_index(1, 8), 8);
    assert_eq!(block_index(8, 8), 69);
}

#[test]
fn bayer_thresholds() {
    assert_eq!(bayer_threshold(0, 0), 0);
    assert_eq!(bayer_threshold(1, 0), 8);
    assert_eq!(bayer_threshold(5, 6), 11);
    assert_eq!(bayer_threshold(2, 1), 14);
    assert_eq!(bayer_threshold(7, 7), 5);
    let mut seen = [false; 16];
    for row in BAYER_4.iter() {
        for v in row.iter() {
            assert!(!seen[*v as usize]);
            seen[*v as usize] = true;
        }
    }
    assert!(seen.iter().all(|s| *s));
}

#[test]
fn glitch_counts_down_and_hits_its_columns() {
    let mut g = GlitchState::new();
    assert!(!g.hit(0));
    g.react(20, 80);
    assert_eq!(g.frames_left, 0);
    assert!(g.columns.is_empty());
    g.react(19, 80);
    assert_eq!(g.frames_left, 2);
    assert!(!g.columns.is_empty() && g.columns.len() <= 8);
    assert!(g.columns.iter().all(|c| *c < 80));
    let col = g.columns[0];
    assert!(g.hit(col));
    let cols = g.columns.clone();
    g.tick(80);
    assert_eq!(g.frames_left, 1);
    assert_eq!(g.columns, cols);
    assert!(g.hit(col));
    g.tick(80);
    assert_eq!(g.frames_left, 0);
    assert!(!g.hit(col));
}

#[test]
fn glitch_burst_columns_fit_narrow_picture() {
    for _ in 0..50 {
        let mut g = GlitchState::new();
        g.react(0, 1);
        assert!(g.columns.iter().all(|c| *c == 0));
        assert!(g.hit(0));
        assert!(!g.hit(1));
    }
}

#[test]
fn keys_change_settings() {
    let mut c = Controls::new();
    assert_eq!(c.tile_size, 100);
    assert!(c.running);
    assert!(!c.handle_key('c'));
    assert_eq!(c.color_mode.name(), "red");
    c.handle_key('C');
    assert_eq!(c.color_mode.name(), "blue");
    c.handle_key('b');
    assert_eq!(c.ramp_mode, RampMode::Dense);
    c.handle_key('m');
    c.handle_key('p');
    c.handle_key('I');
    assert!(c.mirror && c.paused && c.invert_lum);
    c.handle_key('M');
    assert!(!c.mirror);
    c.handle_key('9');
    assert_eq!(c.color_mode.name(), "rainbow");
    let before = c;
    c.handle_key('0');
    assert_eq!(c, before);
    c.handle_key('x');
    assert_eq!(c, before);
    assert!(c.handle_key('s'));
    assert!(c.handle_key('S'));
    assert_eq!(c, before);
    c.handle_key('Q');
    assert!(!c.running);
    assert_eq!(Controls { running: true, ..c }, before);
}

#[test]
fn tile_size_steps_and_limits() {
    let mut c = Controls::new();
    c.handle_key('+');
    assert_eq!(c.tile_size, 110);
    c.handle_key('=');
    assert_eq!(c.tile_size, 120);
    c.handle_key('-');
    c.handle_key('_');
    assert_eq!(c.tile_size, 100);
    for _ in 0..40 {
        c.handle_key('+');
    }
    assert_eq!(c.tile_size, 300);
    for _ in 0..40 {
        c.handle_key('-');
    }
    assert_eq!(c.tile_size, 4);
    c.tile_size = 295;
    c.handle_key('+');
    assert_eq!(c.tile_size, 300);
    c.tile_size = 12;
    c.handle_key('-');
    assert_eq!(c.tile_size, 4);
    c.tile_size = 65530;
    c.handle_key('+');
    assert_eq!(c.tile_size, 300);
}

#[test]
fn frame_plans() {
    let mut c = Controls::new();
    assert_eq!(c.plan_frame(80, 1), FramePlan::Wait);
    assert_eq!(c.plan_frame(0, 24), FramePlan::Wait);
    assert_eq!(c.plan_frame(80, 0), FramePlan::Wait);
    assert_eq!(
        c.plan_frame(80, 24),
        FramePlan::Draw { width: 80, height: 23, status_row: 23, capture: true, edges: false }
    );
    c.handle_key('p');
    for _ in 0..6 {
        c.handle_key('b');
    }
    assert_eq!(c.ramp_mode, RampMode::Edge);
    assert_eq!(
        c.plan_frame(1, 2),
        FramePlan::Draw { width: 1, height: 1, status_row: 1, capture: false, edges: true }
    );
}

#[test]
fn face_rectangle_bounds() {
    let r = Rect { x: 10, y: 20, width: 5, height: 3 };
    assert!(r.contains(10, 20));
    assert!(r.contains(14, 22));
    assert!(!r.contains(15, 22));
    assert!(!r.contains(14, 23));
    assert!(!r.contains(9, 20));
    assert!(!face_contains(None, 10, 20));
    assert!(face_contains(Some(r), 12, 21));
    let big = Rect { x: i32::MAX - 1, y: 0, width: 10, height: 1 };
    assert!(big.contains(i32::MAX, 0));
}

#[test]
fn frame_counts_add_up() {
    let mut f = FrameCounts::new();
    assert_eq!((f.dark(), f.light(), f.total()), (0, 0, 0));
    f.record(true);
    f.record(false);
    f.record(true);
    assert_eq!((f.dark(), f.light(), f.total()), (2, 1, 3));
}
