use vstd::prelude::*;

use crate::color::ColorMode;
use crate::ramp::RampMode;

verus! {

/// Smallest tile size of the patterned effects.
pub const TILE_MIN: u16 = 4;

/// Largest tile size of the patterned effects.
pub const TILE_MAX: u16 = 300;

/// How much `+` and `-` change the tile size.
pub const TILE_STEP: u16 = 10;

/// The tile size at start-up.
pub const TILE_DEFAULT: u16 = 100;

/// The viewer's settings, changed by the keyboard.
#[derive(Clone, Copy, PartialEq, Eq, Debug, Structural)]
pub struct Controls {
    pub color_mode: ColorMode,
    pub ramp_mode: RampMode,
    pub mirror: bool,
    pub paused: bool,
    pub invert_lum: bool,
    pub tile_size: u16,
    pub running: bool,
}

/// What the main loop does with a frame.
#[derive(Clone, Copy, PartialEq, Eq, Debug, Structural)]
pub enum FramePlan {
    /// The terminal is too small to draw in: wait and try again.
    Wait,
    /// Draw a picture `width` by `height` cells, with the status bar on row
    /// `status_row`; grab a new camera frame when `capture` is set, and compute
    /// edge strengths when `edges` is set.
    Draw { width: u16, height: u16, status_row: u16, capture: bool, edges: bool },
}

/// The tile size after `+`: ten more, capped at the largest size.
pub open spec fn grow_tile_spec(t: u16) -> u16 {
    if t + TILE_STEP >= TILE_MAX {
        TILE_MAX
    } else {
        (t + TILE_STEP) as u16
    }
}

/// The tile size after `-`: ten less, but never below the smallest size.
pub open spec fn shrink_tile_spec(t: u16) -> u16 {
    if t >= TILE_MIN + TILE_STEP {
        (t - TILE_STEP) as u16
    } else {
        TILE_MIN
    }
}

/// `+` and `=` grow the tiles.
pub fn grow_tile(t: u16) -> (n: u16)
    ensures
        n == grow_tile_spec(t),
{
    let bigger = t.saturating_add(TILE_STEP);
    if bigger < TILE_MAX {
        bigger
    } else {
        TILE_MAX
    }
}

/// `-` and `_` shrink the tiles.
pub fn shrink_tile(t: u16) -> (n: u16)
    ensures
        n == shrink_tile_spec(t),
{
    let smaller = t.saturating_sub(TILE_STEP);
    if smaller > TILE_MIN {
        smaller
    } else {
        TILE_MIN
    }
}

/// Whether a key asks for a snapshot of the picture.
pub open spec fn requests_snapshot(key: char) -> bool {
    key == 's' || key == 'S'
}

/// The value of a decimal digit key.
pub open spec fn digit_value(key: char) -> u8 {
    ((key as u32) - ('0' as u32)) as u8
}

impl Controls {
    /// The settings at start-up: green, normal ramp, no mirror, not paused,
    /// not inverted, tile size 100, running.
    pub open spec fn initial() -> Controls {
        Controls {
            color_mode: ColorMode::Green,
            ramp_mode: RampMode::Normal,
            mirror: false,
            paused: false,
            invert_lum: false,
            tile_size: TILE_DEFAULT,
            running: true,
        }
    }

    /// The settings after a key press: `q` stops, `c` and `b` cycle the colour
    /// effect and the ramp, `m`, `p` and `i` toggle mirror, pause and
    /// inversion (each also in upper case), `+`/`=` and `-`/`_` resize the
    /// tiles, digits `1`..`9` jump to a preset colour, and every other key
    /// (snapshots included) changes nothing.
    pub open spec fn after_key(self, key: char) -> Controls {
        if key == 'q' || key == 'Q' {
            Controls { running: false, ..self }
        } else if key == 'c' || key == 'C' {
            Controls { color_mode: self.color_mode.next_spec(), ..self }
        } else if key == 'b' || key == 'B' {
            Controls { ramp_mode: self.ramp_mode.next_spec(), ..self }
        } else if key == 'm' || key == 'M' {
            Controls { mirror: !self.mirror, ..self }
        } else if key == 'p' || key == 'P' {
            Controls { paused: !self.paused, ..self }
        } else if key == 'i' || key == 'I' {
            Controls { invert_lum: !self.invert_lum, ..self }
        } else if key == '+' || key == '=' {
            Controls { tile_size: grow_tile_spec(self.tile_size), ..self }
        } else if key == '-' || key == '_' {
            Controls { tile_size: shrink_tile_spec(self.tile_size), ..self }
        } else if '0' <= key <= '9' {
            match ColorMode::from_digit_spec(digit_value(key)) {
                Some(m) => Controls { color_mode: m, ..self },
                None => self,
            }
        } else {
            self
        }
    }

    /// The start-up settings.
    pub fn new() -> (c: Controls)
        ensures
            c == Self::initial(),
    {
        Controls {
            color_mode: ColorMode::Green,
            ramp_mode: RampMode::Normal,
            mirror: false,
            paused: false,
            invert_lum: false,
            tile_size: TILE_DEFAULT,
            running: true,
        }
    }

    /// Applies a key press; returns whether the key asks for a snapshot.
    pub fn handle_key(&mut self, key: char) -> (snapshot: bool)
        ensures
            *final(self) == old(self).after_key(key),
            snapshot == requests_snapshot(key),
    {
        if key == 'q' || key == 'Q' {
            self.running = false;
        } else if key == 'c' || key == 'C' {
            self.color_mode = self.color_mode.next();
        } else if key == 'b' || key == 'B' {
            self.ramp_mode = self.ramp_mode.next();
        } else if key == 'm' || key == 'M' {
            self.mirror = !self.mirror;
        } else if key == 'p' || key == 'P' {
            self.paused = !self.paused;
        } else if key == 'i' || key == 'I' {
            self.invert_lum = !self.invert_lum;
        } else if key == 's' || key == 'S' {
            return true;
        } else if key == '+' || key == '=' {
            self.tile_size = grow_tile(self.tile_size);
        } else if key == '-' || key == '_' {
            self.tile_size = shrink_tile(self.tile_size);
        } else if '0' <= key && key <= '9' {
            let d = ((key as u32) - ('0' as u32)) as u8;
            if let Some(m) = ColorMode::from_digit(d) {
                self.color_mode = m;
            }
        }
        false
    }

    /// What to do with the next frame in a terminal of `term_cols` by
    /// `term_rows` cells: the picture takes every row but the last, which
    /// holds the status bar; with no room for a picture, wait.
    pub fn plan_frame(&self, term_cols: u16, term_rows: u16) -> (p: FramePlan)
        ensures
            p == (if term_cols == 0 || term_rows <= 1 {
                FramePlan::Wait
            } else {
                FramePlan::Draw {
                    width: term_cols,
                    height: (term_rows - 1) as u16,
                    status_row: (term_rows - 1) as u16,
                    capture: !self.paused,
                    edges: self.ramp_mode == RampMode::Edge,
                }
            }),
    {
        let height = term_rows.saturating_sub(1);
        if term_cols == 0 || height == 0 {
            FramePlan::Wait
        } else {
            FramePlan::Draw {
                width: term_cols,
                height,
                status_row: term_rows - 1,
                capture: !self.paused,
                edges: self.ramp_mode == RampMode::Edge,
            }
        }
    }
}

/// The tile size stays between the smallest and the largest size whatever
/// keys are pressed, starting from the start-up settings.
pub proof fn lemma_tile_stays_in_range(c: Controls, key: char)
    requires
        TILE_MIN <= c.tile_size <= TILE_MAX,
    ensures
        TILE_MIN <= c.after_key(key).tile_size <= TILE_MAX,
        TILE_MIN <= Controls::initial().tile_size <= TILE_MAX,
{
}

/// `+` then `-` gives back the tile size unless `+` hit the cap, and `-`
/// then `+` gives it back unless `-` hit the floor.
pub proof fn lemma_tile_steps_undo(t: u16)
    ensures
        TILE_MIN <= t <= TILE_MAX - TILE_STEP ==> shrink_tile_spec(grow_tile_spec(t)) == t,
        TILE_MIN + TILE_STEP <= t <= TILE_MAX ==> grow_tile_spec(shrink_tile_spec(t)) == t,
{
}

/// Pressing a toggle key (`m`, `p`, `i`) twice restores the settings.
pub proof fn lemma_toggles_undo(c: Controls, key: char)
    requires
        key == 'm' || key == 'M' || key == 'p' || key == 'P' || key == 'i' || key == 'I',
    ensures
        c.after_key(key).after_key(key) == c,
{
}

/// `q` stops the viewer and changes nothing else, and no key starts it again.
pub proof fn lemma_quit_is_final(c: Controls, key: char)
    ensures
        c.after_key('q') == (Controls { running: false, ..c }),
        !c.running ==> !c.after_key(key).running,
{
}

/// Digit keys `1` to `9` jump to the first nine colour effects (green, red,
/// blue, yellow, orange, purple, cyan, white, rainbow); `0` changes nothing.
pub proof fn lemma_digit_presets(c: Controls, key: char)
    requires
        '0' <= key <= '9',
    ensures
        key == '0' ==> c.after_key(key) == c,
        key != '0' ==> c.after_key(key) == (Controls {
            color_mode: ColorMode::all_seq()[digit_value(key) - 1],
            ..c
        }),
{
}

/// Each toggle key, in lower and upper case, flips its own setting and
/// changes nothing else.
pub proof fn lemma_toggle_keys(c: Controls)
    ensures
        c.after_key('m') == (Controls { mirror: !c.mirror, ..c }),
        c.after_key('M') == (Controls { mirror: !c.mirror, ..c }),
        c.after_key('p') == (Controls { paused: !c.paused, ..c }),
        c.after_key('P') == (Controls { paused: !c.paused, ..c }),
        c.after_key('i') == (Controls { invert_lum: !c.invert_lum, ..c }),
        c.after_key('I') == (Controls { invert_lum: !c.invert_lum, ..c }),
        c.after_key('i').invert_lum != c.invert_lum,
        c.after_key('m').mirror != c.mirror,
        c.after_key('p').paused != c.paused,
{
}

/// The cycling, quitting, resizing and snapshot keys, in both cases where
/// the key has two, each change only their own setting: `c`/`C` move the
/// colour effect one place along its cycle, `b`/`B` the ramp, `q`/`Q` stop,
/// `+`/`=` grow and `-`/`_` shrink the tiles by ten within `4..=300`, and
/// `s`/`S` change nothing.
pub proof fn lemma_other_keys(c: Controls)
    ensures
        c.after_key('c') == (Controls { color_mode: c.color_mode.next_spec(), ..c }),
        c.after_key('C') == (Controls { color_mode: c.color_mode.next_spec(), ..c }),
        c.after_key('c').color_mode.order() == (c.color_mode.order() + 1) % 33,
        c.after_key('b') == (Controls { ramp_mode: c.ramp_mode.next_spec(), ..c }),
        c.after_key('B') == (Controls { ramp_mode: c.ramp_mode.next_spec(), ..c }),
        c.after_key('b').ramp_mode.order() == (c.ramp_mode.order() + 1) % 8,
        c.after_key('q') == (Controls { running: false, ..c }),
        c.after_key('Q') == (Controls { running: false, ..c }),
        c.after_key('s') == c,
        c.after_key('S') == c,
        c.after_key('+') == c.after_key('='),
        c.after_key('-') == c.after_key('_'),
        c.after_key('+') == (Controls { tile_size: c.after_key('+').tile_size, ..c }),
        c.after_key('-') == (Controls { tile_size: c.after_key('-').tile_size, ..c }),
        c.tile_size + 10 <= 300 ==> c.after_key('+').tile_size == c.tile_size + 10,
        c.tile_size + 10 > 300 ==> c.after_key('+').tile_size == 300,
        c.tile_size >= 14 ==> c.after_key('-').tile_size == c.tile_size - 10,
        c.tile_size < 14 ==> c.after_key('-').tile_size == 4,
{
    crate::color::lemma_color_order_bijective(c.color_mode, (c.color_mode.order() + 1) % 33);
    crate::ramp::lemma_ramp_order_bijective(c.ramp_mode, (c.ramp_mode.order() + 1) % 8);
}

/// Keys with no binding change nothing, and only `s`/`S` ask for a snapshot.
pub proof fn lemma_unbound_keys(c: Controls, key: char)
    requires
        !(key == 'q' || key == 'Q' || key == 'c' || key == 'C' || key == 'b' || key == 'B'
            || key == 'm' || key == 'M' || key == 'p' || key == 'P' || key == 'i' || key == 'I'
            || key == '+' || key == '=' || key == '-' || key == '_' || ('1' <= key <= '9')),
    ensures
        c.after_key(key) == c,
        requests_snapshot(key) <==> (key == 's' || key == 'S'),
{
}

/// The preset keys: `1` green, `2` red, `3` blue, `4` yellow, `5` orange,
/// `6` purple, `7` cyan, `8` white, `9` rainbow; nothing else changes.
pub proof fn lemma_preset_keys(c: Controls)
    ensures
        c.after_key('1') == (Controls { color_mode: ColorMode::Green, ..c }),
        c.after_key('2') == (Controls { color_mode: ColorMode::Red, ..c }),
        c.after_key('3') == (Controls { color_mode: ColorMode::Blue, ..c }),
        c.after_key('4') == (Controls { color_mode: ColorMode::Yellow, ..c }),
        c.after_key('5') == (Controls { color_mode: ColorMode::Orange, ..c }),
        c.after_key('6') == (Controls { color_mode: ColorMode::Purple, ..c }),
        c.after_key('7') == (Controls { color_mode: ColorMode::Cyan, ..c }),
        c.after_key('8') == (Controls { color_mode: ColorMode::White, ..c }),
        c.after_key('9') == (Controls { color_mode: ColorMode::Rainbow, ..c }),
        c.after_key('0') == c,
{
}

} // verus!
