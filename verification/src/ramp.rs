use vstd::prelude::*;

verus! {

/// Number of brightness ramps that the `b` key cycles through.
pub const RAMP_MODE_COUNT: usize = 8;

/// The full brightness ramp, from darkest (a space) to brightest.
pub const RAMP_FULL: [char; 70] = [' ', '.', '\'', '`', '^', '"', ',', ':', ';', 'I', 'l', '!', 'i', '>', '<', '~', '+', '_', '-', '?', ']', '[', '}', '{', '1', ')', '(', '|', '\\', '/', 't', 'f', 'j', 'r', 'x', 'n', 'u', 'v', 'c', 'z', 'X', 'Y', 'U', 'J', 'C', 'L', 'Q', '0', 'O', 'Z', 'm', 'w', 'q', 'p', 'd', 'b', 'k', 'h', 'a', 'o', '*', '#', 'M', 'W', '&', '8', '%', 'B', '@', '$'];

/// The short brightness ramp.
pub const RAMP_SPARSE: [char; 10] = [' ', '.', ':', '-', '=', '+', '*', '#', '%', '@'];

/// The 4x4 Bayer matrix of the ordered-dither ramp, in sixteenths.
pub const BAYER_4: [[u8; 4]; 4] = [[0, 8, 2, 10], [12, 4, 14, 6], [3, 11, 1, 9], [15, 7, 13, 5]];

/// How a cell's brightness becomes a character.
#[derive(Clone, Copy, PartialEq, Eq, Debug, Structural)]
pub enum RampMode {
    Normal,
    Dense,
    Sparse,
    Inverted,
    Block4,
    Block8,
    Edge,
    Dither,
}

impl RampMode {
    /// The place of a ramp mode in the cycling order.
    pub open spec fn order(self) -> int {
        match self {
            RampMode::Normal => 0,
            RampMode::Dense => 1,
            RampMode::Sparse => 2,
            RampMode::Inverted => 3,
            RampMode::Block4 => 4,
            RampMode::Block8 => 5,
            RampMode::Edge => 6,
            RampMode::Dither => 7,
        }
    }

    /// The ramp mode at a place of the cycling order (places past the end give the last mode).
    pub open spec fn from_order(i: int) -> RampMode {
        if i == 0 {
            RampMode::Normal
        } else if i == 1 {
            RampMode::Dense
        } else if i == 2 {
            RampMode::Sparse
        } else if i == 3 {
            RampMode::Inverted
        } else if i == 4 {
            RampMode::Block4
        } else if i == 5 {
            RampMode::Block8
        } else if i == 6 {
            RampMode::Edge
        } else {
            RampMode::Dither
        }
    }

    /// Every ramp mode, in cycling order.
    pub open spec fn all_seq() -> Seq<RampMode> {
        Seq::new(RAMP_MODE_COUNT as nat, |i: int| Self::from_order(i))
    }

    /// The ramp mode that follows `self` in the cycle; the last one wraps to the first.
    pub open spec fn next_spec(self) -> RampMode {
        Self::from_order((self.order() + 1) % (RAMP_MODE_COUNT as int))
    }

    /// The ramp mode reached from `self` after `k` presses of the cycling key.
    pub open spec fn advance(self, k: nat) -> RampMode
        decreases k,
    {
        if k == 0 {
            self
        } else {
            self.advance((k - 1) as nat).next_spec()
        }
    }

    /// Every ramp mode, in the order in which `next` visits them.
    pub fn all() -> (v: Vec<RampMode>)
        ensures
            v@ == Self::all_seq(),
    {
        let v = vec![
            RampMode::Normal,
            RampMode::Dense,
            RampMode::Sparse,
            RampMode::Inverted,
            RampMode::Block4,
            RampMode::Block8,
            RampMode::Edge,
            RampMode::Dither,
        ];
        assert(v@ =~= Self::all_seq());
        v
    }

    /// Where `self` stands in `all()`.
    fn position(self) -> (i: usize)
        ensures
            i == self.order(),
    {
        match self {
            RampMode::Normal => 0,
            RampMode::Dense => 1,
            RampMode::Sparse => 2,
            RampMode::Inverted => 3,
            RampMode::Block4 => 4,
            RampMode::Block8 => 5,
            RampMode::Edge => 6,
            RampMode::Dither => 7,
        }
    }

    /// The next ramp mode in the cycle (what the `b` key selects).
    pub fn next(self) -> (m: RampMode)
        ensures
            m == self.next_spec(),
    {
        let all = Self::all();
        let i = self.position();
        all[(i + 1) % all.len()]
    }

    /// The lower-case label shown in the status bar.
    pub open spec fn name_spec(self) -> Seq<char> {
        match self {
            RampMode::Normal => "normal"@,
            RampMode::Dense => "dense"@,
            RampMode::Sparse => "sparse"@,
            RampMode::Inverted => "inverted"@,
            RampMode::Block4 => "block4"@,
            RampMode::Block8 => "block8"@,
            RampMode::Edge => "edge"@,
            RampMode::Dither => "dither"@,
        }
    }

    /// The label of the ramp mode, as shown in the status bar.
    pub fn name(self) -> (s: &'static str)
        ensures
            s@ == self.name_spec(),
    {
        match self {
            RampMode::Normal => "normal",
            RampMode::Dense => "dense",
            RampMode::Sparse => "sparse",
            RampMode::Inverted => "inverted",
            RampMode::Block4 => "block4",
            RampMode::Block8 => "block8",
            RampMode::Edge => "edge",
            RampMode::Dither => "dither",
        }
    }
}

/// Each ramp mode has exactly one place in the cycle.
pub proof fn lemma_ramp_order_bijective(m: RampMode, i: int)
    ensures
        0 <= m.order() < RAMP_MODE_COUNT,
        RampMode::from_order(m.order()) == m,
        RampMode::all_seq()[m.order()] == m,
        0 <= i < RAMP_MODE_COUNT ==> RampMode::from_order(i).order() == i,
{
}

/// After `k` presses of `b` the ramp mode has moved `k` places along the
/// cycle, wrapping around after the last mode.
pub proof fn lemma_ramp_advance_order(m: RampMode, k: nat)
    ensures
        m.advance(k).order() == (m.order() + k) % (RAMP_MODE_COUNT as int),
    decreases k,
{
    lemma_ramp_order_bijective(m, 0);
    if k > 0 {
        let prev = m.advance((k - 1) as nat);
        lemma_ramp_advance_order(m, (k - 1) as nat);
        let p = (prev.order() + 1) % (RAMP_MODE_COUNT as int);
        lemma_ramp_order_bijective(prev, p);
        assert(((m.order() + k - 1) % 8 + 1) % 8 == (m.order() + k) % 8) by (nonlinear_arith)
            requires
                m.order() >= 0,
                k >= 1,
        ;
    }
}

/// Cycling through the ramps with `b` comes back to the starting ramp after
/// exactly as many presses as there are ramps.
pub proof fn lemma_ramp_cycle_returns(m: RampMode)
    ensures
        m.advance(RAMP_MODE_COUNT as nat) == m,
{
    lemma_ramp_advance_order(m, RAMP_MODE_COUNT as nat);
    let a = m.advance(RAMP_MODE_COUNT as nat);
    lemma_ramp_order_bijective(a, 0);
    lemma_ramp_order_bijective(m, 0);
}

/// Cycling with `b` visits every ramp: from any ramp mode, any other is
/// reached in fewer presses than there are ramps.
pub proof fn lemma_ramp_cycle_visits_all(from: RampMode, to: RampMode)
    ensures
        exists|k: nat| k < RAMP_MODE_COUNT && #[trigger] from.advance(k) == to,
{
    lemma_ramp_order_bijective(from, 0);
    lemma_ramp_order_bijective(to, 0);
    let k: nat = ((to.order() - from.order() + 8) % 8) as nat;
    lemma_ramp_advance_order(from, k);
    let a = from.advance(k);
    lemma_ramp_order_bijective(a, 0);
    assert(a.order() == to.order());
}

/// The characters of the ramp that a mode draws with: the short ramp for
/// `Sparse`, the full ramp for every other mode.
pub open spec fn ramp_spec(mode: RampMode) -> Seq<char> {
    if mode == RampMode::Sparse {
        RAMP_SPARSE@
    } else {
        RAMP_FULL@
    }
}

/// The character at place `idx` of a ramp.
pub fn idx_to_char(idx: usize, ramp: &[char]) -> (c: char)
    requires
        idx < ramp@.len(),
    ensures
        c == ramp@[idx as int],
{
    ramp[idx]
}

/// The character of a mode's ramp at place `idx`, where places past the end
/// of the ramp give its last (brightest) character.
pub open spec fn ramp_char_spec(mode: RampMode, idx: usize) -> char {
    let r = ramp_spec(mode);
    if idx < r.len() - 1 {
        r[idx as int]
    } else {
        r[r.len() - 1]
    }
}

/// Looks a brightness level up in the mode's ramp, clamping it to the ramp.
pub fn ramp_char(mode: RampMode, idx: usize) -> (c: char)
    ensures
        c == ramp_char_spec(mode, idx),
{
    if mode == RampMode::Sparse {
        let last = RAMP_SPARSE.len() - 1;
        idx_to_char(
            if idx < last {
                idx
            } else {
                last
            },
            &RAMP_SPARSE,
        )
    } else {
        let last = RAMP_FULL.len() - 1;
        idx_to_char(
            if idx < last {
                idx
            } else {
                last
            },
            &RAMP_FULL,
        )
    }
}

/// The place in the full ramp of quantisation level `level` out of `levels`
/// (the `Block4` and `Block8` ramps): levels spread evenly from the first to
/// the last character, rounding down.
pub open spec fn block_index_spec(level: usize, levels: usize) -> int {
    (level * (RAMP_FULL@.len() - 1)) / (levels as int)
}

/// The ramp place of a quantised brightness level.
pub fn block_index(level: usize, levels: usize) -> (i: usize)
    requires
        levels > 0,
        level * (RAMP_FULL@.len() - 1) <= usize::MAX,
    ensures
        i == block_index_spec(level, levels),
{
    level * (RAMP_FULL.len() - 1) / levels
}

/// The dither threshold of a cell, in sixteenths: the Bayer matrix entry at
/// row `y mod 4` and column `x mod 4`.
pub open spec fn bayer_spec(x: u16, y: u16) -> u8 {
    BAYER_4@[(y % 4) as int]@[(x % 4) as int]
}

/// The ordered-dither threshold (in sixteenths) of the cell at `(x, y)`.
pub fn bayer_threshold(x: u16, y: u16) -> (t: u8)
    ensures
        t == bayer_spec(x, y),
{
    BAYER_4[(y % 4) as usize][(x % 4) as usize]
}

/// A quantised level never leaves the full ramp: level `levels` is its last
/// character and level zero its first.
pub proof fn lemma_block_index_in_ramp(level: usize, levels: usize)
    requires
        levels > 0,
        level <= levels,
    ensures
        0 <= block_index_spec(level, levels) < RAMP_FULL@.len(),
        level == levels ==> block_index_spec(level, levels) == RAMP_FULL@.len() - 1,
        level == 0 ==> block_index_spec(level, levels) == 0,
{
    let n = RAMP_FULL@.len() - 1;
    assert(n == 69);
    assert(level * 69 <= levels * 69) by (nonlinear_arith)
        requires
            level <= levels,
    ;
    assert((level * 69) / (levels as int) <= 69) by (nonlinear_arith)
        requires
            level * 69 <= levels * 69,
            levels > 0,
    ;
    assert(level == levels ==> (level * 69) / (levels as int) == 69) by (nonlinear_arith)
        requires
            levels > 0,
    ;
}

/// Whether threshold `v` appears in the Bayer matrix.
pub open spec fn bayer_contains(v: int) -> bool {
    exists|r: int, c: int| 0 <= r < 4 && 0 <= c < 4 && #[trigger] BAYER_4@[r]@[c] == v
}

/// The Bayer matrix holds each of the sixteen dither thresholds `0..16`
/// exactly once, so each threshold covers one cell of every 4x4 block.
pub proof fn lemma_bayer_is_permutation()
    ensures
        forall|r: int, c: int| 0 <= r < 4 && 0 <= c < 4 ==> #[trigger] BAYER_4@[r]@[c] < 16,
        forall|r1: int, c1: int, r2: int, c2: int|
            0 <= r1 < 4 && 0 <= c1 < 4 && 0 <= r2 < 4 && 0 <= c2 < 4 && #[trigger] BAYER_4@[r1]@[c1]
                == #[trigger] BAYER_4@[r2]@[c2] ==> r1 == r2 && c1 == c2,
        forall|v: int| 0 <= v < 16 ==> #[trigger] bayer_contains(v),
{
    assert(BAYER_4@[0]@[0] == 0 && BAYER_4@[0]@[1] == 8 && BAYER_4@[0]@[2] == 2 && BAYER_4@[0]@[3] == 10);
    assert(BAYER_4@[1]@[0] == 12 && BAYER_4@[1]@[1] == 4 && BAYER_4@[1]@[2] == 14 && BAYER_4@[1]@[3] == 6);
    assert(BAYER_4@[2]@[0] == 3 && BAYER_4@[2]@[1] == 11 && BAYER_4@[2]@[2] == 1 && BAYER_4@[2]@[3] == 9);
    assert(BAYER_4@[3]@[0] == 15 && BAYER_4@[3]@[1] == 7 && BAYER_4@[3]@[2] == 13 && BAYER_4@[3]@[3] == 5);
}

/// Length, first and last letter of a ramp mode's label.
spec fn name_signature(m: RampMode) -> (nat, char, char) {
    match m {
        RampMode::Normal => (6, 'n', 'l'),
        RampMode::Dense => (5, 'd', 'e'),
        RampMode::Sparse => (6, 's', 'e'),
        RampMode::Inverted => (8, 'i', 'd'),
        RampMode::Block4 => (6, 'b', '4'),
        RampMode::Block8 => (6, 'b', '8'),
        RampMode::Edge => (4, 'e', 'e'),
        RampMode::Dither => (6, 'd', 'r'),
    }
}

proof fn lemma_name_signature(m: RampMode)
    ensures
        m.name_spec().len() == name_signature(m).0,
        m.name_spec()[0] == name_signature(m).1,
        m.name_spec()[m.name_spec().len() - 1] == name_signature(m).2,
{
    reveal_strlit("normal");
    reveal_strlit("dense");
    reveal_strlit("sparse");
    reveal_strlit("inverted");
    reveal_strlit("block4");
    reveal_strlit("block8");
    reveal_strlit("edge");
    reveal_strlit("dither");
}

/// The status bar tells the ramps apart: different ramp modes have different labels.
pub proof fn lemma_ramp_names_distinct(a: RampMode, b: RampMode)
    ensures
        a != b ==> a.name_spec() != b.name_spec(),
{
    lemma_name_signature(a);
    lemma_name_signature(b);
    if a.name_spec() == b.name_spec() {
        assert(name_signature(a) == name_signature(b));
    }
}

/// Only the sparse ramp mode reads a different ramp: every other mode
/// (inversion included, which acts on the brightness before the lookup) maps
/// place `idx` to the full ramp's character at `idx`, and places past the end
/// to its last character; the sparse mode does the same with the short ramp.
pub proof fn lemma_ramp_lookup_by_mode(mode: RampMode, idx: usize)
    ensures
        mode != RampMode::Sparse ==> ramp_char_spec(mode, idx) == RAMP_FULL@[
            if idx < 69 {
                idx as int
            } else {
                69
            }
        ],
        mode == RampMode::Sparse ==> ramp_char_spec(mode, idx) == RAMP_SPARSE@[
            if idx < 9 {
                idx as int
            } else {
                9
            }
        ],
        ramp_char_spec(RampMode::Inverted, idx) == ramp_char_spec(RampMode::Normal, idx),
        ramp_char_spec(RampMode::Dense, idx) == ramp_char_spec(RampMode::Normal, idx),
        ramp_char_spec(RampMode::Dither, idx) == ramp_char_spec(RampMode::Normal, idx),
        ramp_char_spec(RampMode::Block4, idx) == ramp_char_spec(RampMode::Normal, idx),
        ramp_char_spec(RampMode::Block8, idx) == ramp_char_spec(RampMode::Normal, idx),
        ramp_char_spec(RampMode::Edge, idx) == ramp_char_spec(RampMode::Normal, idx),
{
}

/// Darker places come first: place zero of every ramp is a blank, and the
/// brightest place is `$` on the full ramp and `@` on the short one.
pub proof fn lemma_ramp_ends(mode: RampMode)
    ensures
        ramp_char_spec(mode, 0) == ' ',
        mode != RampMode::Sparse ==> ramp_char_spec(mode, usize::MAX) == '$',
        mode == RampMode::Sparse ==> ramp_char_spec(mode, usize::MAX) == '@',
{
}

/// The block quantisation rounds down: the place `i` of level `level` out of
/// `levels` is the largest `i` with `i * levels <= level * 69`.
pub proof fn lemma_block_index_rounds_down(level: usize, levels: usize)
    requires
        levels > 0,
    ensures
        block_index_spec(level, levels) * levels <= level * 69,
        level * 69 < (block_index_spec(level, levels) + 1) * levels,
{
    let n: int = level * 69;
    let d: int = levels as int;
    assert(RAMP_FULL@.len() - 1 == 69);
    vstd::arithmetic::div_mod::lemma_fundamental_div_mod(n, d);
    assert(block_index_spec(level, levels) == n / d);
    assert((n / d) * d <= n) by (nonlinear_arith)
        requires
            n == d * (n / d) + n % d,
            0 <= n % d,
    ;
    assert(n < (n / d + 1) * d) by (nonlinear_arith)
        requires
            n == d * (n / d) + n % d,
            n % d < d,
    ;
}

/// The dither thresholds repeat every four cells across and down.
pub proof fn lemma_bayer_periodic(x: u16, y: u16)
    ensures
        x + 4 <= u16::MAX ==> bayer_spec((x + 4) as u16, y) == bayer_spec(x, y),
        y + 4 <= u16::MAX ==> bayer_spec(x, (y + 4) as u16) == bayer_spec(x, y),
        bayer_spec(x, y) < 16,
{
    lemma_bayer_is_permutation();
    assert(0 <= (y % 4) < 4 && 0 <= (x % 4) < 4);
    assert(BAYER_4@[(y % 4) as int]@[(x % 4) as int] < 16);
}

} // verus!
