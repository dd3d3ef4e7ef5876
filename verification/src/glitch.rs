use vstd::prelude::*;

use crate::random::{random_byte, random_u16_below, random_usize_in};

verus! {

/// A random byte below this starts a glitch burst (about one frame in thirteen).
pub const GLITCH_CHANCE: u8 = 20;

/// How many frames a burst lasts after the frame that starts it.
pub const GLITCH_FRAMES: u8 = 2;

/// The most columns that one burst scrambles.
pub const GLITCH_MAX_COLUMNS: usize = 8;

/// The columns that the glitch effect currently scrambles, and for how many
/// more frames.
pub struct GlitchState {
    pub columns: Vec<u16>,
    pub frames_left: u8,
}

impl GlitchState {
    /// A burst in progress has between one and eight columns and at most two
    /// frames to go.
    pub open spec fn wf(&self) -> bool {
        &&& self.frames_left <= GLITCH_FRAMES
        &&& self.frames_left > 0 ==> 1 <= self.columns@.len() <= GLITCH_MAX_COLUMNS
    }

    /// What a freshly started burst looks like in a picture `cols` wide.
    pub open spec fn is_burst(&self, cols: u16) -> bool {
        &&& self.frames_left == GLITCH_FRAMES
        &&& 1 <= self.columns@.len() <= GLITCH_MAX_COLUMNS
        &&& forall|i: int| 0 <= i < self.columns@.len() ==> #[trigger] self.columns@[i] < cols
    }

    /// No burst and no columns.
    pub fn new() -> (s: GlitchState)
        ensures
            s.columns@ == Seq::<u16>::empty(),
            s.frames_left == 0,
            s.wf(),
    {
        GlitchState { columns: Vec::new(), frames_left: 0 }
    }

    /// Reacts to the random byte `roll` drawn on a frame with no burst: a roll
    /// below `GLITCH_CHANCE` starts a burst of one to eight random columns
    /// below `cols`; any other roll leaves the state as it is.
    pub fn react(&mut self, roll: u8, cols: u16)
        requires
            old(self).frames_left == 0,
            roll >= GLITCH_CHANCE || cols > 0,
        ensures
            roll >= GLITCH_CHANCE ==> final(self).columns@ == old(self).columns@
                && final(self).frames_left == 0,
            roll < GLITCH_CHANCE ==> final(self).is_burst(cols),
    {
        if roll < GLITCH_CHANCE {
            self.columns.clear();
            let n = random_usize_in(1, GLITCH_MAX_COLUMNS);
            let mut k: usize = 0;
            while k < n
                invariant
                    k <= n <= GLITCH_MAX_COLUMNS,
                    cols > 0,
                    self.columns@.len() == k,
                    forall|i: int| 0 <= i < self.columns@.len() ==> #[trigger] self.columns@[i] < cols,
                decreases n - k,
            {
                let c = random_u16_below(cols);
                self.columns.push(c);
                k = k + 1;
            }
            self.frames_left = GLITCH_FRAMES;
        }
    }

    /// Advances the glitch effect by one frame: a running burst counts down;
    /// with no burst running, a random roll may start a new one.
    pub fn tick(&mut self, cols: u16)
        requires
            old(self).frames_left > 0 || cols > 0,
        ensures
            old(self).frames_left > 0 ==> final(self).frames_left == old(self).frames_left - 1
                && final(self).columns@ == old(self).columns@,
            old(self).frames_left == 0 ==> (final(self).frames_left == 0 && final(self).columns@
                == old(self).columns@) || final(self).is_burst(cols),
            old(self).wf() ==> final(self).wf(),
    {
        if self.frames_left > 0 {
            self.frames_left = self.frames_left - 1;
            return ;
        }
        let roll = random_byte();
        self.react(roll, cols);
    }

    /// Whether column `x` is scrambled on this frame: a burst is running and
    /// `x` is one of its columns.
    pub fn hit(&self, x: u16) -> (h: bool)
        ensures
            h == (self.frames_left > 0 && self.columns@.contains(x)),
    {
        if self.frames_left == 0 {
            return false;
        }
        let mut i: usize = 0;
        while i < self.columns.len()
            invariant
                self.frames_left > 0,
                i <= self.columns@.len(),
                forall|j: int| 0 <= j < i ==> self.columns@[j] != x,
            decreases self.columns@.len() - i,
        {
            if self.columns[i] == x {
                assert(self.columns@[i as int] == x);
                return true;
            }
            i = i + 1;
        }
        false
    }
}


} // verus!
