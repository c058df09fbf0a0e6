//! The rolling visualization buffer.
//!
//! Chunks drained from the transfer queue accumulate in order. Once at
//! least one full window of samples has accumulated, a refresh replaces
//! the visualization window wholesale with the most recent samples and
//! clears the accumulator; until then the window keeps its previous
//! contents. The window always holds exactly its configured number of
//! samples, initially silence.

use vstd::prelude::*;

verus! {

/// Default visualization window length in samples.
pub const DEFAULT_VISUALIZATION_WINDOW_LEN: usize = 1024;

/// Accumulates captured samples and exposes the most recent full window.
pub struct VisualizationBuffer {
    accumulator: Vec<i32>,
    window: Vec<i32>,
}

impl VisualizationBuffer {
    /// The window never changes length.
    pub open spec fn wf(self) -> bool {
        self.window_len() >= 1
    }

    /// Samples accumulated since the window was last replaced, oldest
    /// first.
    pub closed spec fn accumulated(self) -> Seq<i32> {
        self.accumulator@
    }

    /// The samples currently on display, oldest first.
    pub closed spec fn window_view(self) -> Seq<i32> {
        self.window@
    }

    /// Length of the visualization window.
    pub closed spec fn window_len(self) -> int {
        self.window@.len() as int
    }

    /// A fresh buffer: an empty accumulator and a silent window of
    /// `window_len` samples.
    pub fn new(window_len: usize) -> (buf: Self)
        requires
            window_len >= 1,
        ensures
            buf.wf(),
            buf.window_len() == window_len,
            buf.accumulated() == Seq::<i32>::empty(),
            buf.window_view() == Seq::new(window_len as nat, |i: int| 0i32),
    {
        let mut window: Vec<i32> = Vec::new();
        let mut i: usize = 0;
        while i < window_len
            invariant
                0 <= i <= window_len,
                window@ == Seq::new(i as nat, |j: int| 0i32),
            decreases window_len - i,
        {
            window.push(0);
            assert(window@ =~= Seq::new((i + 1) as nat, |j: int| 0i32));
            i = i + 1;
        }
        let buf = VisualizationBuffer { accumulator: Vec::new(), window };
        proof {
            assert(buf.accumulated() =~= Seq::<i32>::empty());
        }
        buf
    }

    /// Appends one drained chunk to the accumulator; the window on
    /// display does not change.
    pub fn feed_chunk(&mut self, chunk: &Vec<i32>)
        ensures
            final(self).accumulated() == old(self).accumulated() + chunk@,
            final(self).window_view() == old(self).window_view(),
    {
        let ghost before = self.accumulator@;
        let mut i: usize = 0;
        while i < chunk.len()
            invariant
                0 <= i <= chunk@.len(),
                self.accumulator@ == before + chunk@.subrange(0, i as int),
                self.window@ == old(self).window@,
            decreases chunk@.len() - i,
        {
            self.accumulator.push(chunk[i]);
            assert(self.accumulator@ =~= before + chunk@.subrange(0, i + 1 as int));
            i = i + 1;
        }
        proof {
            assert(before + chunk@.subrange(0, chunk@.len() as int) =~= before + chunk@);
        }
    }

    /// Whether enough samples have accumulated to replace the window.
    pub open spec fn ready(self) -> bool {
        self.accumulated().len() >= self.window_len()
    }

    /// Replaces the window with the most recent full window of
    /// accumulated samples and clears the accumulator, once at least one
    /// full window has accumulated; does nothing before that.
    ///
    /// Returns true exactly when the window was replaced.
    pub fn refresh(&mut self) -> (updated: bool)
        requires
            old(self).wf(),
        ensures
            final(self).wf(),
            final(self).window_len() == old(self).window_len(),
            updated == old(self).ready(),
            updated ==> final(self).window_view() == old(self).accumulated().subrange(
                old(self).accumulated().len() - old(self).window_len(),
                old(self).accumulated().len() as int,
            ),
            updated ==> final(self).accumulated() == Seq::<i32>::empty(),
            !updated ==> *final(self) == *old(self),
    {
        let window_len = self.window.len();
        let total = self.accumulator.len();
        if total >= window_len {
            let start = total - window_len;
            let mut fresh: Vec<i32> = Vec::new();
            let mut i: usize = start;
            while i < total
                invariant
                    start <= i <= total,
                    total == self.accumulator@.len(),
                    start == total - window_len,
                    fresh@ == self.accumulator@.subrange(start as int, i as int),
                decreases total - i,
            {
                fresh.push(self.accumulator[i]);
                assert(fresh@ =~= self.accumulator@.subrange(start as int, i + 1 as int));
                i = i + 1;
            }
            self.window = fresh;
            self.accumulator.clear();
            proof {
                assert(self.accumulated() =~= Seq::<i32>::empty());
            }
            true
        } else {
            false
        }
    }

    /// The samples currently on display, for the renderer.
    pub fn window(&self) -> (w: &Vec<i32>)
        ensures
            w@ == self.window_view(),
    {
        &self.window
    }
}

} // verus!
