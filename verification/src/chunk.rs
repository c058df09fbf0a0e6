//! Audio chunks, the volume gate and the analysis window.
//!
//! A chunk is the buffer of samples one capture callback delivers. Before
//! any pitch estimation runs, the chunk must pass a volume gate: its peak
//! absolute amplitude has to rise above a floor, and it must be long enough
//! to fill one analysis window. Chunks that fail this screening produce no
//! observation at all, which is how silence is suppressed.

use vstd::prelude::*;

verus! {

/// Default volume floor: 0.2 of full scale, in milli-units.
pub const DEFAULT_VOLUME_FLOOR_MILLI: i64 = 200;

/// Default analysis window length in samples.
pub const DEFAULT_ANALYSIS_WINDOW_LEN: usize = 800;

/// Configuration of the volume gate and the analysis window.
#[derive(Clone, Copy, PartialEq, Eq, Structural)]
pub struct AnalysisConfig {
    /// A chunk is analysed only if its peak absolute amplitude is strictly
    /// above this value (in milli-units of full scale).
    pub volume_floor_milli: i64,
    /// Exact number of samples the pitch estimator consumes per estimate.
    pub window_len: usize,
}

impl AnalysisConfig {
    /// The configuration the system ships with: floor 0.2, window 800.
    pub fn recommended() -> (cfg: Self)
        ensures
            cfg.volume_floor_milli == DEFAULT_VOLUME_FLOOR_MILLI,
            cfg.window_len == DEFAULT_ANALYSIS_WINDOW_LEN,
    {
        AnalysisConfig {
            volume_floor_milli: DEFAULT_VOLUME_FLOOR_MILLI,
            window_len: DEFAULT_ANALYSIS_WINDOW_LEN,
        }
    }
}

/// Absolute value of a sample, as a mathematical integer.
pub open spec fn abs_sample(s: i32) -> int {
    if s < 0 {
        -(s as int)
    } else {
        s as int
    }
}

/// Peak absolute amplitude of a chunk; 0 for an empty chunk.
pub open spec fn peak_amplitude_spec(chunk: Seq<i32>) -> int
    decreases chunk.len(),
{
    if chunk.len() == 0 {
        0
    } else {
        let rest = peak_amplitude_spec(chunk.drop_last());
        if abs_sample(chunk.last()) > rest {
            abs_sample(chunk.last())
        } else {
            rest
        }
    }
}

/// The volume gate: a chunk is analysed exactly when its peak amplitude is
/// strictly above the floor and it can fill one analysis window.
pub open spec fn passes_gate(chunk: Seq<i32>, cfg: AnalysisConfig) -> bool {
    &&& peak_amplitude_spec(chunk) > cfg.volume_floor_milli
    &&& chunk.len() >= cfg.window_len
}

proof fn lemma_peak_extend(chunk: Seq<i32>, i: int)
    requires
        0 <= i < chunk.len(),
    ensures
        peak_amplitude_spec(chunk.subrange(0, i + 1)) == if abs_sample(chunk[i])
            > peak_amplitude_spec(chunk.subrange(0, i)) {
            abs_sample(chunk[i])
        } else {
            peak_amplitude_spec(chunk.subrange(0, i))
        },
{
    let pre = chunk.subrange(0, i + 1);
    assert(pre.drop_last() =~= chunk.subrange(0, i));
    assert(pre.last() == chunk[i]);
}

/// Peak absolute amplitude of a chunk.
pub fn peak_amplitude(chunk: &Vec<i32>) -> (peak: i64)
    ensures
        peak == peak_amplitude_spec(chunk@),
{
    let mut peak: i64 = 0;
    let mut i: usize = 0;
    while i < chunk.len()
        invariant
            0 <= i <= chunk@.len(),
            peak == peak_amplitude_spec(chunk@.subrange(0, i as int)),
        decreases chunk@.len() - i,
    {
        let s = chunk[i];
        let a: i64 = if s < 0 {
            -(s as i64)
        } else {
            s as i64
        };
        proof {
            lemma_peak_extend(chunk@, i as int);
        }
        if a > peak {
            peak = a;
        }
        i = i + 1;
    }
    assert(chunk@.subrange(0, chunk@.len() as int) =~= chunk@);
    peak
}

/// Applies the volume gate and, when the chunk passes, cuts the analysis
/// window: the first `cfg.window_len` samples of the chunk.
///
/// A chunk whose peak amplitude is at or below the floor yields `None`, so
/// no estimate is ever attempted on silence-level audio; a chunk shorter
/// than one window yields `None` as well.
pub fn analysis_window(chunk: &Vec<i32>, cfg: &AnalysisConfig) -> (win: Option<Vec<i32>>)
    ensures
        win is Some <==> passes_gate(chunk@, *cfg),
        win matches Some(w) ==> w@ == chunk@.subrange(0, cfg.window_len as int),
        peak_amplitude_spec(chunk@) <= cfg.volume_floor_milli ==> win is None,
{
    let peak = peak_amplitude(chunk);
    if peak > cfg.volume_floor_milli && chunk.len() >= cfg.window_len {
        let mut w: Vec<i32> = Vec::new();
        let mut i: usize = 0;
        while i < cfg.window_len
            invariant
                0 <= i <= cfg.window_len,
                cfg.window_len <= chunk@.len(),
                w@ == chunk@.subrange(0, i as int),
            decreases cfg.window_len - i,
        {
            w.push(chunk[i]);
            assert(w@ =~= chunk@.subrange(0, i + 1 as int));
            i = i + 1;
        }
        Some(w)
    } else {
        None
    }
}

} // verus!
