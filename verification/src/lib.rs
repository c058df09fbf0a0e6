//! Core logic of a tone-activated input trigger.
//!
//! Audio arrives from a capture device as chunks of samples. Each chunk is
//! screened by a volume gate; loud enough chunks yield a fixed-length
//! analysis window for a pitch estimator, whose observations feed a
//! debounced trigger policy. In parallel, every chunk flows through a FIFO
//! transfer queue into a rolling visualization buffer that a renderer draws
//! as a waveform.
//!
//! Samples are amplitude values in thousandths of full scale (a sample of
//! `1000` stands for a full-scale amplitude of one), so that volume gating,
//! the trigger policy and the renderer work on plain integers.

pub mod chunk;
pub mod queue;
pub mod render;
pub mod trigger;
pub mod viz;
