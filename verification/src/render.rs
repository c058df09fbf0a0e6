//! Drawing the waveform into an RGBA frame buffer.
//!
//! The frame is a flat row-major sequence of 4-byte RGBA pixels. Each
//! pixel column shows the sample at the same index of the visualization
//! window: with samples in milli-units, a sample `s` is centred on pixel
//! row `s / 2 + 250` (the row a full-scale amplitude of one reaches 500
//! rows above the middle row 250), and every row within 3 of that centre
//! is painted in the trace colour; every other pixel, and every column
//! beyond the window, gets the background colour.

use vstd::prelude::*;

verus! {

/// Frame width the reference window uses, in pixels.
pub const DEFAULT_FRAME_WIDTH: usize = 1000;

/// Frame height the reference window uses, in pixels.
pub const DEFAULT_FRAME_HEIGHT: usize = 500;

/// Whether the trace for sample `s` (in milli-units) covers pixel row
/// `row`: the trace is centred on row `s / 2 + 250` and is 3 rows wide in
/// each direction, so the condition is `|row - (s / 2 + 250)| < 3`,
/// written over doubled values to stay in integers.
pub open spec fn trace_covers(s: int, row: int) -> bool {
    -6 < 2 * row - s - 500 < 6
}

/// The four RGBA bytes of pixel number `p` of a frame `width` pixels
/// wide: the trace colour (opaque red) where the trace of the column's
/// sample covers the pixel's row, the sky-blue background everywhere
/// else.
pub open spec fn pixel_rgba(window: Seq<i32>, width: int, p: int) -> Seq<u8> {
    if p % width < window.len() && trace_covers(window[p % width] as int, p / width) {
        seq![255u8, 0u8, 0u8, 255u8]
    } else {
        seq![0x48u8, 0xb2u8, 0xe8u8, 0xffu8]
    }
}

/// The first `n` pixels of the frame for `window`, as one flat byte
/// sequence.
pub open spec fn frame_bytes(window: Seq<i32>, width: int, n: int) -> Seq<u8>
    decreases n,
{
    if n <= 0 {
        Seq::empty()
    } else {
        frame_bytes(window, width, n - 1) + pixel_rgba(window, width, n - 1)
    }
}

proof fn lemma_frame_bytes_len(window: Seq<i32>, width: int, n: int)
    requires
        n >= 0,
    ensures
        frame_bytes(window, width, n).len() == 4 * n,
    decreases n,
{
    if n > 0 {
        lemma_frame_bytes_len(window, width, n - 1);
    }
}

/// Paints the whole waveform frame: afterwards the buffer holds, pixel
/// by pixel, exactly the frame `frame_bytes` describes for the window.
pub fn render_frame(window: &Vec<i32>, width: usize, height: usize, frame: &mut Vec<u8>)
    requires
        width >= 1,
        width * height <= 0x4000_0000,
    ensures
        final(frame)@.len() == 4 * (width * height),
        final(frame)@ == frame_bytes(window@, width as int, (width * height) as int),
{
    let total = width * height;
    let mut out: Vec<u8> = Vec::new();
    let mut p: usize = 0;
    while p < total
        invariant
            0 <= p <= total,
            total == width * height,
            width >= 1,
            total <= 0x4000_0000,
            out@ == frame_bytes(window@, width as int, p as int),
            out@.len() == 4 * p,
        decreases total - p,
    {
        let col = p % width;
        let row = p / width;
        let on_trace = if col < window.len() {
            let s = window[col];
            let d: i64 = 2 * (row as i64) - (s as i64) - 500;
            -6 < d && d < 6
        } else {
            false
        };
        let ghost before = out@;
        if on_trace {
            out.push(255);
            out.push(0);
            out.push(0);
            out.push(255);
            assert(out@ =~= before + seq![255u8, 0u8, 0u8, 255u8]);
        } else {
            out.push(0x48);
            out.push(0xb2);
            out.push(0xe8);
            out.push(0xff);
            assert(out@ =~= before + seq![0x48u8, 0xb2u8, 0xe8u8, 0xffu8]);
        }
        proof {
            assert(out@ == frame_bytes(window@, width as int, p + 1 as int));
        }
        p = p + 1;
    }
    proof {
        lemma_frame_bytes_len(window@, width as int, (width * height) as int);
    }
    *frame = out;
}

} // verus!
