use pitch_trigger::render::render_frame;

const TRACE: [u8; 4] = [255, 0, 0, 255];
const BACKGROUND: [u8; 4] = [0x48, 0xb2, 0xe8, 0xff];

fn pixel(frame: &[u8], width: usize, col: usize, row: usize) -> [u8; 4] {
    let at = 4 * (row * width + col);
    [frame[at], frame[at + 1], frame[at + 2], frame[at + 3]]
}

#[test]
fn empty_window_paints_only_background() {
    let mut frame = Vec::new();
    render_frame(&Vec::new(), 4, 4, &mut frame);
    assert_eq!(frame.len(), 64);
    for row in 0..4 {
        for col in 0..4 {
            assert_eq!(pixel(&frame, 4, col, row), BACKGROUND);
        }
    }
}

#[test]
fn trace_covers_rows_near_the_sample_height() {
    // A sample of -500 milli-units is centred on row 0, so rows 0 to 2
    // lie within the 3-row band and row 3 does not.
    let mut frame = Vec::new();
    render_frame(&vec![-500], 2, 4, &mut frame);
    assert_eq!(frame.len(), 32);
    assert_eq!(pixel(&frame, 2, 0, 0), TRACE);
    assert_eq!(pixel(&frame, 2, 0, 1), TRACE);
    assert_eq!(pixel(&frame, 2, 0, 2), TRACE);
    assert_eq!(pixel(&frame, 2, 0, 3), BACKGROUND);
    for row in 0..4 {
        assert_eq!(pixel(&frame, 2, 1, row), BACKGROUND);
    }
}

#[test]
fn full_size_silent_frame_draws_the_centre_line() {
    // A silent window is centred on row 250; rows 248 to 252 are within
    // the band, rows 247 and 253 are not.
    let window = vec![0; 1024];
    let mut frame = Vec::new();
    render_frame(&window, 1000, 500, &mut frame);
    assert_eq!(frame.len(), 4 * 1000 * 500);
    for &col in &[0usize, 499, 999] {
        assert_eq!(pixel(&frame, 1000, col, 247), BACKGROUND);
        assert_eq!(pixel(&frame, 1000, col, 248), TRACE);
        assert_eq!(pixel(&frame, 1000, col, 250), TRACE);
        assert_eq!(pixel(&frame, 1000, col, 252), TRACE);
        assert_eq!(pixel(&frame, 1000, col, 253), BACKGROUND);
    }
}

#[test]
fn frame_is_overwritten_wholesale() {
    let mut frame = vec![9u8; 64];
    render_frame(&Vec::new(), 4, 4, &mut frame);
    assert_eq!(frame.len(), 64);
    assert!(frame.chunks(4).all(|p| p == BACKGROUND));
}
