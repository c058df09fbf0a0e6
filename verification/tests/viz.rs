use pitch_trigger::viz::VisualizationBuffer;

#[test]
fn fresh_buffer_shows_silence() {
    let buf = VisualizationBuffer::new(1024);
    assert_eq!(buf.window().len(), 1024);
    assert!(buf.window().iter().all(|&s| s == 0));
}

#[test]
fn refresh_without_enough_samples_keeps_the_window() {
    let mut buf = VisualizationBuffer::new(1024);
    let chunk: Vec<i32> = (0..512).collect();
    buf.feed_chunk(&chunk);
    assert!(!buf.refresh());
    assert!(buf.window().iter().all(|&s| s == 0));
}

#[test]
fn feeding_exactly_one_window_fills_it_in_order() {
    let mut buf = VisualizationBuffer::new(1024);
    let samples: Vec<i32> = (0..1024).collect();
    buf.feed_chunk(&samples);
    assert!(buf.refresh());
    assert_eq!(buf.window(), &samples);
}

#[test]
fn feeding_two_windows_keeps_only_the_second() {
    let mut buf = VisualizationBuffer::new(1024);
    let first: Vec<i32> = vec![7; 1024];
    let second: Vec<i32> = (1000..2024).collect();
    buf.feed_chunk(&first);
    buf.feed_chunk(&second);
    assert!(buf.refresh());
    assert_eq!(buf.window(), &second);
}

#[test]
fn chunks_accumulate_across_feeds() {
    let mut buf = VisualizationBuffer::new(4);
    buf.feed_chunk(&vec![1, 2]);
    assert!(!buf.refresh());
    buf.feed_chunk(&vec![3, 4, 5]);
    assert!(buf.refresh());
    assert_eq!(buf.window(), &vec![2, 3, 4, 5]);
}

#[test]
fn refresh_clears_the_accumulator() {
    let mut buf = VisualizationBuffer::new(4);
    buf.feed_chunk(&vec![1, 2, 3, 4]);
    assert!(buf.refresh());
    assert!(!buf.refresh());
    assert_eq!(buf.window(), &vec![1, 2, 3, 4]);
}
