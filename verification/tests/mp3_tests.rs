use mp3_player::mp3::{empty_frame, next_frame, next_sample_position, EMPTY_FRAME_SAMPLE_RATE};
use std::time::Duration;

#[test]
fn next_frame_skips_errors() {
    let results: Vec<Result<u32, &str>> = vec![Err("bad"), Err("worse"), Ok(3), Ok(4)];
    let mut decoder = results.into_iter();
    assert_eq!(next_frame(&mut decoder, 0), 3);
    assert_eq!(decoder.next(), Some(Ok(4)));
}

#[test]
fn next_frame_takes_the_first_frame() {
    let results: Vec<Result<u32, &str>> = vec![Ok(1), Err("bad"), Ok(2)];
    let mut decoder = results.into_iter();
    assert_eq!(next_frame(&mut decoder, 0), 1);
    assert_eq!(next_frame(&mut decoder, 0), 2);
    assert_eq!(next_frame(&mut decoder, 99), 99);
}

#[test]
fn next_frame_of_only_errors_is_the_empty_frame() {
    let results: Vec<Result<u32, &str>> = vec![Err("a"), Err("b")];
    let mut decoder = results.into_iter();
    assert_eq!(next_frame(&mut decoder, 7), 7);
    assert_eq!(decoder.next(), None);
}

#[test]
fn empty_frame_is_one_silent_channel_at_the_default_rate() {
    let info = empty_frame();
    assert_eq!(info.bit_rate, 0);
    assert_eq!(info.sample_rate, 44100);
    assert_eq!(EMPTY_FRAME_SAMPLE_RATE, 44100);
    assert_eq!(info.channels, 1);
    assert_eq!(info.samples_per_channel, 0);
    assert_eq!(info.position, Duration::from_secs(0));
    assert_eq!(info.duration, Duration::new(0, 0));
}

#[test]
fn samples_interleave_channels() {
    assert_eq!(next_sample_position(0, 0, 2, 3), Some((1, 0)));
    assert_eq!(next_sample_position(1, 0, 2, 3), Some((0, 1)));
    assert_eq!(next_sample_position(1, 2, 2, 3), None);
    assert_eq!(next_sample_position(0, 5, 1, 7), Some((0, 6)));
    assert_eq!(next_sample_position(0, 6, 1, 7), None);
}
