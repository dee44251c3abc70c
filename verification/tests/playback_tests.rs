use mp3_player::playback::{
    iter_to_buffer, playback_rate, Action, PlaybackLoop, Step, BUFFER_SIZE, DEFAULT_RATE,
};

#[test]
fn odd_number_of_samples_leaves_last_frame_untouched() {
    let samples: Vec<i16> = vec![1, 2, 3, 4, 5];
    let mut iter = samples.into_iter();
    let mut buffer = [[7i16; 2]; BUFFER_SIZE];
    let size = iter_to_buffer(&mut iter, &mut buffer);
    assert_eq!(size, 3);
    assert_eq!(buffer[0], [1, 2]);
    assert_eq!(buffer[1], [3, 4]);
    assert_eq!(buffer[2], [7, 7]);
    assert_eq!(buffer[3], [7, 7]);
    assert_eq!(iter.next(), None);
}

#[test]
fn even_number_of_samples_fills_pairs() {
    let samples: Vec<i16> = vec![-1, 1, -2, 2];
    let mut iter = samples.into_iter();
    let mut buffer = [[0i16; 2]; BUFFER_SIZE];
    assert_eq!(iter_to_buffer(&mut iter, &mut buffer), 2);
    assert_eq!(buffer[0], [-1, 1]);
    assert_eq!(buffer[1], [-2, 2]);
    assert_eq!(buffer[2], [0, 0]);
}

#[test]
fn at_most_buffer_size_samples_are_taken() {
    let samples: Vec<i16> = (0..2500).map(|i| i as i16).collect();
    let mut iter = samples.into_iter();
    let mut buffer = [[0i16; 2]; BUFFER_SIZE];
    let size = iter_to_buffer(&mut iter, &mut buffer);
    assert_eq!(size, BUFFER_SIZE / 2);
    assert_eq!(buffer[0], [0, 1]);
    assert_eq!(buffer[499], [998, 999]);
    assert_eq!(buffer[500], [0, 0]);
    assert_eq!(iter.next(), Some(1000));
}

#[test]
fn empty_source_gives_nothing() {
    let mut iter = Vec::<i16>::new().into_iter();
    let mut buffer = [[3i16; 2]; BUFFER_SIZE];
    assert_eq!(iter_to_buffer(&mut iter, &mut buffer), 0);
    assert_eq!(buffer[0], [3, 3]);
}

#[test]
fn single_sample_starts_one_frame() {
    let mut iter = vec![9i16].into_iter();
    let mut buffer = [[0i16; 2]; BUFFER_SIZE];
    assert_eq!(iter_to_buffer(&mut iter, &mut buffer), 1);
    assert_eq!(buffer[0], [0, 0]);
}

#[test]
fn rate_falls_back_to_default() {
    assert_eq!(playback_rate(None), DEFAULT_RATE);
    assert_eq!(playback_rate(None), 44100);
    assert_eq!(playback_rate(Some(48000)), 48000);
}

#[test]
fn loop_waits_while_not_playing() {
    let mut state = PlaybackLoop::new();
    assert!(matches!(state.on_idle(false), Step::Wait));
}

#[test]
fn loop_finishes_when_playing_without_source() {
    let mut state = PlaybackLoop::new();
    assert!(matches!(state.on_idle(true), Step::Finish));
}

#[test]
fn loop_plays_a_loaded_track_to_its_end() {
    let mut state = PlaybackLoop::new();
    match state.on_action(Action::Load("/music/a.mp3".to_string())) {
        Step::Start(path) => assert_eq!(path, "/music/a.mp3"),
        other => panic!("unexpected step {:?}", other),
    }
    assert!(matches!(state.on_idle(true), Step::Fill));
    assert!(matches!(state.on_filled(250), Step::Write(250)));
    assert!(matches!(state.on_idle(true), Step::Fill));
    assert!(matches!(state.on_filled(0), Step::Finish));
    assert!(matches!(state.on_idle(true), Step::Finish));
}

#[test]
fn stop_action_changes_nothing() {
    let mut state = PlaybackLoop::new();
    assert!(matches!(state.on_action(Action::Stop), Step::Wait));
    assert!(matches!(state.on_idle(true), Step::Finish));
    let mut loaded = PlaybackLoop::new();
    loaded.on_action(Action::Load("x.mp3".to_string()));
    assert!(matches!(loaded.on_action(Action::Stop), Step::Wait));
    assert!(matches!(loaded.on_idle(true), Step::Fill));
}

#[test]
fn queued_action_goes_before_playback() {
    let mut state = PlaybackLoop::new();
    match state.on_round(Some(Action::Load("/music/a.mp3".to_string())), true) {
        Step::Start(path) => assert_eq!(path, "/music/a.mp3"),
        other => panic!("unexpected step {:?}", other),
    }
    assert!(matches!(state.on_round(Some(Action::Stop), true), Step::Wait));
    assert!(matches!(state.on_round(None, true), Step::Fill));
    assert!(matches!(state.on_round(None, false), Step::Wait));
}

#[test]
fn quiet_rounds_wait() {
    let mut state = PlaybackLoop::new();
    for _ in 0..5 {
        assert!(matches!(state.on_round(None, false), Step::Wait));
    }
    assert!(matches!(state.on_round(None, true), Step::Finish));
}

#[test]
fn queued_actions_are_handled_in_order() {
    let mut state = PlaybackLoop::new();
    let actions = vec![
        Action::Load("/music/a.mp3".to_string()),
        Action::Stop,
        Action::Load("/music/b.mp3".to_string()),
    ];
    let mut started = Vec::new();
    let mut waits = 0;
    for action in actions {
        match state.on_round(Some(action), true) {
            Step::Start(path) => started.push(path),
            Step::Wait => waits += 1,
            other => panic!("unexpected step {:?}", other),
        }
    }
    assert_eq!(started, vec!["/music/a.mp3".to_string(), "/music/b.mp3".to_string()]);
    assert_eq!(waits, 1);
}
