use mp3_player::playback::Action;
use mp3_player::player::{playback_effect, Player, PlayerRequest};

#[test]
fn new_player_is_not_paused() {
    assert!(!Player::new().is_paused());
}

#[test]
fn pause_and_resume() {
    let mut player = Player::new();
    assert_eq!(player.pause(), PlayerRequest::Pause);
    assert!(player.is_paused());
    assert_eq!(player.resume(), PlayerRequest::Resume);
    assert!(!player.is_paused());
}

#[test]
fn stop_clears_pause() {
    let mut player = Player::new();
    player.pause();
    assert_eq!(player.stop(), PlayerRequest::Stop);
    assert!(!player.is_paused());
}

#[test]
fn load_changes_nothing() {
    let mut player = Player::new();
    player.pause();
    player.load(&"/music/a.mp3".to_string());
    assert!(player.is_paused());
}

#[test]
fn effects_on_the_playback_side() {
    assert!(matches!(playback_effect(PlayerRequest::Pause), (None, false)));
    assert!(matches!(playback_effect(PlayerRequest::Resume), (None, true)));
    assert!(matches!(playback_effect(PlayerRequest::Stop), (Some(Action::Stop), false)));
}
