use mp3_player::player::PlayerRequest;
use mp3_player::playlist::Playlist;

fn three_songs() -> Playlist<u32> {
    let mut playlist = Playlist::new();
    playlist.add("/music/a.mp3", None, None);
    playlist.add("/music/b.mp3", None, None);
    playlist.add("/music/c.mp3", None, None);
    playlist
}

#[test]
fn empty_playlist_cannot_play_or_move() {
    let mut playlist: Playlist<u32> = Playlist::new();
    assert_eq!(playlist.len(), 0);
    assert!(!playlist.play());
    assert!(!playlist.next());
    assert!(!playlist.previous());
    assert_eq!(playlist.selected(), None);
    assert_eq!(playlist.path(), None);
    assert!(playlist.pixbuf().is_none());
    assert!(playlist.take_requests().is_empty());
}

#[test]
fn add_appends_rows_and_keeps_selection() {
    let mut playlist = three_songs();
    assert_eq!(playlist.len(), 3);
    assert_eq!(playlist.row(0).title, "a");
    assert_eq!(playlist.row(2).path, "/music/c.mp3");
    assert!(playlist.select(Some(1)));
    playlist.add("/music/d.mp3", None, None);
    assert_eq!(playlist.selected(), Some(1));
    assert_eq!(playlist.row(3).title, "d");
}

#[test]
fn play_without_selection_fails() {
    let mut playlist = three_songs();
    assert!(!playlist.play());
    assert_eq!(playlist.path(), None);
}

#[test]
fn play_makes_the_selected_row_current() {
    let mut playlist = three_songs();
    assert!(playlist.select(Some(2)));
    assert!(playlist.play());
    assert_eq!(playlist.path().as_deref(), Some("/music/c.mp3"));
    assert!(playlist.take_requests().is_empty());
}

#[test]
fn next_starts_at_the_first_row_and_stops_at_the_last() {
    let mut playlist = three_songs();
    assert!(playlist.next());
    assert_eq!(playlist.selected(), Some(0));
    assert_eq!(playlist.path().as_deref(), Some("/music/a.mp3"));
    assert!(playlist.next());
    assert!(playlist.next());
    assert_eq!(playlist.selected(), Some(2));
    assert_eq!(playlist.path().as_deref(), Some("/music/c.mp3"));
    assert!(!playlist.next());
    assert_eq!(playlist.selected(), Some(2));
}

#[test]
fn previous_starts_at_the_last_row_and_stops_at_the_first() {
    let mut playlist = three_songs();
    assert!(playlist.previous());
    assert_eq!(playlist.selected(), Some(2));
    assert!(playlist.previous());
    assert!(playlist.previous());
    assert_eq!(playlist.selected(), Some(0));
    assert!(!playlist.previous());
    assert_eq!(playlist.selected(), Some(0));
    assert_eq!(playlist.path().as_deref(), Some("/music/a.mp3"));
}

#[test]
fn next_then_previous_returns_to_the_same_row() {
    let mut playlist = three_songs();
    assert!(playlist.select(Some(1)));
    assert!(playlist.next());
    assert!(playlist.previous());
    assert_eq!(playlist.selected(), Some(1));
    assert!(playlist.previous());
    assert!(playlist.next());
    assert_eq!(playlist.selected(), Some(1));
}

#[test]
fn pause_then_play_resumes_the_same_song() {
    let mut playlist = three_songs();
    assert!(playlist.next());
    playlist.pause();
    assert!(playlist.play());
    assert_eq!(playlist.path().as_deref(), Some("/music/a.mp3"));
    assert_eq!(
        playlist.take_requests(),
        vec![PlayerRequest::Pause, PlayerRequest::Resume]
    );
    assert!(playlist.take_requests().is_empty());
}

#[test]
fn pause_then_play_of_another_row_switches_song() {
    let mut playlist = three_songs();
    assert!(playlist.next());
    playlist.pause();
    assert!(playlist.select(Some(1)));
    assert!(playlist.play());
    assert_eq!(playlist.path().as_deref(), Some("/music/b.mp3"));
    assert_eq!(playlist.take_requests(), vec![PlayerRequest::Pause]);
}

#[test]
fn stop_forgets_the_song() {
    let mut playlist = three_songs();
    assert!(playlist.next());
    playlist.stop();
    assert_eq!(playlist.path(), None);
    assert_eq!(playlist.take_requests(), vec![PlayerRequest::Stop]);
    assert!(playlist.play());
    assert_eq!(playlist.path().as_deref(), Some("/music/a.mp3"));
    assert!(playlist.take_requests().is_empty());
}

#[test]
fn stop_after_pause_then_play_does_not_resume() {
    let mut playlist = three_songs();
    assert!(playlist.next());
    playlist.pause();
    playlist.stop();
    assert!(playlist.play());
    assert_eq!(
        playlist.take_requests(),
        vec![PlayerRequest::Pause, PlayerRequest::Stop]
    );
}

#[test]
fn remove_selection_removes_the_selected_row() {
    let mut playlist = three_songs();
    assert!(playlist.select(Some(1)));
    playlist.remove_selection();
    assert_eq!(playlist.len(), 2);
    assert_eq!(playlist.selected(), None);
    assert_eq!(playlist.row(0).title, "a");
    assert_eq!(playlist.row(1).title, "c");
    playlist.remove_selection();
    assert_eq!(playlist.len(), 2);
}

#[test]
fn removing_the_added_row_restores_the_rows() {
    let mut playlist = three_songs();
    playlist.add("/music/new.mp3", None, None);
    assert!(playlist.select(Some(3)));
    playlist.remove_selection();
    assert_eq!(playlist.len(), 3);
    assert_eq!(playlist.row(2).title, "c");
}

#[test]
fn select_refuses_missing_rows() {
    let mut playlist = three_songs();
    assert!(!playlist.select(Some(3)));
    assert_eq!(playlist.selected(), None);
    assert!(playlist.select(Some(0)));
    assert!(playlist.select(None));
    assert_eq!(playlist.selected(), None);
}

#[test]
fn pixbuf_is_the_art_of_the_selected_row() {
    let mut playlist: Playlist<u32> = Playlist::new();
    let empty = mp3_player::tags::TagInfo {
        title: None,
        artist: None,
        album: None,
        genre: None,
        year: None,
        track: None,
        total_tracks: None,
    };
    playlist.add("/music/with_art.mp3", Some(&empty), Some(42));
    playlist.add("/music/without_tag.mp3", None, Some(7));
    assert!(playlist.pixbuf().is_none());
    assert!(playlist.select(Some(0)));
    assert_eq!(playlist.pixbuf(), Some(&42));
    assert!(playlist.select(Some(1)));
    assert_eq!(playlist.pixbuf(), None);
}
