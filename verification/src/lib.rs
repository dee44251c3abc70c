//! Playlist, playback and tag-formatting logic of a small MP3 player.
pub mod mp3;
pub mod playback;
pub mod player;
pub mod playlist;
pub mod tags;
pub mod time;
pub mod toolbar;
