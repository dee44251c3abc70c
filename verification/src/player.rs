//! The player as the interface sees it: whether playback is paused, and the
//! requests that pausing, resuming and stopping send to the playback side.
use crate::playback::Action;
use vstd::prelude::*;

verus! {

/// A request for the playback side.
#[derive(PartialEq, Eq, Structural, Clone, Copy, Debug)]
pub enum PlayerRequest {
    /// Stop writing samples, keeping the current track.
    Pause,
    /// Write samples again.
    Resume,
    /// Stop playing the current track.
    Stop,
}

/// The player state that the interface keeps.
pub struct Player {
    paused: bool,
}

impl View for Player {
    /// Whether playback is paused.
    type V = bool;

    closed spec fn view(&self) -> bool {
        self.paused
    }
}

impl Player {
    /// A player that is not paused.
    pub fn new() -> (player: Self)
        ensures
            !player@,
    {
        Player { paused: false }
    }

    /// Asks the player to load the file at `path`. Loading is not forwarded
    /// to the playback side: the call has no effect.
    pub fn load(&self, path: &String) {
    }

    /// Whether playback is paused.
    pub fn is_paused(&self) -> (paused: bool)
        ensures
            paused == self@,
    {
        self.paused
    }

    /// Pauses playback; returns the request for the playback side.
    pub fn pause(&mut self) -> (request: PlayerRequest)
        ensures
            final(self)@,
            request == PlayerRequest::Pause,
        no_unwind
    {
        self.paused = true;
        PlayerRequest::Pause
    }

    /// Resumes paused playback; returns the request for the playback side.
    pub fn resume(&mut self) -> (request: PlayerRequest)
        ensures
            !final(self)@,
            request == PlayerRequest::Resume,
        no_unwind
    {
        self.paused = false;
        PlayerRequest::Resume
    }

    /// Stops playback; returns the request for the playback side.
    pub fn stop(&mut self) -> (request: PlayerRequest)
        ensures
            !final(self)@,
            request == PlayerRequest::Stop,
        no_unwind
    {
        self.paused = false;
        PlayerRequest::Stop
    }
}

/// What a request does on the playback side: the action to queue for the
/// playback thread, if any, and the new value of the shared playing flag.
/// Pausing and stopping clear the flag, resuming sets it, and stopping also
/// queues a `Stop` action.
pub fn playback_effect(request: PlayerRequest) -> (effect: (Option<Action>, bool))
    ensures
        effect.1 == (request == PlayerRequest::Resume),
        effect.0 matches Some(action) ==> action is Stop,
        effect.0 is Some <==> request == PlayerRequest::Stop,
{
    match request {
        PlayerRequest::Pause => (None, false),
        PlayerRequest::Resume => (None, true),
        PlayerRequest::Stop => (Some(Action::Stop), false),
    }
}

} // verus!
