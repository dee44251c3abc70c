//! The playlist: its rows, the selected row, the song being played, and the
//! player requests that playing, pausing and stopping produce.
use crate::player::{Player, PlayerRequest};
use crate::tags::{opt_text, TagInfo, Track};
use vstd::prelude::*;

verus! {

/// The abstract state of a playlist.
pub struct PlaylistState<C> {
    /// The rows, in display order.
    pub rows: Seq<Track<C>>,
    /// The selected row, if any.
    pub selected: Option<int>,
    /// Path of the song handed to the player last.
    pub current: Option<Seq<char>>,
    /// Whether the player is paused.
    pub paused: bool,
    /// Requests for the playback side, oldest first, not yet taken.
    pub requests: Seq<PlayerRequest>,
}

impl<C> PlaylistState<C> {
    /// The selected row, if any, is a row of the playlist.
    pub open spec fn wf(self) -> bool {
        self.selected matches Some(i) ==> 0 <= i < self.rows.len()
    }

    /// The same playlist with `selected` as its selection.
    pub open spec fn with_selection(self, selected: Option<int>) -> Self {
        PlaylistState { selected, ..self }
    }

    /// Path of the selected row, if any.
    pub open spec fn selected_path(self) -> Option<Seq<char>> {
        match self.selected {
            Some(i) => Some(self.rows[i].path@),
            None => None,
        }
    }

    /// Appends `row` at the end; the selection does not move.
    pub open spec fn add(self, row: Track<C>) -> Self {
        PlaylistState { rows: self.rows.push(row), ..self }
    }

    /// Removes the selected row, which leaves no row selected; without a
    /// selection nothing changes.
    pub open spec fn remove_selection(self) -> Self {
        match self.selected {
            Some(i) => PlaylistState { rows: self.rows.remove(i), selected: None, ..self },
            None => self,
        }
    }

    /// Plays the selected row: resumes it when the player is paused on that
    /// very song, makes it the current song otherwise. The flag tells whether
    /// a row was selected; without one nothing changes.
    pub open spec fn play(self) -> (Self, bool) {
        match self.selected_path() {
            None => (self, false),
            Some(path) => if self.paused && self.current == Some(path) {
                (
                    PlaylistState {
                        paused: false,
                        requests: self.requests.push(PlayerRequest::Resume),
                        ..self
                    },
                    true,
                )
            } else {
                (PlaylistState { current: Some(path), ..self }, true)
            },
        }
    }

    /// Pauses the player.
    pub open spec fn pause(self) -> Self {
        PlaylistState { paused: true, requests: self.requests.push(PlayerRequest::Pause), ..self }
    }

    /// Forgets the current song and stops the player.
    pub open spec fn stop(self) -> Self {
        PlaylistState {
            current: None,
            paused: false,
            requests: self.requests.push(PlayerRequest::Stop),
            ..self
        }
    }

    /// Selects the row after the selected one (the first row when none is
    /// selected) and plays it. Fails, changing nothing, when there is no such row.
    pub open spec fn next(self) -> (Self, bool) {
        match self.selected {
            Some(i) => if i + 1 < self.rows.len() {
                (self.with_selection(Some(i + 1)).play().0, true)
            } else {
                (self, false)
            },
            None => if self.rows.len() > 0 {
                (self.with_selection(Some(0)).play().0, true)
            } else {
                (self, false)
            },
        }
    }

    /// Selects the row before the selected one (the last row when none is
    /// selected) and plays it. Fails, changing nothing, when there is no such row.
    pub open spec fn previous(self) -> (Self, bool) {
        match self.selected {
            Some(i) => if i > 0 {
                (self.with_selection(Some(i - 1)).play().0, true)
            } else {
                (self, false)
            },
            None => if self.rows.len() > 0 {
                (self.with_selection(Some(self.rows.len() - 1)).play().0, true)
            } else {
                (self, false)
            },
        }
    }
}

/// A playlist whose rows carry album art of type `C`.
pub struct Playlist<C> {
    rows: Vec<Track<C>>,
    selected: Option<usize>,
    current_song: Option<String>,
    player: Player,
    requests: Vec<PlayerRequest>,
}

impl<C> View for Playlist<C> {
    type V = PlaylistState<C>;

    closed spec fn view(&self) -> PlaylistState<C> {
        PlaylistState {
            rows: self.rows@,
            selected: match self.selected {
                Some(i) => Some(i as int),
                None => None,
            },
            current: opt_text(self.current_song),
            paused: self.player@,
            requests: self.requests@,
        }
    }
}

impl<C> Playlist<C> {
    /// The selected row, if any, is a row of the playlist.
    #[verifier::type_invariant]
    spec fn selection_in_range(self) -> bool {
        self.selected matches Some(i) ==> i < self.rows.len()
    }

    /// Takes the rows out, leaving no row and no selection behind.
    fn take_rows(&mut self) -> (rows: Vec<Track<C>>)
        ensures
            rows@ == old(self)@.rows,
            final(self)@ == (PlaylistState { rows: Seq::empty(), selected: None, ..old(self)@ }),
    {
        self.selected = None;
        let mut rows = Vec::new();
        std::mem::swap(&mut rows, &mut self.rows);
        rows
    }

    /// Appends `request` to the pending player requests.
    fn queue(&mut self, request: PlayerRequest)
        ensures
            final(self)@ == (PlaylistState {
                requests: old(self)@.requests.push(request),
                ..old(self)@
            }),
    {
        proof {
            use_type_invariant(&*self);
        }
        let mut requests = Vec::new();
        std::mem::swap(&mut requests, &mut self.requests);
        requests.push(request);
        self.requests = requests;
    }

    /// An empty playlist: no row, no selection, no current song, the player
    /// not paused and no request.
    pub fn new() -> (playlist: Self)
        ensures
            playlist@ == (PlaylistState::<C> {
                rows: Seq::empty(),
                selected: None,
                current: None,
                paused: false,
                requests: Seq::empty(),
            }),
            playlist@.wf(),
    {
        Playlist {
            rows: Vec::new(),
            selected: None,
            current_song: None,
            player: Player::new(),
            requests: Vec::new(),
        }
    }

    /// Number of rows.
    pub fn len(&self) -> (n: usize)
        ensures
            n == self@.rows.len(),
    {
        self.rows.len()
    }

    /// The row at `index`.
    pub fn row(&self, index: usize) -> (row: &Track<C>)
        requires
            index < self@.rows.len(),
        ensures
            *row == self@.rows[index as int],
    {
        &self.rows[index]
    }

    /// The selected row, if any; it is always a row of the playlist.
    pub fn selected(&self) -> (selected: Option<usize>)
        ensures
            match selected {
                Some(i) => self@.selected == Some(i as int) && i < self@.rows.len(),
                None => self@.selected is None,
            },
    {
        proof {
            use_type_invariant(self);
        }
        self.selected
    }

    /// Selects the row `row` (`None` clears the selection). A row that does
    /// not exist is refused: the result is `false` and nothing changes.
    pub fn select(&mut self, row: Option<usize>) -> (done: bool)
        ensures
            done == (row matches Some(i) ==> i < old(self)@.rows.len()),
            final(self)@ == if done {
                old(self)@.with_selection(
                    match row {
                        Some(i) => Some(i as int),
                        None => None,
                    },
                )
            } else {
                old(self)@
            },
            final(self)@.wf(),
    {
        proof {
            use_type_invariant(&*self);
        }
        let done = match row {
            Some(i) => i < self.rows.len(),
            None => true,
        };
        if done {
            self.selected = row;
        }
        done
    }

    /// Adds the file at `path` at the end of the playlist, shown by `tag`
    /// (`None` when no tag could be read from it) with `cover` as its art.
    /// Only the title and the path are shown without a tag.
    pub fn add(&mut self, path: &str, tag: Option<&TagInfo>, cover: Option<C>)
        ensures
            final(self)@ == old(self)@.add(final(self)@.rows.last()),
            final(self)@.rows.last().describes(
                path@,
                match tag {
                    Some(t) => Some(*t),
                    None => None,
                },
                cover,
            ),
            final(self)@.wf(),
    {
        proof {
            use_type_invariant(&*self);
        }
        let row = Track::from_tag(path, tag, cover);
        let selected = self.selected;
        let mut rows = self.take_rows();
        rows.push(row);
        self.rows = rows;
        self.selected = selected;
    }

    /// Removes the selected row, if any.
    pub fn remove_selection(&mut self)
        ensures
            final(self)@ == old(self)@.remove_selection(),
            final(self)@.wf(),
    {
        proof {
            use_type_invariant(&*self);
        }
        if let Some(index) = self.selected {
            let mut rows = self.take_rows();
            rows.remove(index);
            self.rows = rows;
        }
    }

    /// The album art of the selected row, if a row is selected and has art.
    pub fn pixbuf(&self) -> (cover: Option<&C>)
        ensures
            match cover {
                Some(c) => self@.selected matches Some(i) && self@.rows[i].cover == Some(*c),
                None => self@.selected matches Some(i) ==> self@.rows[i].cover is None,
            },
    {
        proof {
            use_type_invariant(self);
        }
        match self.selected {
            Some(index) => self.rows[index].cover.as_ref(),
            None => None,
        }
    }

    /// Path of the selected row, if any.
    fn selected_path(&self) -> (path: Option<String>)
        ensures
            opt_text(path) == self@.selected_path(),
    {
        proof {
            use_type_invariant(self);
        }
        match self.selected {
            Some(index) => Some(self.rows[index].path.clone()),
            None => None,
        }
    }

    /// Path of the song handed to the player last, if any.
    pub fn path(&self) -> (path: Option<String>)
        ensures
            opt_text(path) == self@.current,
    {
        match &self.current_song {
            Some(song) => Some(song.clone()),
            None => None,
        }
    }

    /// Plays the selected row (see `PlaylistState::play`); `false` when no
    /// row is selected.
    pub fn play(&mut self) -> (played: bool)
        ensures
            (final(self)@, played) == old(self)@.play(),
            final(self)@.wf(),
    {
        proof {
            use_type_invariant(&*self);
        }
        let played = if let Some(path) = self.selected_path() {
            let same_song = match &self.current_song {
                Some(song) => *song == path,
                None => false,
            };
            if self.player.is_paused() && same_song {
                let request = self.player.resume();
                self.queue(request);
            } else {
                self.player.load(&path);
                self.current_song = Some(path);
            }
            true
        } else {
            false
        };
        played
    }

    /// Forgets the current song and stops the player.
    pub fn stop(&mut self)
        ensures
            final(self)@ == old(self)@.stop(),
            final(self)@.wf(),
    {
        proof {
            use_type_invariant(&*self);
        }
        self.current_song = None;
        let request = self.player.stop();
        self.queue(request);
    }

    /// Selects and plays the next row (see `PlaylistState::next`).
    pub fn next(&mut self) -> (moved: bool)
        ensures
            (final(self)@, moved) == old(self)@.next(),
            final(self)@.wf(),
    {
        proof {
            use_type_invariant(&*self);
        }
        match self.selected {
            Some(index) => {
                if index + 1 >= self.rows.len() {
                    return false;
                }
                self.selected = Some(index + 1);
            },
            None => {
                if self.rows.len() == 0 {
                    return false;
                }
                self.selected = Some(0);
            },
        }
        self.play();
        true
    }

    /// Selects and plays the previous row (see `PlaylistState::previous`).
    pub fn previous(&mut self) -> (moved: bool)
        ensures
            (final(self)@, moved) == old(self)@.previous(),
            final(self)@.wf(),
    {
        proof {
            use_type_invariant(&*self);
        }
        match self.selected {
            Some(index) => {
                if index == 0 {
                    return false;
                }
                self.selected = Some(index - 1);
            },
            None => {
                if self.rows.len() == 0 {
                    return false;
                }
                self.selected = Some(self.rows.len() - 1);
            },
        }
        self.play();
        true
    }

    /// Pauses the player.
    pub fn pause(&mut self)
        ensures
            final(self)@ == old(self)@.pause(),
            final(self)@.wf(),
    {
        proof {
            use_type_invariant(&*self);
        }
        let request = self.player.pause();
        self.queue(request);
    }

    /// Hands out the pending player requests, oldest first, and forgets them.
    pub fn take_requests(&mut self) -> (requests: Vec<PlayerRequest>)
        ensures
            requests@ == old(self)@.requests,
            final(self)@ == (PlaylistState { requests: Seq::empty(), ..old(self)@ }),
            final(self)@.wf(),
    {
        proof {
            use_type_invariant(&*self);
        }
        let mut requests = Vec::new();
        std::mem::swap(&mut requests, &mut self.requests);
        requests
    }
}

/// Every playlist operation keeps the selection on a row of the playlist.
pub proof fn lemma_operations_keep_selection_in_range<C>(s: PlaylistState<C>, row: Track<C>)
    requires
        s.wf(),
    ensures
        s.add(row).wf(),
        s.remove_selection().wf(),
        s.play().0.wf(),
        s.pause().wf(),
        s.stop().wf(),
        s.next().0.wf(),
        s.previous().0.wf(),
{
}

/// Playing succeeds exactly when a row is selected; without a selection it
/// changes nothing. After a successful play the current song is the path of
/// the selected row.
pub proof fn lemma_play_plays_the_selected_row<C>(s: PlaylistState<C>)
    requires
        s.wf(),
    ensures
        s.play().1 == s.selected is Some,
        s.selected is None ==> s.play().0 == s,
        s.play().1 ==> s.play().0.current == s.selected_path(),
        s.play().0.selected == s.selected,
        s.play().0.rows == s.rows,
{
}

/// Moving to the next row and then to the previous one comes back to the row
/// selected at the start, and both moves succeed.
pub proof fn lemma_next_then_previous<C>(s: PlaylistState<C>)
    requires
        s.wf(),
        s.selected matches Some(i) && i + 1 < s.rows.len(),
    ensures
        s.next().1,
        s.next().0.previous().1,
        s.next().0.previous().0.selected == s.selected,
{
}

/// Moving to the previous row and then to the next one comes back to the row
/// selected at the start, and both moves succeed.
pub proof fn lemma_previous_then_next<C>(s: PlaylistState<C>)
    requires
        s.wf(),
        s.selected matches Some(i) && i > 0,
    ensures
        s.previous().1,
        s.previous().0.next().1,
        s.previous().0.next().0.selected == s.selected,
{
}

/// On the last row, moving to the next row fails and changes nothing; on the
/// first row, moving to the previous one fails and changes nothing. On an
/// empty playlist both fail and change nothing.
pub proof fn lemma_moves_stop_at_the_ends<C>(s: PlaylistState<C>)
    requires
        s.wf(),
    ensures
        s.selected == Some(s.rows.len() - 1) ==> s.next() == (s, false),
        s.selected == Some(0int) ==> s.previous() == (s, false),
        s.rows.len() == 0 ==> s.next() == (s, false) && s.previous() == (s, false),
{
}

/// Pausing the song being played and playing its row again resumes it: the
/// player is no longer paused, the current song stays, and the playback side
/// receives a pause and then a resume request.
pub proof fn lemma_pause_then_play_resumes<C>(s: PlaylistState<C>)
    requires
        s.wf(),
        s.selected is Some,
        s.current == s.selected_path(),
    ensures
        s.pause().play() == (
            PlaylistState {
                requests: s.requests.push(PlayerRequest::Pause).push(PlayerRequest::Resume),
                paused: false,
                ..s
            },
            true,
        ),
{
}

/// After a stop, playing the selected row starts it anew instead of resuming:
/// no resume request follows the stop request.
pub proof fn lemma_stop_then_play_loads<C>(s: PlaylistState<C>)
    requires
        s.wf(),
        s.selected is Some,
    ensures
        s.stop().play() == (
            PlaylistState {
                current: s.selected_path(),
                paused: false,
                requests: s.requests.push(PlayerRequest::Stop),
                ..s
            },
            true,
        ),
{
}

/// Removing a row that was just added and selected gives back the rows the
/// playlist had before the addition.
pub proof fn lemma_remove_undoes_add<C>(s: PlaylistState<C>, row: Track<C>)
    requires
        s.wf(),
    ensures
        s.add(row).with_selection(Some(s.rows.len() as int)).remove_selection().rows =~= s.rows,
{
}

/// A successful move to the next row selects it and makes its path the
/// current song, whatever was current or paused before: from row `i` it
/// goes to row `i + 1`, and without a selection to the first row. The move
/// succeeds exactly when that row exists, and the rows never change.
pub proof fn lemma_next_plays_the_new_row<C>(s: PlaylistState<C>)
    requires
        s.wf(),
    ensures
        s.next().0.rows == s.rows,
        s.next().1 <==> match s.selected {
            Some(i) => i + 1 < s.rows.len(),
            None => s.rows.len() > 0,
        },
        s.next().1 ==> s.next().0.selected == Some(
            match s.selected {
                Some(i) => i + 1,
                None => 0,
            },
        ),
        s.next().1 ==> s.next().0.current == Some(
            s.rows[s.next().0.selected->0].path@,
        ),
        s.next().1 ==> s.next().0.current == s.next().0.selected_path(),
        !s.next().1 ==> s.next().0 == s,
{
}

/// A successful move to the previous row selects it and makes its path the
/// current song, whatever was current or paused before: from row `i` it goes
/// to row `i - 1`, and without a selection to the last row. The move succeeds
/// exactly when that row exists, and the rows never change.
pub proof fn lemma_previous_plays_the_new_row<C>(s: PlaylistState<C>)
    requires
        s.wf(),
    ensures
        s.previous().0.rows == s.rows,
        s.previous().1 <==> match s.selected {
            Some(i) => i > 0,
            None => s.rows.len() > 0,
        },
        s.previous().1 ==> s.previous().0.selected == Some(
            match s.selected {
                Some(i) => i - 1,
                None => s.rows.len() - 1,
            },
        ),
        s.previous().1 ==> s.previous().0.current == Some(
            s.rows[s.previous().0.selected->0].path@,
        ),
        s.previous().1 ==> s.previous().0.current == s.previous().0.selected_path(),
        !s.previous().1 ==> s.previous().0 == s,
{
}

/// Playing never pauses: the player is paused afterwards only if it was
/// before, the only request it may queue is a single `Resume`, and only when
/// it resumes the paused current song. When the player is not paused, play
/// queues nothing and leaves it not paused. A successful play makes the
/// selected row's path the current song; the rows and the selection stay.
pub proof fn lemma_play_never_pauses<C>(s: PlaylistState<C>)
    requires
        s.wf(),
    ensures
        s.play().0.paused ==> s.paused,
        s.play().0.requests == s.requests || s.play().0.requests == s.requests.push(
            PlayerRequest::Resume,
        ),
        s.play().0.requests != s.requests ==> s.paused && !s.play().0.paused
            && s.current == s.selected_path(),
        !s.paused ==> !s.play().0.paused && s.play().0.requests == s.requests,
        s.play().1 ==> s.play().0.current == s.selected_path() && s.selected_path() is Some,
        s.play().0.rows == s.rows,
        s.play().0.selected == s.selected,
{
}

/// Pausing always pauses, whatever the selection, the rows or the current
/// song: the player is paused and exactly one `Pause` request is queued;
/// nothing else changes.
pub proof fn lemma_pause_always_pauses<C>(s: PlaylistState<C>)
    ensures
        s.pause().paused,
        s.pause().requests == s.requests.push(PlayerRequest::Pause),
        s.pause().requests.len() == s.requests.len() + 1,
        s.pause().requests.last() == PlayerRequest::Pause,
        s.pause().rows == s.rows,
        s.pause().selected == s.selected,
        s.pause().current == s.current,
{
}

/// Stopping always stops, whatever the selection: no song is current
/// afterwards, the player is not paused and exactly one `Stop` request is
/// queued; the rows and the selection stay.
pub proof fn lemma_stop_always_stops<C>(s: PlaylistState<C>)
    ensures
        s.stop().current is None,
        !s.stop().paused,
        s.stop().requests == s.requests.push(PlayerRequest::Stop),
        s.stop().rows == s.rows,
        s.stop().selected == s.selected,
{
}

/// Adding a row appends exactly that row after the others and touches
/// nothing else; removing the selection deletes exactly the selected row,
/// keeping the others in order, and clears the selection, and without a
/// selection it changes nothing. Neither queues a request.
pub proof fn lemma_add_and_remove_touch_only_rows<C>(s: PlaylistState<C>, row: Track<C>)
    requires
        s.wf(),
    ensures
        s.add(row).rows.len() == s.rows.len() + 1,
        s.add(row).rows.last() == row,
        forall|j: int| 0 <= j < s.rows.len() ==> #[trigger] s.add(row).rows[j] == s.rows[j],
        s.add(row).selected == s.selected && s.add(row).current == s.current
            && s.add(row).paused == s.paused && s.add(row).requests == s.requests,
        s.selected matches Some(i) ==> {
            let t = s.remove_selection();
            &&& t.rows.len() == s.rows.len() - 1
            &&& forall|j: int| 0 <= j < i ==> #[trigger] t.rows[j] == s.rows[j]
            &&& forall|j: int| i <= j < t.rows.len() ==> #[trigger] t.rows[j] == s.rows[j + 1]
            &&& t.selected is None
        },
        s.selected is None ==> s.remove_selection() == s,
        s.remove_selection().current == s.current && s.remove_selection().paused == s.paused
            && s.remove_selection().requests == s.requests,
{
}

} // verus!
