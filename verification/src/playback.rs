//! Sample buffering for the playback thread.
use vstd::prelude::*;
use vstd::std_specs::iter::IteratorSpec;

verus! {

/// Number of stereo frames in the playback buffer.
pub const BUFFER_SIZE: usize = 1000;

/// Number of items that `count` calls of `next` deliver from an iterator
/// that has `available` items left.
pub open spec fn delivered(count: int, available: int) -> int {
    if count < available { count } else { available }
}

/// The buffer after `iter_to_buffer` filled it from `samples`: the first
/// `pairs` frames hold consecutive pairs of samples, the others are untouched.
pub open spec fn filled_from(
    buffer: Seq<[i16; 2]>,
    before: Seq<[i16; 2]>,
    samples: Seq<i16>,
    pairs: int,
) -> bool {
    &&& buffer.len() == before.len()
    &&& forall|i: int|
        #![trigger buffer[i]]
        0 <= i < pairs ==> buffer[i][0] == samples[2 * i] && buffer[i][1] == samples[2 * i + 1]
    &&& forall|i: int| pairs <= i < buffer.len() ==> #[trigger] buffer[i] == before[i]
}

/// Takes at most `BUFFER_SIZE` samples from `iter` and stores them pairwise in
/// `buffer`; returns the number of frames started, counting a last frame that
/// got only one sample (such a frame is left as it was).
///
/// For an iterator that follows the iterator laws, with `s` the samples it had
/// left and `n` the smaller of `s.len()` and `BUFFER_SIZE`: exactly `n`
/// samples are consumed, the result is `(n + 1) / 2`, frame `i` holds
/// `s[2i], s[2i+1]` for every complete pair and every other frame is
/// unchanged. Whatever the iterator, the result is at most `BUFFER_SIZE / 2`.
pub fn iter_to_buffer<I: Iterator<Item = i16>>(
    iter: &mut I,
    buffer: &mut [[i16; 2]; BUFFER_SIZE],
) -> (size: usize)
    ensures
        size <= BUFFER_SIZE / 2,
        (*final(iter)).obeys_prophetic_iter_laws() == (*old(iter)).obeys_prophetic_iter_laws(),
        (*old(iter)).obeys_prophetic_iter_laws() ==> ({
            let s = (*old(iter)).remaining();
            let n = delivered(BUFFER_SIZE as int, s.len() as int);
            &&& size == (n + 1) / 2
            &&& (*final(iter)).remaining() == s.skip(n)
            &&& filled_from(final(buffer)@, old(buffer)@, s, n / 2)
        }),
{
    // `left` counts the calls of `next` that the size limit still allows.
    let mut left: usize = BUFFER_SIZE;
    let mut index: usize = 0;
    loop
        invariant_except_break
            left <= BUFFER_SIZE,
            left % 2 == 0,
            index == (BUFFER_SIZE - left) / 2,
            index <= BUFFER_SIZE / 2,
            (*iter).obeys_prophetic_iter_laws() == (*old(iter)).obeys_prophetic_iter_laws(),
            (*old(iter)).obeys_prophetic_iter_laws() ==> ({
                let s = (*old(iter)).remaining();
                let c = BUFFER_SIZE - left;
                let m = delivered(c as int, s.len() as int);
                &&& c - 1 <= m
                &&& index == (m + 1) / 2
                &&& (*iter).remaining() == s.skip(m)
                &&& filled_from(buffer@, old(buffer)@, s, m / 2)
            }),
        ensures
            index <= BUFFER_SIZE / 2,
            (*iter).obeys_prophetic_iter_laws() == (*old(iter)).obeys_prophetic_iter_laws(),
            (*old(iter)).obeys_prophetic_iter_laws() ==> ({
                let s = (*old(iter)).remaining();
                let n = delivered(BUFFER_SIZE as int, s.len() as int);
                &&& index == (n + 1) / 2
                &&& (*iter).remaining() == s.skip(n)
                &&& filled_from(buffer@, old(buffer)@, s, n / 2)
            }),
        decreases left,
    {
        if left == 0 {
            break ;
        }
        left -= 1;
        let sample1 = match iter.next() {
            Some(sample) => sample,
            None => {
                break ;
            },
        };
        if left > 0 {
            left -= 1;
            let ghost before = buffer@;
            if let Some(sample2) = iter.next() {
                buffer[index] = [sample1, sample2];
                proof {
                    if (*old(iter)).obeys_prophetic_iter_laws() {
                        let s = (*old(iter)).remaining();
                        let c = BUFFER_SIZE - left;
                        assert(buffer@[index as int] == [sample1, sample2]);
                        assert(s.skip(c - 2)[0] == s[c - 2]);
                        assert(s.skip(c - 2).drop_first() =~= s.skip(c - 1));
                        assert(s.skip(c - 1)[0] == s[c - 1]);
                        assert(s.skip(c - 1).drop_first() =~= s.skip(c as int));
                    }
                }
            } else {
                proof {
                    if (*old(iter)).obeys_prophetic_iter_laws() {
                        let s = (*old(iter)).remaining();
                        let c = BUFFER_SIZE - left;
                        assert(s.skip(c - 2).drop_first() =~= s.skip(c - 1));
                    }
                }
            }
        }
        index += 1;
    }
    index
}

/// Sample rate used when the decoder does not give one.
pub const DEFAULT_RATE: u32 = 44100;

/// The sample rate of the playback stream: the decoder's, else `DEFAULT_RATE`.
pub fn playback_rate(source_rate: Option<u32>) -> (rate: u32)
    ensures
        rate == match source_rate {
            Some(r) => r,
            None => DEFAULT_RATE,
        },
{
    match source_rate {
        Some(rate) => rate,
        None => DEFAULT_RATE,
    }
}

/// A request taken from the playback queue.
#[derive(Debug)]
pub enum Action {
    /// Play the file at this path.
    Load(String),
    /// Stop playing; the playback thread takes no action on it.
    Stop,
}

/// What the playback thread does next.
#[derive(Debug)]
pub enum Step {
    /// Open the file at this path, decode it, start a playback stream at its
    /// rate (see `playback_rate`) and mark the application as not stopped.
    Start(String),
    /// Nothing to do in this round.
    Wait,
    /// Fill the buffer from the decoder with `iter_to_buffer` and report the
    /// result to `on_filled`.
    Fill,
    /// Write this many frames of the buffer to the playback stream.
    Write(usize),
    /// The track is over: mark the application as stopped, clear the playing
    /// flag and drop the decoder.
    Finish,
}

/// The playback thread's own state: whether it holds a decoder.
pub struct PlaybackLoop {
    has_source: bool,
}

impl View for PlaybackLoop {
    /// Whether a decoder is loaded.
    type V = bool;

    closed spec fn view(&self) -> bool {
        self.has_source
    }
}

/// The state after a queued `action`, and the step it calls for.
pub open spec fn after_action(has_source: bool, action: Action) -> (bool, Step) {
    match action {
        Action::Load(path) => (true, Step::Start(path)),
        Action::Stop => (has_source, Step::Wait),
    }
}

/// The state after a round with an empty queue, and the step it calls for:
/// nothing while not playing, a fill while a decoder is loaded, the end of
/// the track otherwise.
pub open spec fn after_idle(has_source: bool, playing: bool) -> (bool, Step) {
    if !playing {
        (has_source, Step::Wait)
    } else if has_source {
        (true, Step::Fill)
    } else {
        (false, Step::Finish)
    }
}

/// The state after a fill that produced `size` frames, and the step it calls
/// for: a write when something was produced, the end of the track otherwise.
pub open spec fn after_fill(has_source: bool, size: usize) -> (bool, Step) {
    if size > 0 {
        (has_source, Step::Write(size))
    } else {
        (false, Step::Finish)
    }
}

/// The state after one round of the playback thread, and the step it calls
/// for: an action taken from the queue is handled first, whatever the
/// playing flag; only a round with an empty queue looks at the flag.
pub open spec fn after_round(has_source: bool, action: Option<Action>, playing: bool) -> (bool, Step) {
    match action {
        Some(a) => after_action(has_source, a),
        None => after_idle(has_source, playing),
    }
}

/// What the playback thread meets in one round: the action taken from the
/// queue, if any, the playing flag, and the number of frames a fill of the
/// buffer would produce.
pub struct Round {
    pub action: Option<Action>,
    pub playing: bool,
    pub filled: usize,
}

/// The state after a whole round, and the step the thread carries out in it:
/// a fill that the round asks for is followed by `after_fill`.
pub open spec fn after_full_round(has_source: bool, round: Round) -> (bool, Step) {
    let (state, step) = after_round(has_source, round.action, round.playing);
    if step is Fill {
        after_fill(state, round.filled)
    } else {
        (state, step)
    }
}

/// The state after the rounds `rounds`, and the steps carried out in them,
/// in order.
pub open spec fn run_rounds(has_source: bool, rounds: Seq<Round>) -> (bool, Seq<Step>)
    decreases rounds.len(),
{
    if rounds.len() == 0 {
        (has_source, Seq::empty())
    } else {
        let (state, step) = after_full_round(has_source, rounds[0]);
        let (last, steps) = run_rounds(state, rounds.drop_first());
        (last, seq![step] + steps)
    }
}

impl PlaybackLoop {
    /// A playback thread without a decoder.
    pub fn new() -> (state: Self)
        ensures
            !state@,
    {
        PlaybackLoop { has_source: false }
    }

    /// Handles an action taken from the queue.
    pub fn on_action(&mut self, action: Action) -> (step: Step)
        ensures
            (final(self)@, step) == after_action(old(self)@, action),
    {
        match action {
            Action::Load(path) => {
                self.has_source = true;
                Step::Start(path)
            },
            Action::Stop => Step::Wait,
        }
    }

    /// Handles a round in which the queue was empty; `playing` is the shared
    /// playing flag.
    pub fn on_idle(&mut self, playing: bool) -> (step: Step)
        ensures
            (final(self)@, step) == after_idle(old(self)@, playing),
    {
        if !playing {
            Step::Wait
        } else if self.has_source {
            Step::Fill
        } else {
            Step::Finish
        }
    }

    /// Handles one round: the action taken from the queue if there was one,
    /// a round with an empty queue otherwise (`playing` is the shared
    /// playing flag).
    pub fn on_round(&mut self, action: Option<Action>, playing: bool) -> (step: Step)
        ensures
            (final(self)@, step) == after_round(old(self)@, action, playing),
    {
        match action {
            Some(action) => self.on_action(action),
            None => self.on_idle(playing),
        }
    }

    /// Handles the number of frames that a fill produced.
    pub fn on_filled(&mut self, size: usize) -> (step: Step)
        requires
            size <= BUFFER_SIZE,
        ensures
            (final(self)@, step) == after_fill(old(self)@, size),
    {
        if size > 0 {
            Step::Write(size)
        } else {
            self.has_source = false;
            Step::Finish
        }
    }
}

/// The playback thread fills and writes only while it holds a decoder, only
/// a `Load` gives it one, every write covers between one frame and the whole
/// buffer, and the end of a track always drops the decoder.
pub proof fn lemma_playback_steps(has_source: bool, action: Action, playing: bool, size: usize)
    requires
        size <= BUFFER_SIZE,
    ensures
        after_idle(has_source, playing).1 is Fill ==> has_source,
        after_fill(has_source, size).1 matches Step::Write(n) ==> 0 < n <= BUFFER_SIZE,
        after_action(has_source, action).0 && !has_source ==> action is Load,
        after_idle(has_source, playing).1 is Finish ==> !after_idle(has_source, playing).0,
        after_fill(has_source, size).1 is Finish ==> !after_fill(has_source, size).0,
        !has_source ==> !after_idle(has_source, playing).0,
{
}

/// A queued action is handled before any playback: a round that takes an
/// action never fills nor writes, whatever the playing flag, and a popped
/// `Stop` changes nothing. A `Load` makes the file's decoder the source and
/// starts it, without writing in that round.
pub proof fn lemma_actions_go_first(has_source: bool, action: Action, playing: bool, filled: usize)
    ensures
        after_full_round(has_source, Round { action: Some(action), playing, filled })
            == after_action(has_source, action),
        !(after_full_round(has_source, Round { action: Some(action), playing, filled }).1 is Fill),
        !(after_full_round(has_source, Round { action: Some(action), playing, filled }).1 is Write),
        action is Stop ==> after_full_round(has_source, Round { action: Some(action), playing, filled })
            == (has_source, Step::Wait),
        action matches Action::Load(path) ==> after_full_round(
            has_source,
            Round { action: Some(action), playing, filled },
        ) == (true, Step::Start(path)),
{
}

/// A round with an empty queue while playing ends the track when there is
/// no decoder or the decoder produced nothing: the step is `Finish` and the
/// decoder is gone.
pub proof fn lemma_exhausted_round_finishes(has_source: bool, filled: usize)
    requires
        !has_source || filled == 0,
    ensures
        after_full_round(has_source, Round { action: None, playing: true, filled })
            == (false, Step::Finish),
{
}

/// As long as no action is queued and the playing flag stays clear, the
/// playback thread does nothing: every round is a `Wait` and its state does
/// not change.
pub proof fn lemma_quiet_rounds_wait(has_source: bool, rounds: Seq<Round>)
    requires
        forall|i: int| 0 <= i < rounds.len() ==> (#[trigger] rounds[i]).action is None && !rounds[i].playing,
    ensures
        run_rounds(has_source, rounds).0 == has_source,
        forall|i: int| 0 <= i < rounds.len() ==> (#[trigger] run_rounds(has_source, rounds).1[i]) is Wait,
        run_rounds(has_source, rounds).1.len() == rounds.len(),
    decreases rounds.len(),
{
    if rounds.len() > 0 {
        let rest = rounds.drop_first();
        assert forall|i: int| 0 <= i < rest.len() implies (#[trigger] rest[i]).action is None
            && !rest[i].playing by {
            assert(rest[i] == rounds[i + 1]);
        }
        lemma_quiet_rounds_wait(has_source, rest);
        let steps = run_rounds(has_source, rounds).1;
        assert forall|i: int| 0 <= i < rounds.len() implies (#[trigger] steps[i]) is Wait by {
            if i > 0 {
                assert(steps[i] == run_rounds(has_source, rest).1[i - 1]);
            }
        }
    }
}

/// While actions are queued, the playback thread handles exactly one of them
/// per round, in the order they were taken from the queue, and neither fills
/// nor writes: the step of the `i`-th round is the step of the `i`-th action.
pub proof fn lemma_queued_actions_in_order(has_source: bool, rounds: Seq<Round>)
    requires
        forall|i: int| 0 <= i < rounds.len() ==> (#[trigger] rounds[i]).action is Some,
    ensures
        run_rounds(has_source, rounds).1.len() == rounds.len(),
        forall|i: int|
            0 <= i < rounds.len() ==> #[trigger] run_rounds(has_source, rounds).1[i] == after_action(
                has_source,
                rounds[i].action->0,
            ).1,
        forall|i: int|
            0 <= i < rounds.len() ==> !(#[trigger] run_rounds(has_source, rounds).1[i] is Fill)
                && !(run_rounds(has_source, rounds).1[i] is Write),
    decreases rounds.len(),
{
    if rounds.len() > 0 {
        let rest = rounds.drop_first();
        let state = after_full_round(has_source, rounds[0]).0;
        assert forall|i: int| 0 <= i < rest.len() implies (#[trigger] rest[i]).action is Some by {
            assert(rest[i] == rounds[i + 1]);
        }
        lemma_queued_actions_in_order(state, rest);
        let steps = run_rounds(has_source, rounds).1;
        assert forall|i: int| 0 <= i < rounds.len() implies #[trigger] steps[i] == after_action(
            has_source,
            rounds[i].action->0,
        ).1 by {
            if i > 0 {
                assert(steps[i] == run_rounds(state, rest).1[i - 1]);
                assert(rest[i - 1] == rounds[i]);
            }
        }
    }
}

/// A round with an empty queue keeps the decoder unless it ends the track:
/// waiting and filling leave the state as it was, and only `Finish` drops the
/// decoder. While playing with a decoder, a round whose fill produced
/// frames writes exactly those frames and keeps the decoder.
pub proof fn lemma_idle_rounds_keep_the_decoder(has_source: bool, playing: bool, filled: usize)
    ensures
        !(after_round(has_source, None, playing).1 is Finish) ==> after_round(has_source, None, playing).0
            == has_source,
        !(after_full_round(has_source, Round { action: None, playing, filled }).1 is Finish)
            ==> after_full_round(has_source, Round { action: None, playing, filled }).0 == has_source,
        after_round(has_source, None, playing).1 is Finish ==> playing && !has_source,
        has_source && playing ==> after_round(has_source, None, playing) == (true, Step::Fill),
        has_source && playing && filled > 0 ==> after_full_round(
            has_source,
            Round { action: None, playing, filled },
        ) == (true, Step::Write(filled)),
{
}

/// Playing a loaded track goes on round after round: while the queue stays
/// empty, the flag stays set and every fill produces frames, each round
/// writes what its fill produced and the decoder is kept.
pub proof fn lemma_playing_keeps_writing(rounds: Seq<Round>)
    requires
        forall|i: int|
            0 <= i < rounds.len() ==> (#[trigger] rounds[i]).action is None && rounds[i].playing
                && rounds[i].filled > 0,
    ensures
        run_rounds(true, rounds).0,
        run_rounds(true, rounds).1.len() == rounds.len(),
        forall|i: int|
            0 <= i < rounds.len() ==> #[trigger] run_rounds(true, rounds).1[i] == Step::Write(
                rounds[i].filled,
            ),
    decreases rounds.len(),
{
    if rounds.len() > 0 {
        let rest = rounds.drop_first();
        assert forall|i: int| 0 <= i < rest.len() implies (#[trigger] rest[i]).action is None
            && rest[i].playing && rest[i].filled > 0 by {
            assert(rest[i] == rounds[i + 1]);
        }
        lemma_playing_keeps_writing(rest);
        let steps = run_rounds(true, rounds).1;
        assert forall|i: int| 0 <= i < rounds.len() implies #[trigger] steps[i] == Step::Write(
            rounds[i].filled,
        ) by {
            if i > 0 {
                assert(steps[i] == run_rounds(true, rest).1[i - 1]);
                assert(rest[i - 1] == rounds[i]);
            }
        }
    }
}

/// A `Load` always gives the thread a decoder and starts exactly the file
/// it names; a `Stop` changes nothing. A fill that produced frames writes
/// exactly those frames and keeps the decoder; an empty fill ends the track
/// and drops it.
pub proof fn lemma_actions_and_fills(has_source: bool, path: String, size: usize)
    ensures
        after_action(has_source, Action::Load(path)) == (true, Step::Start(path)),
        after_action(has_source, Action::Stop) == (has_source, Step::Wait),
        size > 0 ==> after_fill(has_source, size) == (has_source, Step::Write(size)),
        size == 0 ==> after_fill(has_source, size) == (false, Step::Finish),
{
}

} // verus!
