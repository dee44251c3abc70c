//! What a click on the toolbar's play button does.
use crate::playlist::Playlist;
use crate::tags::opt_text;
use vstd::prelude::*;

verus! {

/// Stock id of the play icon.
pub const PLAY_STOCK: &'static str = "gtk-media-play";

/// Stock id of the pause icon.
pub const PAUSE_STOCK: &'static str = "gtk-media-pause";

/// The stock id that the play button switches to from `stock`: the pause
/// icon when it shows the play icon, the play icon otherwise.
pub open spec fn toggled(stock: Option<Seq<char>>) -> Seq<char> {
    if stock == Some(PLAY_STOCK@) {
        PAUSE_STOCK@
    } else {
        PLAY_STOCK@
    }
}

/// A click runs two icon handlers in turn, each switching the stock id; the
/// second one also shows the album cover when it finds the play icon. The
/// result is the final stock id and whether the cover is shown.
pub open spec fn click_stock(stock: Option<Seq<char>>) -> (Seq<char>, bool) {
    let first = toggled(stock);
    (toggled(Some(first)), first == PLAY_STOCK@)
}

/// Whether the stock id `stock` is the play icon.
fn shows_play(stock: &Option<String>) -> (play: bool)
    ensures
        play == (opt_text(*stock) == Some(PLAY_STOCK@)),
{
    match stock {
        Some(id) => *id == String::from_str(PLAY_STOCK),
        None => false,
    }
}

/// The stock id that one icon handler sets on the play button, given the
/// button's current stock id.
pub fn toggled_stock(stock: &Option<String>) -> (next: &'static str)
    ensures
        next@ == toggled(opt_text(*stock)),
{
    if shows_play(stock) {
        PAUSE_STOCK
    } else {
        PLAY_STOCK
    }
}

/// The two icon handlers of a click on the play button: returns the stock id
/// the button ends with and whether the album cover is shown.
pub fn play_clicked(stock: &Option<String>) -> (result: (&'static str, bool))
    ensures
        (result.0@, result.1) == click_stock(opt_text(*stock)),
{
    let first = toggled_stock(stock);
    let after_first = Some(String::from_str(first));
    let show_cover = shows_play(&after_first);
    let second = toggled_stock(&after_first);
    (second, show_cover)
}

/// The playback handler of a click on the play button: when the application
/// is stopped it plays the selected row and shows the cover if that worked;
/// otherwise it pauses. Returns whether the cover is shown.
pub fn play_or_pause<C>(playlist: &mut Playlist<C>, stopped: bool) -> (show_cover: bool)
    ensures
        if stopped {
            (final(playlist)@, show_cover) == old(playlist)@.play()
        } else {
            final(playlist)@ == old(playlist)@.pause() && !show_cover
        },
        final(playlist)@.wf(),
{
    if stopped {
        playlist.play()
    } else {
        playlist.pause();
        false
    }
}

/// Clicking the play button twice leaves it as one click does; from any
/// stock id but the play icon a click ends on the pause icon and shows the
/// cover, while from the play icon it stays on the play icon without cover.
pub proof fn lemma_play_click_settles(stock: Option<Seq<char>>)
    ensures
        click_stock(Some(click_stock(stock).0)) == click_stock(stock),
        stock != Some(PLAY_STOCK@) ==> click_stock(stock) == (PAUSE_STOCK@, true),
        stock == Some(PLAY_STOCK@) ==> click_stock(stock) == (PLAY_STOCK@, false),
{
    lemma_stock_ids_differ();
}

/// The play icon and the pause icon have different stock ids.
proof fn lemma_stock_ids_differ()
    ensures
        PLAY_STOCK@ != PAUSE_STOCK@,
{
    reveal_strlit("gtk-media-play");
    reveal_strlit("gtk-media-pause");
    assert(PLAY_STOCK@.len() != PAUSE_STOCK@.len());
}

} // verus!
