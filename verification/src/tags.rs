//! What a playlist row shows of an audio file: its ID3 tag fields, formatted.
use vstd::prelude::*;

verus! {

/// Text shown in the artist column when the tag names no artist.
pub const NO_ARTIST: &'static str = "(no artist)";

/// Text shown in the album column when the tag names no album.
pub const NO_ALBUM: &'static str = "(no album)";

/// Text shown in the genre column when the tag names no genre.
pub const NO_GENRE: &'static str = "(no genre)";

/// Text shown in the year column when the tag gives no year.
pub const NO_YEAR: &'static str = "(no year)";

/// Text shown for an unknown track number or track count.
pub const UNKNOWN_NUMBER: &'static str = "??";

/// Separator between the track number and the track count.
pub const TRACK_SEPARATOR: &'static str = " / ";

/// The fields of an ID3 tag that a playlist row shows.
pub struct TagInfo {
    pub title: Option<String>,
    pub artist: Option<String>,
    pub album: Option<String>,
    pub genre: Option<String>,
    pub year: Option<i32>,
    pub track: Option<u32>,
    pub total_tracks: Option<u32>,
}

/// One row of the playlist. The columns other than the title and the path
/// are `None` when the file had no readable tag; `cover` is the album art.
pub struct Track<C> {
    pub title: String,
    pub artist: Option<String>,
    pub album: Option<String>,
    pub genre: Option<String>,
    pub year: Option<String>,
    pub track: Option<String>,
    pub path: String,
    pub cover: Option<C>,
}

/// The character of the decimal digit `d`.
pub open spec fn digit_char(d: int) -> char {
    (d + 48) as char
}

/// Decimal digits of `n`, most significant first, without leading zeros.
pub open spec fn digits(n: nat) -> Seq<char>
    decreases n,
{
    if n < 10 {
        seq![digit_char(n as int)]
    } else {
        digits(n / 10).push(digit_char((n % 10) as int))
    }
}

/// Decimal text of `n`, with a minus sign when it is negative.
pub open spec fn decimal(n: int) -> Seq<char> {
    if n < 0 {
        seq!['-'] + digits((-n) as nat)
    } else {
        digits(n as nat)
    }
}

/// What `std::path::Path::file_stem` gives for the path `path` (the file name
/// without its last extension), as text; `None` when the path has no file name.
pub uninterp spec fn file_stem_text(path: Seq<char>) -> Option<Seq<char>>;

/// The file name shown for a path: its stem, or nothing when it has none.
pub open spec fn display_name(path: Seq<char>) -> Seq<char> {
    match file_stem_text(path) {
        Some(stem) => stem,
        None => Seq::empty(),
    }
}

/// The text of `field`, or `fallback` when the field is missing.
pub open spec fn text_or(field: Option<String>, fallback: Seq<char>) -> Seq<char> {
    match field {
        Some(text) => text@,
        None => fallback,
    }
}

/// The year column: the year in decimal, or `NO_YEAR`.
pub open spec fn year_text(year: Option<i32>) -> Seq<char> {
    match year {
        Some(y) => decimal(y as int),
        None => NO_YEAR@,
    }
}

/// A track number or count in decimal, or `UNKNOWN_NUMBER`.
pub open spec fn number_text(n: Option<u32>) -> Seq<char> {
    match n {
        Some(v) => decimal(v as int),
        None => UNKNOWN_NUMBER@,
    }
}

/// The track column: `"<track> / <total>"`.
pub open spec fn track_text(track: Option<u32>, total: Option<u32>) -> Seq<char> {
    number_text(track) + TRACK_SEPARATOR@ + number_text(total)
}

/// The view of an optional string.
pub open spec fn opt_text(field: Option<String>) -> Option<Seq<char>> {
    match field {
        Some(text) => Some(text@),
        None => None,
    }
}

impl<C> Track<C> {
    /// The row that `Track::from_tag(path, tag, cover)` builds: without a tag,
    /// only the title (the file name) and the path are set; with a tag, every
    /// text column is set, missing fields shown by their placeholders, and the
    /// cover is kept.
    pub open spec fn describes(self, path: Seq<char>, tag: Option<TagInfo>, cover: Option<C>) -> bool {
        &&& self.path@ == path
        &&& match tag {
            None => {
                &&& self.title@ == display_name(path)
                &&& self.artist is None
                &&& self.album is None
                &&& self.genre is None
                &&& self.year is None
                &&& self.track is None
                &&& self.cover is None
            },
            Some(t) => {
                &&& self.title@ == text_or(t.title, display_name(path))
                &&& opt_text(self.artist) == Some(text_or(t.artist, NO_ARTIST@))
                &&& opt_text(self.album) == Some(text_or(t.album, NO_ALBUM@))
                &&& opt_text(self.genre) == Some(text_or(t.genre, NO_GENRE@))
                &&& opt_text(self.year) == Some(year_text(t.year))
                &&& opt_text(self.track) == Some(track_text(t.track, t.total_tracks))
                &&& self.cover == cover
            },
        }
    }

    /// Builds the playlist row of the file at `path`, given the tag read from
    /// it (`None` when no tag could be read) and the album art taken from it.
    pub fn from_tag(path: &str, tag: Option<&TagInfo>, cover: Option<C>) -> (row: Self)
        ensures
            row.describes(
                path@,
                match tag {
                    Some(t) => Some(*t),
                    None => None,
                },
                cover,
            ),
    {
        let filename = match file_stem(path) {
            Some(stem) => stem,
            None => String::new(),
        };
        let path = String::from_str(path);
        match tag {
            None => Track {
                title: filename,
                artist: None,
                album: None,
                genre: None,
                year: None,
                track: None,
                path,
                cover: None,
            },
            Some(tag) => {
                let title = text_or_else(&tag.title, filename.as_str());
                let artist = text_or_else(&tag.artist, NO_ARTIST);
                let album = text_or_else(&tag.album, NO_ALBUM);
                let genre = text_or_else(&tag.genre, NO_GENRE);
                let year = match tag.year {
                    Some(y) => i32_text(y),
                    None => String::from_str(NO_YEAR),
                };
                let mut track = number_or_unknown(tag.track);
                track.append(TRACK_SEPARATOR);
                let total = number_or_unknown(tag.total_tracks);
                track.append(total.as_str());
                Track {
                    title,
                    artist: Some(artist),
                    album: Some(album),
                    genre: Some(genre),
                    year: Some(year),
                    track: Some(track),
                    path,
                    cover,
                }
            },
        }
    }
}

/// A copy of `field`, or `fallback` when it is missing.
fn text_or_else(field: &Option<String>, fallback: &str) -> (r: String)
    ensures
        r@ == text_or(*field, fallback@),
{
    match field {
        Some(text) => text.clone(),
        None => String::from_str(fallback),
    }
}

/// `n` in decimal, or `UNKNOWN_NUMBER` when it is missing.
fn number_or_unknown(n: Option<u32>) -> (r: String)
    ensures
        r@ == number_text(n),
{
    match n {
        Some(v) => u32_text(v),
        None => String::from_str(UNKNOWN_NUMBER),
    }
}

/// Calls `ToString::to_string` on a `u32`; std formats an integer as its
/// decimal digits without leading zeros, which `decimal` states.
#[verifier::external_body]
fn u32_text(n: u32) -> (r: String)
    ensures
        r@ == decimal(n as int),
{
    n.to_string()
}

/// Calls `ToString::to_string` on an `i32`; std formats an integer as its
/// decimal digits without leading zeros, after a minus sign when it is
/// negative, which `decimal` states.
#[verifier::external_body]
fn i32_text(n: i32) -> (r: String)
    ensures
        r@ == decimal(n as int),
{
    n.to_string()
}

/// Calls `std::path::Path::file_stem` on `path` and returns the stem as text.
/// The contract names the result `file_stem_text`; the stem of a UTF-8 path is
/// UTF-8 text, so the conversion loses nothing.
#[verifier::external_body]
fn file_stem(path: &str) -> (r: Option<String>)
    ensures
        opt_text(r) == file_stem_text(path@),
{
    std::path::Path::new(path).file_stem().map(|stem| stem.to_string_lossy().into_owned())
}

} // verus!
