//! What the song catalogue hands over, and what can go wrong with it.

use crate::codes::{all_alphanumeric, is_alphanumeric};
use crate::song::Song;
use rand::rngs::StdRng;
use rand::seq::SliceRandom;
use rand::SeedableRng;
use vstd::prelude::*;
use vstd::seq_lib::lemma_multiset_commutative;
use vstd::string::StrSliceExecFns;
use vstd::string::StringExecFns;

verus! {

/// Why no songs could be had for a playlist.
#[derive(Debug, Clone, Copy, PartialEq, Eq, Structural)]
pub enum LoadError {
    /// The playlist link names no playlist.
    InvalidPlaylistLink,
    /// The catalogue could not be reached or does not know the playlist.
    PlaylistUnavailable,
    /// The playlist holds no track that can be played.
    NoPlayableTracks,
}

impl LoadError {
    /// The sentence for each error.
    pub open spec fn message_text(self) -> Seq<char> {
        match self {
            LoadError::InvalidPlaylistLink => "Failed to extract playlist ID from link"@,
            LoadError::PlaylistUnavailable => "Failed to fetch playlist"@,
            LoadError::NoPlayableTracks => "No playable tracks in playlist"@,
        }
    }

    /// The sentence shown to the players.
    pub fn message(&self) -> (text: String)
        ensures
            text@ == self.message_text(),
    {
        match self {
            LoadError::InvalidPlaylistLink => "Failed to extract playlist ID from link".to_owned(),
            LoadError::PlaylistUnavailable => "Failed to fetch playlist".to_owned(),
            LoadError::NoPlayableTracks => "No playable tracks in playlist".to_owned(),
        }
    }
}

/// `pattern` stands in `text` at position `at`.
pub open spec fn occurs_at(text: Seq<char>, pattern: Seq<char>, at: int) -> bool {
    &&& 0 <= at
    &&& at + pattern.len() <= text.len()
    &&& text.subrange(at, at + pattern.len()) == pattern
}

/// The first position at or after `start` at which `pattern` stands in
/// `text`.
pub open spec fn first_occurrence_from(text: Seq<char>, pattern: Seq<char>, start: int) -> Option<
    int,
>
    decreases text.len() + 1 - start,
{
    if start < 0 || start + pattern.len() > text.len() {
        None
    } else if occurs_at(text, pattern, start) {
        Some(start)
    } else {
        first_occurrence_from(text, pattern, start + 1)
    }
}

/// `first_occurrence_from` returns the least position from `start` on at
/// which the pattern stands, and nothing exactly when there is none.
pub proof fn lemma_first_occurrence_from(text: Seq<char>, pattern: Seq<char>, start: int)
    requires
        0 <= start,
    ensures
        match first_occurrence_from(text, pattern, start) {
            Some(at) => {
                &&& start <= at
                &&& occurs_at(text, pattern, at)
                &&& forall|j: int| start <= j < at ==> !occurs_at(text, pattern, j)
            },
            None => forall|j: int| start <= j ==> !occurs_at(text, pattern, j),
        },
    decreases text.len() + 1 - start,
{
    if start + pattern.len() <= text.len() && !occurs_at(text, pattern, start) {
        lemma_first_occurrence_from(text, pattern, start + 1);
    }
}

/// The second of the pieces into which the occurrences of `pattern` cut
/// `text`: what stands between the first occurrence and the next one, or
/// the end. Nothing if `pattern` does not occur.
pub open spec fn second_piece(text: Seq<char>, pattern: Seq<char>) -> Option<Seq<char>> {
    match first_occurrence_from(text, pattern, 0) {
        None => None,
        Some(first) => {
            let begin = first + pattern.len();
            match first_occurrence_from(text, pattern, begin) {
                Some(next) => Some(text.subrange(begin, next)),
                None => Some(text.subrange(begin, text.len() as int)),
            }
        },
    }
}

/// The playlist a link names: what follows `playlist/` in it, provided
/// that is made of ASCII letters and digits only.
pub open spec fn playlist_id(link: Seq<char>) -> Result<Seq<char>, LoadError> {
    match second_piece(link, "playlist/"@) {
        None => Err(LoadError::InvalidPlaylistLink),
        Some(id) => if all_alphanumeric(id) {
            Ok(id)
        } else {
            Err(LoadError::InvalidPlaylistLink)
        },
    }
}

/// The characters of a text.
pub fn chars_of(text: &str) -> (chars: Vec<char>)
    ensures
        chars@ == text@,
{
    broadcast use vstd::string::group_string_axioms;

    let mut chars: Vec<char> = Vec::new();
    for c in it: text.chars()
        invariant
            it.seq() == text@,
            chars@ == text@.subrange(0, it.index()),
    {
        chars.push(c);
        assert(chars@ =~= text@.subrange(0, it.index() + 1));
    }
    assert(chars@ =~= text@);
    chars
}

fn matches_at(text: &Vec<char>, pattern: &Vec<char>, at: usize) -> (found: bool)
    requires
        at + pattern.len() <= text.len(),
    ensures
        found == occurs_at(text@, pattern@, at as int),
{
    let mut i: usize = 0;
    while i < pattern.len()
        invariant
            i <= pattern.len(),
            at + pattern.len() <= text.len(),
            forall|j: int| 0 <= j < i ==> text@[at + j] == pattern@[j],
        decreases pattern.len() - i,
    {
        if text[at + i] != pattern[i] {
            assert(text@.subrange(at as int, at + pattern.len())[i as int] != pattern@[i as int]);
            return false;
        }
        i += 1;
    }
    assert(text@.subrange(at as int, at + pattern.len()) =~= pattern@);
    true
}

/// Finds the first occurrence of `pattern` in `text` at or after `start`.
pub fn find_from(text: &Vec<char>, pattern: &Vec<char>, start: usize) -> (found: Option<usize>)
    ensures
        match found {
            Some(at) => first_occurrence_from(text@, pattern@, start as int) == Some(at as int),
            None => first_occurrence_from(text@, pattern@, start as int) is None,
        },
{
    if pattern.len() > text.len() {
        return None;
    }
    let last: usize = text.len() - pattern.len();
    if start > last {
        return None;
    }
    let mut at: usize = start;
    loop
        invariant
            last + pattern.len() == text.len(),
            start <= at <= last,
            first_occurrence_from(text@, pattern@, start as int) == first_occurrence_from(
                text@,
                pattern@,
                at as int,
            ),
        decreases last - at,
    {
        if matches_at(text, pattern, at) {
            return Some(at);
        }
        if at == last {
            assert(first_occurrence_from(text@, pattern@, at + 1) is None);
            return None;
        }
        at += 1;
    }
}

fn is_ascii_alphanumeric(c: char) -> (yes: bool)
    ensures
        yes == is_alphanumeric(c),
{
    (c >= 'a' && c <= 'z') || (c >= 'A' && c <= 'Z') || (c >= '0' && c <= '9')
}

/// Reads the playlist id off a playlist link.
pub fn playlist_id_of(link: &str) -> (id: Result<String, LoadError>)
    ensures
        match playlist_id(link@) {
            Ok(text) => id matches Ok(found) && found@ == text,
            Err(error) => id matches Err(reported) && reported == error,
        },
{
    let text = chars_of(link);
    let pattern = chars_of("playlist/");
    let first = match find_from(&text, &pattern, 0) {
        Some(first) => first,
        None => {
            return Err(LoadError::InvalidPlaylistLink);
        },
    };
    proof {
        lemma_first_occurrence_from(text@, pattern@, 0);
        assert(first_occurrence_from(text@, pattern@, 0) == Some(first as int));
        assert(occurs_at(text@, pattern@, first as int));
        lemma_first_occurrence_from(text@, pattern@, first + pattern.len());
    }
    let length: usize = text.len();
    let begin: usize = first + pattern.len();
    let end: usize = match find_from(&text, &pattern, begin) {
        Some(next) => next,
        None => length,
    };
    let ghost id = text@.subrange(begin as int, end as int);
    assert(second_piece(link@, "playlist/"@) == Some(id));
    let mut i: usize = begin;
    while i < end
        invariant
            begin <= i <= end <= text.len(),
            id == text@.subrange(begin as int, end as int),
            second_piece(link@, "playlist/"@) == Some(id),
            forall|j: int| begin <= j < i ==> is_alphanumeric(#[trigger] text@[j]),
        decreases end - i,
    {
        if !is_ascii_alphanumeric(text[i]) {
            assert(id[i - begin] == text@[i as int]);
            assert(!all_alphanumeric(id));
            return Err(LoadError::InvalidPlaylistLink);
        }
        i += 1;
    }
    assert forall|j: int| 0 <= j < id.len() implies is_alphanumeric(#[trigger] id[j]) by {
        assert(id[j] == text@[begin + j]);
    }
    Ok(link.substring_char(begin, end).to_owned())
}

/// A track of a playlist as the catalogue describes it.
#[derive(Debug)]
pub struct TrackInfo {
    pub title: String,
    pub artists: Vec<String>,
    /// The recording code under which a preview can be looked up.
    pub isrc: Option<String>,
}

/// Calls rand's `SliceRandom::shuffle` with a `StdRng` seeded from the
/// thread's generator, which reorders the slice in place. Trusted: the
/// tracks are the same as before, each as often as before; their order is
/// up to chance.
#[verifier::external_body]
fn shuffle(tracks: &mut Vec<TrackInfo>)
    ensures
        final(tracks)@.to_multiset() == old(tracks)@.to_multiset(),
{
    let mut rng = StdRng::from_rng(&mut rand::rng());
    tracks.shuffle(&mut rng);
}

/// The number of tracks to take when `wanted` are asked for and
/// `available` are there.
pub open spec fn chosen_count(wanted: u8, available: nat) -> nat {
    if wanted <= available {
        wanted as nat
    } else {
        available
    }
}

/// Picks at random which tracks of a playlist are played: as many as
/// wanted, or all if there are fewer. No track is picked more often than
/// the playlist holds it.
pub fn choose_tracks(tracks: Vec<TrackInfo>, wanted: u8) -> (chosen: Vec<TrackInfo>)
    ensures
        chosen@.len() == chosen_count(wanted, tracks@.len()),
        chosen@.to_multiset().subset_of(tracks@.to_multiset()),
{
    let mut chosen = tracks;
    shuffle(&mut chosen);
    let ghost shuffled = chosen@;
    proof {
        shuffled.to_multiset_ensures();
        tracks@.to_multiset_ensures();
    }
    chosen.truncate(wanted as usize);
    proof {
        let kept = chosen@;
        let dropped = shuffled.subrange(kept.len() as int, shuffled.len() as int);
        assert(shuffled =~= kept + dropped);
        lemma_multiset_commutative(kept, dropped);
    }
    chosen
}

/// The address at which the preview of a recording is looked up.
pub open spec fn preview_lookup_text(isrc: Seq<char>) -> Seq<char> {
    "https://api.deezer.com/track/isrc:"@ + isrc
}

/// Builds the address at which the preview of a recording is looked up.
pub fn preview_lookup_url(isrc: &str) -> (url: String)
    ensures
        url@ == preview_lookup_text(isrc@),
{
    "https://api.deezer.com/track/isrc:".to_owned().concat(isrc)
}

/// The song that a track with a preview makes.
pub fn song_of_track(track: &TrackInfo, preview_url: String) -> (song: Song)
    ensures
        song@.title == track.title@,
        song@.artists == crate::text::texts_of(track.artists@),
        song@.url == preview_url@,
{
    Song {
        title: track.title.clone(),
        artists: crate::song::clone_names(&track.artists),
        url: preview_url,
    }
}

/// What a fetch has come to: the songs if there is at least one, an
/// error if no track could be played.
pub fn songs_or_error(songs: Vec<Song>) -> (loaded: Result<Vec<Song>, LoadError>)
    ensures
        songs@.len() > 0 ==> (loaded matches Ok(kept) && kept == songs),
        songs@.len() == 0 ==> (loaded matches Err(error) && error == LoadError::NoPlayableTracks),
{
    if songs.len() == 0 {
        Err(LoadError::NoPlayableTracks)
    } else {
        Ok(songs)
    }
}

} // verus!
