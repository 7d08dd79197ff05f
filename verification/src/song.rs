//! A song of the running game: its answers and who has found them.

use crate::text::{find_open_match, first_open_match, flags_of, normalize, normalized, texts_of};
use vstd::prelude::*;

verus! {

/// A song as the game keeps it: title and artists, each with a flag that
/// says whether somebody has already been credited for it.
#[derive(Debug)]
pub struct SongState {
    pub title: (String, bool),
    pub artists: Vec<(String, bool)>,
    pub url: String,
}

/// A song as it is shown once the round is over.
#[derive(Debug)]
pub struct Song {
    pub title: String,
    pub artists: Vec<String>,
    pub url: String,
}

/// Mathematical value of a [`Song`].
pub ghost struct SongView {
    pub title: Seq<char>,
    pub artists: Seq<Seq<char>>,
    pub url: Seq<char>,
}

/// Mathematical value of a [`SongState`].
pub ghost struct SongStateView {
    pub title: Seq<char>,
    pub title_found: bool,
    pub artists: Seq<(Seq<char>, bool)>,
    pub url: Seq<char>,
}

/// The value of an answer with its found-flag.
pub open spec fn answer_view(entry: (String, bool)) -> (Seq<char>, bool) {
    (entry.0@, entry.1)
}

impl View for Song {
    type V = SongView;

    open spec fn view(&self) -> SongView {
        SongView { title: self.title@, artists: texts_of(self.artists@), url: self.url@ }
    }
}

impl View for SongState {
    type V = SongStateView;

    open spec fn view(&self) -> SongStateView {
        SongStateView {
            title: self.title.0@,
            title_found: self.title.1,
            artists: self.artists@.map_values(|entry: (String, bool)| answer_view(entry)),
            url: self.url@,
        }
    }
}

impl SongStateView {
    /// A song nobody has guessed anything of yet.
    pub open spec fn unplayed(song: SongView) -> SongStateView {
        SongStateView {
            title: song.title,
            title_found: false,
            artists: song.artists.map_values(|name: Seq<char>| (name, false)),
            url: song.url,
        }
    }

    /// The song without the flags.
    pub open spec fn song(self) -> SongView {
        SongView {
            title: self.title,
            artists: self.artists.map_values(|entry: (Seq<char>, bool)| entry.0),
            url: self.url,
        }
    }

    /// The comparison key of every artist, in order.
    pub open spec fn artist_keys(self) -> Seq<Seq<char>> {
        self.artists.map_values(|entry: (Seq<char>, bool)| normalized(entry.0))
    }

    /// The found-flag of every artist, in order.
    pub open spec fn artist_flags(self) -> Seq<bool> {
        self.artists.map_values(|entry: (Seq<char>, bool)| entry.1)
    }

    /// The guess is the title and the title is still open.
    pub open spec fn title_hit(self, guess: Seq<char>) -> bool {
        !self.title_found && normalized(self.title) == normalized(guess)
    }

    /// The first artist that is still open and whose name the guess is.
    pub open spec fn artist_hit(self, guess: Seq<char>) -> Option<int> {
        first_open_match(self.artist_keys(), self.artist_flags(), normalized(guess))
    }

    /// The song with its title found.
    pub open spec fn credit_title(self) -> SongStateView {
        SongStateView { title_found: true, ..self }
    }

    /// The song with its artist at position `i` found.
    pub open spec fn credit_artist(self, i: int) -> SongStateView {
        SongStateView { artists: self.artists.update(i, (self.artists[i].0, true)), ..self }
    }

    /// The song after a guess at its title.
    pub open spec fn after_title_guess(self, guess: Seq<char>) -> SongStateView {
        if self.title_hit(guess) {
            self.credit_title()
        } else {
            self
        }
    }

    /// The song after a guess at one of its artists.
    pub open spec fn after_artist_guess(self, guess: Seq<char>) -> SongStateView {
        match self.artist_hit(guess) {
            Some(i) => self.credit_artist(i),
            None => self,
        }
    }
}

impl Clone for Song {
    fn clone(&self) -> (copy: Self)
        ensures
            copy@ == self@,
    {
        let copy = Song {
            title: self.title.clone(),
            artists: clone_names(&self.artists),
            url: self.url.clone(),
        };
        copy
    }
}

/// A copy of a list of names.
pub fn clone_names(names: &Vec<String>) -> (copy: Vec<String>)
    ensures
        texts_of(copy@) == texts_of(names@),
{
    let mut copy: Vec<String> = Vec::new();
    let mut i: usize = 0;
    while i < names.len()
        invariant
            i <= names.len(),
            copy.len() == i,
            forall|j: int| 0 <= j < i ==> (#[trigger] copy@[j])@ == names@[j]@,
        decreases names.len() - i,
    {
        copy.push(names[i].clone());
        i += 1;
    }
    assert(texts_of(copy@) =~= texts_of(names@));
    copy
}

impl SongState {
    /// A song that has not been played: nothing is found.
    pub fn new(song: Song) -> (state: Self)
        ensures
            state@ == SongStateView::unplayed(song@),
    {
        let mut artists: Vec<(String, bool)> = Vec::new();
        let mut i: usize = 0;
        while i < song.artists.len()
            invariant
                i <= song.artists.len(),
                artists.len() == i,
                forall|j: int|
                    0 <= j < i ==> (#[trigger] artists@[j]).0@ == song.artists@[j]@
                        && !artists@[j].1,
            decreases song.artists.len() - i,
        {
            artists.push((song.artists[i].clone(), false));
            i += 1;
        }
        let state = SongState { title: (song.title, false), artists, url: song.url };
        assert(state@.artists =~= SongStateView::unplayed(song@).artists);
        state
    }

    /// The song as it is revealed: title, artist names and preview.
    pub fn to_song(&self) -> (song: Song)
        ensures
            song@ == self@.song(),
    {
        let mut names: Vec<String> = Vec::new();
        let mut i: usize = 0;
        while i < self.artists.len()
            invariant
                i <= self.artists.len(),
                names.len() == i,
                forall|j: int| 0 <= j < i ==> (#[trigger] names@[j])@ == self.artists@[j].0@,
            decreases self.artists.len() - i,
        {
            names.push(self.artists[i].0.clone());
            i += 1;
        }
        let song = Song { title: self.title.0.clone(), artists: names, url: self.url.clone() };
        assert(song@.artists =~= self@.song().artists);
        song
    }

    /// The comparison key of every artist, in order.
    fn artist_keys(&self) -> (keys: Vec<String>)
        ensures
            texts_of(keys@) == self@.artist_keys(),
    {
        let mut keys: Vec<String> = Vec::new();
        let mut i: usize = 0;
        while i < self.artists.len()
            invariant
                i <= self.artists.len(),
                keys.len() == i,
                forall|j: int|
                    0 <= j < i ==> (#[trigger] keys@[j])@ == normalized(self.artists@[j].0@),
            decreases self.artists.len() - i,
        {
            keys.push(normalize(self.artists[i].0.as_str()));
            i += 1;
        }
        assert(texts_of(keys@) =~= self@.artist_keys());
        keys
    }

    /// Whether the guess is the title and the title is still open.
    pub fn title_hit(&self, guess: &str) -> (hit: bool)
        ensures
            hit == self@.title_hit(guess@),
    {
        if self.title.1 {
            return false;
        }
        let key = normalize(guess);
        let title_key = normalize(self.title.0.as_str());
        title_key == key
    }

    /// The position of the first open artist whose name the guess is.
    pub fn artist_hit(&self, guess: &str) -> (hit: Option<usize>)
        ensures
            match hit {
                Some(i) => self@.artist_hit(guess@) == Some(i as int) && i < self.artists.len(),
                None => self@.artist_hit(guess@) is None,
            },
    {
        let key = normalize(guess);
        let keys = self.artist_keys();
        assert(flags_of(self.artists@) =~= self@.artist_flags());
        let hit = find_open_match(&keys, &self.artists, &key);
        proof {
            crate::text::lemma_first_open_match_from(
                self@.artist_keys(),
                self@.artist_flags(),
                key@,
                0,
            );
        }
        hit
    }

    /// Credits the title to the guess if the guess is the title and the
    /// title is still open, and returns the title as it is written.
    pub fn guess_title(&mut self, guess: &str) -> (hit: Option<String>)
        ensures
            final(self)@ == old(self)@.after_title_guess(guess@),
            hit is Some == old(self)@.title_hit(guess@),
            hit matches Some(title) ==> title@ == old(self)@.title,
    {
        if self.title_hit(guess) {
            self.title.1 = true;
            Some(self.title.0.clone())
        } else {
            None
        }
    }

    /// Credits the first open artist whose name the guess is, and returns
    /// that name as it is written.
    pub fn guess_artist(&mut self, guess: &str) -> (hit: Option<String>)
        ensures
            final(self)@ == old(self)@.after_artist_guess(guess@),
            hit is Some == old(self)@.artist_hit(guess@) is Some,
            hit matches Some(name) ==> name@ == old(self)@.artists[
                old(self)@.artist_hit(guess@).unwrap()
            ].0,
    {
        match self.artist_hit(guess) {
            Some(i) => {
                let name = self.artists[i].0.clone();
                let credited = name.clone();
                self.artists.set(i, (credited, true));
                assert(self@.artists =~= old(self)@.credit_artist(i as int).artists);
                Some(name)
            },
            None => None,
        }
    }
}

} // verus!
