//! Scores and song progress of one lobby.

use crate::lobby::PlayerId;
use crate::song::{Song, SongState, SongStateView, SongView};
use std::collections::HashMap;
use vstd::prelude::*;
use vstd::std_specs::hash::spec_keys_iter;
use vstd::std_specs::iter::IteratorSpec;

verus! {

/// Scores of everybody who ever joined, the songs of the running game, the
/// number of the current round (0 before the first) and two time stamps.
#[derive(Debug)]
pub struct GuessTheSongGameState {
    pub scores: HashMap<PlayerId, u32>,
    pub songs: Vec<SongState>,
    pub song_index: usize,
    pub round_start_time: Option<u64>,
    pub last_guess_time: Option<u64>,
}

/// Mathematical value of a [`GuessTheSongGameState`].
pub ghost struct GameStateView {
    pub scores: Map<PlayerId, u32>,
    pub songs: Seq<SongStateView>,
    pub song_index: nat,
    pub round_start_time: Option<u64>,
    pub last_guess_time: Option<u64>,
}

impl View for GuessTheSongGameState {
    type V = GameStateView;

    open spec fn view(&self) -> GameStateView {
        GameStateView {
            scores: self.scores@,
            songs: self.songs@.map_values(|song: SongState| song@),
            song_index: self.song_index as nat,
            round_start_time: self.round_start_time,
            last_guess_time: self.last_guess_time,
        }
    }
}

impl GameStateView {
    /// No scores, no songs, no round.
    pub open spec fn fresh() -> GameStateView {
        GameStateView {
            scores: Map::empty(),
            songs: Seq::empty(),
            song_index: 0,
            round_start_time: None,
            last_guess_time: None,
        }
    }

    /// Between two games: every score is zero, no songs, no round.
    pub open spec fn reset(self) -> GameStateView {
        GameStateView {
            scores: self.scores.map_values(|score: u32| 0u32),
            songs: Seq::empty(),
            song_index: 0,
            round_start_time: None,
            last_guess_time: None,
        }
    }

    /// A round is running on a song of the list.
    pub open spec fn has_current_song(self) -> bool {
        0 < self.song_index <= self.songs.len()
    }

    /// Position of the current song in the list.
    pub open spec fn current(self) -> int {
        self.song_index - 1
    }

    /// The song of the current round, if there is one.
    pub open spec fn current_song(self) -> Option<SongView> {
        if self.has_current_song() {
            Some(self.songs[self.current()].song())
        } else {
            None
        }
    }

    /// One more song at the end of the list.
    pub open spec fn add_song(self, song: SongStateView) -> GameStateView {
        GameStateView { songs: self.songs.push(song), ..self }
    }

    /// The round number goes up by one; at the largest number a machine
    /// word holds it stays.
    pub open spec fn advance(self) -> GameStateView {
        GameStateView {
            song_index: if self.song_index < usize::MAX {
                self.song_index + 1
            } else {
                self.song_index
            },
            ..self
        }
    }

    /// The song of the next round: nothing once the songs are exhausted,
    /// and nothing once the round number cannot grow any more.
    pub open spec fn next_song(self) -> Option<SongView> {
        if self.song_index >= usize::MAX {
            None
        } else {
            self.advance().current_song()
        }
    }

    /// The guess is the open title of the current song.
    pub open spec fn title_hit(self, guess: Seq<char>) -> bool {
        self.has_current_song() && self.songs[self.current()].title_hit(guess)
    }

    /// The first open artist of the current song whose name the guess is.
    pub open spec fn artist_hit(self, guess: Seq<char>) -> Option<int> {
        if self.has_current_song() {
            self.songs[self.current()].artist_hit(guess)
        } else {
            None
        }
    }

    /// The state after a guess at the title of the current song.
    pub open spec fn after_title_guess(self, guess: Seq<char>) -> GameStateView {
        if self.has_current_song() {
            GameStateView {
                songs: self.songs.update(
                    self.current(),
                    self.songs[self.current()].after_title_guess(guess),
                ),
                ..self
            }
        } else {
            self
        }
    }

    /// The state after a guess at an artist of the current song.
    pub open spec fn after_artist_guess(self, guess: Seq<char>) -> GameStateView {
        if self.has_current_song() {
            GameStateView {
                songs: self.songs.update(
                    self.current(),
                    self.songs[self.current()].after_artist_guess(guess),
                ),
                ..self
            }
        } else {
            self
        }
    }

    /// Adding `points` to the player's score stays within a `u32`, or the
    /// player has no score.
    pub open spec fn can_award(self, id: PlayerId, points: u32) -> bool {
        self.scores.contains_key(id) ==> self.scores[id] + points <= u32::MAX
    }

    /// The score of a player who has one grows by `points`; for any other
    /// id nothing changes.
    pub open spec fn award(self, id: PlayerId, points: u32) -> GameStateView {
        if self.scores.contains_key(id) {
            GameStateView {
                scores: self.scores.insert(id, (self.scores[id] + points) as u32),
                ..self
            }
        } else {
            self
        }
    }

    /// A player who joins for the first time starts at zero.
    pub open spec fn enroll(self, id: PlayerId) -> GameStateView {
        GameStateView { scores: self.scores.insert(id, 0), ..self }
    }

    /// The same state with another start time of the round.
    pub open spec fn with_round_start(self, time: Option<u64>) -> GameStateView {
        GameStateView { round_start_time: time, ..self }
    }

    /// The same state with another time of the last accepted guess.
    pub open spec fn with_last_guess(self, time: Option<u64>) -> GameStateView {
        GameStateView { last_guess_time: time, ..self }
    }

    /// A guess at time `now` comes within `lockout_seconds` of the last
    /// accepted one, on whichever side of it the clock stands.
    pub open spec fn locked_out(self, now: u64, lockout_seconds: nat) -> bool {
        self.last_guess_time matches Some(last) && (if now >= last {
            now - last
        } else {
            last - now
        }) < lockout_seconds
    }
}

impl GuessTheSongGameState {
    /// No scores, no songs, no round.
    pub fn new() -> (state: Self)
        ensures
            state@ == GameStateView::fresh(),
    {
        let state = GuessTheSongGameState {
            scores: HashMap::new(),
            songs: Vec::new(),
            song_index: 0,
            round_start_time: None,
            last_guess_time: None,
        };
        assert(state@.songs =~= Seq::<SongStateView>::empty());
        state
    }

    /// Zeroes every score and forgets songs, round and time stamps. No
    /// score entry is added or removed.
    pub fn reset(&mut self)
        ensures
            final(self)@ == old(self)@.reset(),
    {
        broadcast use vstd::std_specs::hash::group_hash_axioms;

        let mut ids: Vec<PlayerId> = Vec::new();
        let ghost keys = spec_keys_iter(&self.scores).remaining();
        for id in it: self.scores.keys()
            invariant
                it.seq() == keys,
                ids@.len() == it.index(),
                forall|j: int| 0 <= j < ids@.len() ==> #[trigger] ids@[j] == *keys[j],
        {
            ids.push(*id);
        }
        assert forall|id: PlayerId| self.scores@.contains_key(id) implies ids@.contains(id) by {
            assert(keys.unref().to_set().contains(id));
            let j = choose|j: int| 0 <= j < keys.unref().len() && keys.unref()[j] == id;
            assert(ids@[j] == id);
        }
        assert forall|j: int| 0 <= j < ids@.len() implies self.scores@.contains_key(
            #[trigger] ids@[j],
        ) by {
            assert(keys.unref()[j] == ids@[j]);
            assert(keys.unref().to_set().contains(ids@[j]));
        }
        let mut i: usize = 0;
        while i < ids.len()
            invariant
                i <= ids.len(),
                self.scores@.dom() == old(self).scores@.dom(),
                forall|id: PlayerId| old(self).scores@.contains_key(id) ==> ids@.contains(id),
                forall|j: int| 0 <= j < ids@.len() ==> self.scores@.contains_key(#[trigger] ids@[j]),
                forall|j: int| 0 <= j < i ==> self.scores@[#[trigger] ids@[j]] == 0,
            decreases ids.len() - i,
        {
            self.scores.insert(ids[i], 0);
            assert(self.scores@.dom() =~= old(self).scores@.dom());
            i += 1;
        }
        self.song_index = 0;
        self.songs = Vec::new();
        self.round_start_time = None;
        self.last_guess_time = None;
        proof {
            assert forall|id: PlayerId| self.scores@.contains_key(id) implies self.scores@[id]
                == 0 by {
                assert(old(self).scores@.contains_key(id));
                assert(ids@.contains(id));
                let j = choose|j: int| 0 <= j < ids@.len() && ids@[j] == id;
                assert(self.scores@[ids@[j]] == 0);
            }
            assert(self@.scores =~= old(self)@.reset().scores);
            assert(self@.songs =~= old(self)@.reset().songs);
        }
    }

    /// When the running round started, if a round is running.
    pub fn get_round_start_time(&self) -> (time: Option<u64>)
        ensures
            time == self@.round_start_time,
    {
        self.round_start_time
    }

    /// The song of the running round, or nothing before the first round
    /// and after the last song.
    pub fn get_current_song(&self) -> (song: Option<Song>)
        ensures
            song is Some == self@.current_song() is Some,
            song matches Some(s) ==> s@ == self@.current_song().unwrap(),
    {
        if self.songs.len() == 0 || self.song_index == 0 || self.song_index - 1
            >= self.songs.len() {
            return None;
        }
        Some(self.songs[self.song_index - 1].to_song())
    }

    /// Appends a song to the list.
    pub fn add_song(&mut self, song: SongState)
        ensures
            final(self)@ == old(self)@.add_song(song@),
    {
        self.songs.push(song);
        assert(self@.songs =~= old(self)@.add_song(song@).songs);
    }

    /// Moves on to the next round and returns its song, or nothing once
    /// the list is exhausted. The round number never wraps.
    pub fn get_next_song(&mut self) -> (song: Option<Song>)
        ensures
            final(self)@ == old(self)@.advance(),
            song is Some == old(self)@.next_song() is Some,
            song matches Some(s) ==> s@ == old(self)@.next_song().unwrap(),
    {
        if self.song_index == usize::MAX {
            return None;
        }
        self.song_index += 1;
        self.get_current_song()
    }

    /// Whether a guess would be credited for the title of the current
    /// song. Nothing changes.
    pub fn title_would_hit(&self, guess: &str) -> (hit: bool)
        ensures
            hit == self@.title_hit(guess@),
    {
        if self.song_index == 0 || self.song_index - 1 >= self.songs.len() {
            return false;
        }
        self.songs[self.song_index - 1].title_hit(guess)
    }

    /// Whether a guess would be credited for an artist of the current
    /// song. Nothing changes.
    pub fn artist_would_hit(&self, guess: &str) -> (hit: bool)
        ensures
            hit == self@.artist_hit(guess@) is Some,
    {
        if self.song_index == 0 || self.song_index - 1 >= self.songs.len() {
            return false;
        }
        self.songs[self.song_index - 1].artist_hit(guess).is_some()
    }

    /// Whether a guess at time `now` comes within `lockout_seconds` of
    /// the last accepted guess.
    pub fn locked_out(&self, now: u64, lockout_seconds: u8) -> (locked: bool)
        ensures
            locked == self@.locked_out(now, lockout_seconds as nat),
    {
        match self.last_guess_time {
            Some(last) => if now >= last {
                now - last < lockout_seconds as u64
            } else {
                last - now < lockout_seconds as u64
            },
            None => false,
        }
    }

    /// Credits the first open artist of the current song whose name the
    /// guess is. Before the first round and after the last song nothing
    /// matches.
    pub fn is_correct_artist(&mut self, guess: &str) -> (hit: Option<String>)
        ensures
            final(self)@ == old(self)@.after_artist_guess(guess@),
            hit is Some == old(self)@.artist_hit(guess@) is Some,
            hit matches Some(name) ==> name@ == old(self)@.songs[old(self)@.current()].artists[
                old(self)@.artist_hit(guess@).unwrap()
            ].0,
    {
        if self.song_index == 0 || self.song_index - 1 >= self.songs.len() {
            return None;
        }
        let current: usize = self.song_index - 1;
        let hit = self.songs[current].guess_artist(guess);
        assert(self@.songs =~= old(self)@.after_artist_guess(guess@).songs);
        hit
    }

    /// Credits the title of the current song if the guess is the title and
    /// nobody has found it yet. Before the first round and after the last
    /// song nothing matches.
    pub fn is_correct_song(&mut self, guess: &str) -> (hit: Option<String>)
        ensures
            final(self)@ == old(self)@.after_title_guess(guess@),
            hit is Some == old(self)@.title_hit(guess@),
            hit matches Some(title) ==> title@ == old(self)@.songs[old(self)@.current()].title,
    {
        if self.song_index == 0 || self.song_index - 1 >= self.songs.len() {
            return None;
        }
        let current: usize = self.song_index - 1;
        let hit = self.songs[current].guess_title(guess);
        assert(self@.songs =~= old(self)@.after_title_guess(guess@).songs);
        hit
    }

    /// Adds `points` to the score of a player who has one; does nothing
    /// for any other id.
    pub fn increment_player_score(&mut self, player_id: PlayerId, points: u32)
        requires
            old(self)@.can_award(player_id, points),
        ensures
            final(self)@ == old(self)@.award(player_id, points),
    {
        broadcast use vstd::std_specs::hash::group_hash_axioms;

        let known = match self.scores.get(&player_id) {
            Some(score) => Some(*score),
            None => None,
        };
        if let Some(score) = known {
            self.scores.insert(player_id, score + points);
        }
        assert(self@.scores =~= old(self)@.award(player_id, points).scores);
    }
}

} // verus!
