//! One lobby as a whole: players, settings, scores and songs.

use crate::game_state::{GameStateView, GuessTheSongGameState};
use crate::ids::{is_random_uuid, random_player_id};
use crate::lobby::{is_roster_of, roster_view, LobbyState, LobbyStatus, LobbyView, PlayerId};
use crate::settings::{GuessTheSongGameSettings, SettingsView};
use crate::song::{Song, SongState, SongStateView, SongView};
use std::collections::HashMap;
use vstd::prelude::*;

verus! {

/// How often an identity is drawn at random before the least free id is
/// issued instead.
pub const MAX_ID_DRAWS: u32 = 64;

/// One lobby of the game. All of its state lives here; whoever holds the
/// lobby exclusively can read and change it.
#[derive(Debug)]
pub struct GuessTheSongGame {
    pub lobby_state: LobbyState,
    pub settings: GuessTheSongGameSettings,
    pub state: GuessTheSongGameState,
    pub lobby_code: String,
}

/// As what a player has entered: for the first time, or again.
#[derive(Debug, Clone, Copy, PartialEq, Eq, Structural)]
pub enum PlayerJoinResult {
    ReJoin,
    NewJoin,
}

/// Why somebody could not enter a lobby.
#[derive(Debug, Clone, Copy, PartialEq, Eq, Structural)]
pub enum JoinError {
    /// The first message of a connection was not a join request.
    ExpectedJoin,
    /// No lobby is registered under the code.
    LobbyNotFound,
    /// A game is running and the player is not one of its players.
    JoinInProgress,
}

/// A player's place in a lobby after a successful join.
#[derive(Debug, Clone, Copy, PartialEq, Eq, Structural)]
pub struct JoinOutcome {
    pub player_id: PlayerId,
    pub rejoin: bool,
}

/// Mathematical value of a [`GuessTheSongGame`].
pub ghost struct GameView {
    pub lobby: LobbyView,
    pub settings: SettingsView,
    pub state: GameStateView,
    pub lobby_code: Seq<char>,
}

impl View for GuessTheSongGame {
    type V = GameView;

    open spec fn view(&self) -> GameView {
        GameView {
            lobby: self.lobby_state@,
            settings: self.settings@,
            state: self.state@,
            lobby_code: self.lobby_code@,
        }
    }
}

impl GameView {
    /// A lobby nobody has entered yet.
    pub open spec fn fresh(lobby_code: Seq<char>) -> GameView {
        GameView {
            lobby: LobbyView::fresh(),
            settings: crate::settings::default_settings(),
            state: GameStateView::fresh(),
            lobby_code,
        }
    }

    /// Everybody in the lobby has a score.
    pub open spec fn wf(self) -> bool {
        forall|id: PlayerId|
            #![trigger self.lobby.players.contains_key(id)]
            #![trigger self.state.scores.contains_key(id)]
            self.lobby.players.contains_key(id) ==> self.state.scores.contains_key(id)
    }

    /// The id was issued by this lobby at some time: it has a score.
    pub open spec fn knows(self, id: PlayerId) -> bool {
        self.state.scores.contains_key(id)
    }

    /// Neither a player nor a former player has the id.
    pub open spec fn is_free_id(self, id: PlayerId) -> bool {
        !self.knows(id) && !self.lobby.players.contains_key(id)
    }

    /// The id is free and no lesser id is.
    pub open spec fn is_least_free_id(self, id: PlayerId) -> bool {
        &&& self.is_free_id(id)
        &&& forall|lower: PlayerId| lower < id ==> !self.is_free_id(lower)
    }

    /// A client that asks to come back under `requested`, or names no id,
    /// is let in: always if this lobby knows the id, and otherwise while
    /// the lobby is waiting.
    pub open spec fn lets_in(self, requested: Option<PlayerId>) -> bool {
        ||| requested matches Some(id) && self.knows(id)
        ||| self.lobby.status == LobbyStatus::Waiting
    }

    /// Whether a join under `id` is let in, and as what.
    pub open spec fn join_result(self, id: PlayerId) -> Result<PlayerJoinResult, JoinError> {
        if self.knows(id) {
            Ok(PlayerJoinResult::ReJoin)
        } else if self.lobby.status != LobbyStatus::Waiting {
            Err(JoinError::JoinInProgress)
        } else {
            Ok(PlayerJoinResult::NewJoin)
        }
    }

    /// A join under `id` lets a new player in.
    pub open spec fn enters_as_new(self, id: PlayerId) -> bool {
        self.join_result(id) == Ok::<PlayerJoinResult, JoinError>(PlayerJoinResult::NewJoin)
    }

    /// A join under `id` is the return of a player this lobby knows.
    pub open spec fn comes_back(self, id: PlayerId) -> bool {
        self.join_result(id) == Ok::<PlayerJoinResult, JoinError>(PlayerJoinResult::ReJoin)
    }

    /// The lobby after a join under `id`: a known id comes back under the
    /// new name and keeps its score, a new id gets a score of zero while
    /// the lobby is waiting, and is turned away while a game is running.
    pub open spec fn after_join(self, id: PlayerId, username: Seq<char>) -> GameView {
        match self.join_result(id) {
            Ok(PlayerJoinResult::ReJoin) => GameView { lobby: self.lobby.join(id, username), ..self },
            Ok(PlayerJoinResult::NewJoin) => GameView {
                lobby: self.lobby.join(id, username),
                state: self.state.enroll(id),
                ..self
            },
            Err(_) => self,
        }
    }

    /// The lobby after the player has left; its score stays.
    pub open spec fn after_leave(self, id: PlayerId) -> GameView {
        GameView { lobby: self.lobby.leave(id), ..self }
    }

    /// A game may start: the lobby is waiting and all-ready.
    pub open spec fn can_begin(self) -> bool {
        self.lobby.status == LobbyStatus::Waiting && self.lobby.all_ready()
    }

    /// The same lobby under another status.
    pub open spec fn with_status(self, status: LobbyStatus) -> GameView {
        GameView { lobby: self.lobby.with_status(status), ..self }
    }

    /// The lobby after an attempt to start: playing if it could begin,
    /// unchanged if not.
    pub open spec fn after_begin(self) -> GameView {
        if self.can_begin() {
            self.with_status(LobbyStatus::Playing)
        } else {
            self
        }
    }

    /// Between two games: waiting, scores at zero, no songs; the players
    /// stay.
    pub open spec fn after_reset(self) -> GameView {
        GameView {
            lobby: self.lobby.with_status(LobbyStatus::Waiting),
            state: self.state.reset(),
            ..self
        }
    }

    /// The same lobby with other scores and songs.
    pub open spec fn with_state(self, state: GameStateView) -> GameView {
        GameView { state, ..self }
    }

    /// The same lobby with other players or status.
    pub open spec fn with_lobby(self, lobby: LobbyView) -> GameView {
        GameView { lobby, ..self }
    }

    /// The same lobby with other settings.
    pub open spec fn with_settings(self, settings: SettingsView) -> GameView {
        GameView { settings, ..self }
    }
}

/// A set that holds every id below `count` has at least `count` members.
pub proof fn lemma_ids_below_fit(taken: Set<PlayerId>, count: nat)
    requires
        taken.finite(),
        count <= u128::MAX,
        forall|id: PlayerId| id < count ==> taken.contains(id),
    ensures
        count <= taken.len(),
    decreases count,
{
    if count > 0 {
        let last = (count - 1) as PlayerId;
        assert(taken.contains(last));
        lemma_ids_below_fit(taken.remove(last), (count - 1) as nat);
    }
}

/// The songs, unplayed, appended to a list.
pub open spec fn with_batch(songs: Seq<SongStateView>, batch: Seq<SongView>) -> Seq<SongStateView> {
    songs + batch.map_values(|song: SongView| SongStateView::unplayed(song))
}

impl GuessTheSongGame {
    /// A new lobby under `lobby_code`: waiting, empty, default settings.
    pub fn new(lobby_code: String) -> (game: Self)
        ensures
            game@ == GameView::fresh(lobby_code@),
            game@.wf(),
    {
        GuessTheSongGame {
            lobby_state: LobbyState::new(),
            settings: GuessTheSongGameSettings::new(),
            state: GuessTheSongGameState::new(),
            lobby_code,
        }
    }

    /// Ends a game: the lobby waits again, scores are zero, songs are gone.
    /// Nobody leaves or enters by it.
    pub fn reset(&mut self)
        ensures
            final(self)@ == old(self)@.after_reset(),
            old(self)@.wf() ==> final(self)@.wf(),
    {
        self.lobby_state.reset();
        self.state.reset();
    }

    /// Whether `candidate` could be issued to a new player.
    pub fn is_free_id(&self, candidate: PlayerId) -> (free: bool)
        ensures
            free == self@.is_free_id(candidate),
    {
        broadcast use vstd::std_specs::hash::group_hash_axioms;

        !self.state.scores.contains_key(&candidate) && !self.lobby_state.contains_player(candidate)
    }

    /// The least id that is free. At most as many ids are passed over as
    /// the lobby has players and scores.
    pub fn least_free_id(&self) -> (id: PlayerId)
        ensures
            self@.is_least_free_id(id),
    {
        broadcast use vstd::std_specs::hash::group_hash_axioms;

        let scored: usize = self.state.scores.len();
        let present: usize = self.lobby_state.players.len();
        let ghost taken = self.state.scores@.dom().union(self.lobby_state.players@.dom());
        proof {
            vstd::set_lib::lemma_len_union(
                self.state.scores@.dom(),
                self.lobby_state.players@.dom(),
            );
            assert(self@.lobby.players.dom() =~= self.lobby_state.players@.dom());
        }
        let mut candidate: PlayerId = 0;
        loop
            invariant
                taken == self.state.scores@.dom().union(self.lobby_state.players@.dom()),
                taken.finite(),
                taken.len() <= scored + present,
                self@.lobby.players.dom() == self.lobby_state.players@.dom(),
                candidate <= taken.len(),
                forall|lower: PlayerId| lower < candidate ==> !self@.is_free_id(lower),
            decreases taken.len() - candidate,
        {
            if self.is_free_id(candidate) {
                return candidate;
            }
            proof {
                assert forall|lower: PlayerId| lower < candidate + 1 implies taken.contains(
                    lower,
                ) by {
                    assert(!self@.is_free_id(lower));
                }
                lemma_ids_below_fit(taken, (candidate + 1) as nat);
            }
            candidate += 1;
        }
    }

    /// Issues an id that is free. Random identities are drawn first, up to
    /// [`MAX_ID_DRAWS`] times; should every one of them be taken, the least
    /// free id is issued. A free id is always found.
    pub fn get_new_player_id(&self) -> (id: PlayerId)
        ensures
            self@.is_free_id(id),
            is_random_uuid(id) || self@.is_least_free_id(id),
    {
        let mut draws: u32 = 0;
        while draws < MAX_ID_DRAWS
            invariant
                draws <= MAX_ID_DRAWS,
            decreases MAX_ID_DRAWS - draws,
        {
            let candidate = random_player_id();
            if self.is_free_id(candidate) {
                return candidate;
            }
            draws += 1;
        }
        self.least_free_id()
    }

    /// Lets a player in under the given id. An id that already has a score
    /// comes back, whatever the status; any other id enters as a new
    /// player with a score of zero, and only while the lobby is waiting.
    pub fn player_join(&mut self, player_id: PlayerId, player_username: String) -> (result: Result<
        PlayerJoinResult,
        JoinError,
    >)
        ensures
            result == old(self)@.join_result(player_id),
            final(self)@ == old(self)@.after_join(player_id, player_username@),
            old(self)@.wf() ==> final(self)@.wf(),
    {
        broadcast use vstd::std_specs::hash::group_hash_axioms;

        if self.state.scores.contains_key(&player_id) {
            self.lobby_state.player_join(player_id, player_username);
            return Ok(PlayerJoinResult::ReJoin);
        }
        if self.lobby_state.status != LobbyStatus::Waiting {
            return Err(JoinError::JoinInProgress);
        }
        self.lobby_state.player_join(player_id, player_username);
        self.state.scores.insert(player_id, 0);
        Ok(PlayerJoinResult::NewJoin)
    }

    /// Lets a player in. A caller that names an id this lobby has issued
    /// comes back under it. Anybody else gets a fresh id while the lobby is
    /// waiting, and is turned away while a game is running.
    pub fn join(&mut self, requested: Option<PlayerId>, username: String) -> (result: Result<
        JoinOutcome,
        JoinError,
    >)
        ensures
            old(self)@.wf() ==> final(self)@.wf(),
            result is Ok <==> old(self)@.lets_in(requested),
            (requested matches Some(id) && old(self)@.knows(id)) ==> {
                &&& result matches Ok(outcome)
                &&& outcome.player_id == requested.unwrap()
                &&& outcome.rejoin
            },
            match result {
                Ok(outcome) => {
                    &&& final(self)@ == old(self)@.after_join(outcome.player_id, username@)
                    &&& outcome.rejoin == old(self)@.knows(outcome.player_id)
                    &&& outcome.rejoin ==> requested == Some(outcome.player_id)
                    &&& !outcome.rejoin ==> old(self)@.is_free_id(outcome.player_id)
                },
                Err(error) => {
                    &&& final(self)@ == old(self)@
                    &&& error == JoinError::JoinInProgress
                },
            },
    {
        broadcast use vstd::std_specs::hash::group_hash_axioms;

        if let Some(id) = requested {
            if self.state.scores.contains_key(&id) {
                let _ = self.player_join(id, username);
                return Ok(JoinOutcome { player_id: id, rejoin: true });
            }
        }
        if self.lobby_state.status != LobbyStatus::Waiting {
            return Err(JoinError::JoinInProgress);
        }
        let fresh = self.get_new_player_id();
        let _ = self.player_join(fresh, username);
        Ok(JoinOutcome { player_id: fresh, rejoin: false })
    }

    /// Takes the player out of the lobby and says whether the lobby is
    /// empty now. The player's score stays.
    pub fn player_leave(&mut self, player_id: PlayerId) -> (now_empty: bool)
        ensures
            final(self)@ == old(self)@.after_leave(player_id),
            now_empty == old(self)@.after_leave(player_id).lobby.is_empty(),
            old(self)@.wf() ==> final(self)@.wf(),
    {
        self.lobby_state.player_leave(player_id);
        self.lobby_state.is_empty()
    }

    /// Marks a player of the lobby ready; any other id changes nothing.
    pub fn player_ready(&mut self, user_id: PlayerId)
        ensures
            final(self)@ == old(self)@.with_lobby(old(self)@.lobby.set_ready(user_id, true)),
            old(self)@.wf() ==> final(self)@.wf(),
    {
        self.lobby_state.player_ready(user_id);
    }

    /// Marks a player of the lobby unready; any other id changes nothing.
    pub fn player_unready(&mut self, user_id: PlayerId)
        ensures
            final(self)@ == old(self)@.with_lobby(old(self)@.lobby.set_ready(user_id, false)),
            old(self)@.wf() ==> final(self)@.wf(),
    {
        self.lobby_state.player_unready(user_id);
    }

    /// True iff somebody is in the lobby and everybody in it is ready.
    pub fn all_ready(&self) -> (ready: bool)
        ensures
            ready == self@.lobby.all_ready(),
    {
        self.lobby_state.all_ready()
    }

    /// Starts the game if the lobby is waiting and all-ready, and says
    /// whether it did. Check and transition are one step, so of any
    /// number of attempts on a lobby at most one starts a game.
    pub fn begin_play(&mut self) -> (started: bool)
        ensures
            started == old(self)@.can_begin(),
            final(self)@ == old(self)@.after_begin(),
            old(self)@.wf() ==> final(self)@.wf(),
    {
        if self.lobby_state.status == LobbyStatus::Waiting && self.lobby_state.all_ready() {
            self.lobby_state.update_lobby_status(LobbyStatus::Playing);
            true
        } else {
            false
        }
    }

    /// Whether the lobby is waiting or playing.
    pub fn get_lobby_status(&self) -> (status: LobbyStatus)
        ensures
            status == self@.lobby.status,
    {
        self.lobby_state.status
    }

    /// Sets the status, whatever it was.
    pub fn update_lobby_status(&mut self, new_status: LobbyStatus)
        ensures
            final(self)@ == old(self)@.with_status(new_status),
            old(self)@.wf() ==> final(self)@.wf(),
    {
        self.lobby_state.update_lobby_status(new_status);
    }

    /// Every player with name and ready flag, in no particular order.
    pub fn get_players(&self) -> (listing: Vec<(PlayerId, String, bool)>)
        ensures
            is_roster_of(roster_view(listing@), self@.lobby.players),
            listing@.len() == self@.lobby.players.dom().len(),
    {
        self.lobby_state.get_players()
    }

    /// How many songs a game has at most.
    pub fn get_num_songs(&self) -> (count: u8)
        ensures
            count == self@.settings.num_songs,
    {
        self.settings.get_num_songs()
    }

    /// The link of the playlist the songs are taken from.
    pub fn get_playlist_link(&self) -> (link: String)
        ensures
            link@ == self@.settings.playlist_link,
    {
        self.settings.get_playlist_link().clone()
    }

    /// The song of the current round, if there is one.
    pub fn get_current_song(&self) -> (song: Option<Song>)
        ensures
            song is Some == self@.state.current_song() is Some,
            song matches Some(s) ==> s@ == self@.state.current_song().unwrap(),
    {
        self.state.get_current_song()
    }

    /// Replaces the settings as a whole, whatever the status.
    pub fn update_game_settings(&mut self, settings: GuessTheSongGameSettings)
        ensures
            final(self)@ == old(self)@.with_settings(settings@),
            old(self)@.wf() ==> final(self)@.wf(),
    {
        self.settings.update_game_settings(settings);
    }

    /// Appends the songs of a fetched playlist, in order, nothing found.
    pub fn record_song_batch(&mut self, songs: Vec<Song>)
        ensures
            final(self)@ == old(self)@.with_state(
                GameStateView {
                    songs: with_batch(
                        old(self)@.state.songs,
                        songs@.map_values(|song: Song| song@),
                    ),
                    ..old(self)@.state
                },
            ),
            old(self)@.wf() ==> final(self)@.wf(),
    {
        let ghost batch = songs@.map_values(|song: Song| song@);
        let mut i: usize = 0;
        while i < songs.len()
            invariant
                i <= songs.len(),
                batch == songs@.map_values(|song: Song| song@),
                self@ == old(self)@.with_state(
                    GameStateView {
                        songs: with_batch(old(self)@.state.songs, batch.subrange(0, i as int)),
                        ..old(self)@.state
                    },
                ),
            decreases songs.len() - i,
        {
            let song = songs[i].clone();
            self.state.add_song(SongState::new(song));
            assert(self@.state.songs =~= with_batch(
                old(self)@.state.songs,
                batch.subrange(0, i + 1),
            ));
            i += 1;
        }
        assert(batch.subrange(0, i as int) =~= batch);
    }

    /// Moves on to the next round and returns its song; nothing once the
    /// songs are exhausted.
    pub fn get_next_song(&mut self) -> (song: Option<Song>)
        ensures
            final(self)@ == old(self)@.with_state(old(self)@.state.advance()),
            song is Some == old(self)@.state.next_song() is Some,
            song matches Some(s) ==> s@ == old(self)@.state.next_song().unwrap(),
            old(self)@.wf() ==> final(self)@.wf(),
    {
        self.state.get_next_song()
    }

    /// Credits the first open artist of the current song whose name the
    /// guess is, and returns the name as it is written.
    pub fn is_correct_artist(&mut self, guess: &str) -> (hit: Option<String>)
        ensures
            final(self)@ == old(self)@.with_state(old(self)@.state.after_artist_guess(guess@)),
            hit is Some == old(self)@.state.artist_hit(guess@) is Some,
            hit matches Some(name) ==> name@ == old(self)@.state.songs[
                old(self)@.state.current()
            ].artists[old(self)@.state.artist_hit(guess@).unwrap()].0,
            old(self)@.wf() ==> final(self)@.wf(),
    {
        self.state.is_correct_artist(guess)
    }

    /// Credits the title of the current song if the guess is the title and
    /// nobody has found it yet, and returns the title as it is written.
    pub fn is_correct_song(&mut self, guess: &str) -> (hit: Option<String>)
        ensures
            final(self)@ == old(self)@.with_state(old(self)@.state.after_title_guess(guess@)),
            hit is Some == old(self)@.state.title_hit(guess@),
            hit matches Some(title) ==> title@ == old(self)@.state.songs[
                old(self)@.state.current()
            ].title,
            old(self)@.wf() ==> final(self)@.wf(),
    {
        self.state.is_correct_song(guess)
    }

    /// A copy of the scores.
    pub fn get_leaderboard(&self) -> (scores: HashMap<PlayerId, u32>)
        ensures
            scores@ == self@.state.scores,
    {
        self.state.scores.clone()
    }

    /// Adds `points` to the score of a player who has one; does nothing
    /// for any other id.
    pub fn increment_player_score(&mut self, player_id: PlayerId, points: u32)
        requires
            old(self)@.state.can_award(player_id, points),
        ensures
            final(self)@ == old(self)@.with_state(old(self)@.state.award(player_id, points)),
            old(self)@.wf() ==> final(self)@.wf(),
    {
        self.state.increment_player_score(player_id, points);
    }

    /// A copy of the settings.
    pub fn get_settings(&self) -> (settings: GuessTheSongGameSettings)
        ensures
            settings@ == self@.settings,
    {
        self.settings.clone()
    }

    /// When the running round started, if a round is running.
    pub fn get_round_start_time(&self) -> (time: Option<u64>)
        ensures
            time == self@.state.round_start_time,
    {
        self.state.get_round_start_time()
    }
}

} // verus!
