//! The registry of lobbies by code.

use crate::catalog::LoadError;
use crate::codes::{
    all_alphanumeric, alphabet, alphabet_position, alphabet_text, generate_lobby_code,
    is_alphanumeric, is_lobby_code, lemma_alphabet, starts_with, ALPHABET_LENGTH,
    LOBBY_CODE_LENGTH,
};
use crate::connection::{is_snapshot_of, Admission, Departure, Reaction};
use crate::events::{event_views, GuessTheSongServerEvent, GuessTheSongUserEvent, ServerEventView};
use crate::game::{GameView, GuessTheSongGame, JoinError};
use crate::lobby::{LobbyStatus, PlayerId};
use crate::scheduler::{SchedulerPhase, SchedulerStep};
use crate::settings::GuessTheSongGameSettings;
use crate::song::Song;
use dashmap::DashMap;
use vstd::prelude::*;
use vstd::string::StrSliceExecFns;
use vstd::string::StringExecFns;

verus! {

/// How often a lobby code is drawn at random before the codes are gone
/// through in order instead.
pub const MAX_CODE_DRAWS: u32 = 1024;

/// The games a lobby can be opened for.
#[derive(Debug, Clone, Copy, PartialEq, Eq, Structural)]
pub enum GameType {
    GuessTheSong,
}

impl GameType {
    /// The name under which a game is reached.
    pub open spec fn route(self) -> Seq<char> {
        match self {
            GameType::GuessTheSong => "guess-the-song"@,
        }
    }
}

/// The game that is reached under `name`, if there is one.
pub fn game_type_of(name: &str) -> (game: Option<GameType>)
    ensures
        game == if name@ == GameType::GuessTheSong.route() {
            Some(GameType::GuessTheSong)
        } else {
            None
        },
{
    if name.to_owned() == "guess-the-song".to_owned() {
        Some(GameType::GuessTheSong)
    } else {
        None
    }
}

/// Makes `dashmap::DashMap` known as a type whose inside is not looked
/// into; what a map of lobbies holds is named by [`lobbies_of`].
#[verifier::external_type_specification]
#[verifier::external_body]
#[verifier::reject_recursive_types(K)]
#[verifier::reject_recursive_types(V)]
#[verifier::reject_recursive_types(S)]
pub struct ExDashMap<K, V, S>(DashMap<K, V, S>);

/// The concurrent map the registry keeps its lobbies in.
pub type LobbyMap = DashMap<String, GuessTheSongGame>;

/// The lobbies a map holds, by code.
pub uninterp spec fn lobbies_of(map: LobbyMap) -> Map<Seq<char>, GameView>;

/// A registry without lobbies.
pub open spec fn no_lobbies() -> Map<Seq<char>, GameView> {
    Map::empty()
}

/// Calls `DashMap::new`. Trusted: the new map holds nothing.
#[verifier::external_body]
fn empty_lobby_map() -> (registry: LobbyMap)
    ensures
        lobbies_of(registry) == no_lobbies(),
{
    DashMap::new()
}

/// Calls `DashMap::insert`, which puts the value under the key in place
/// of any value that was there. Trusted: afterwards the map holds the
/// lobby under `code` and is otherwise as before.
#[verifier::external_body]
fn insert_lobby(map: &mut LobbyMap, code: String, game: GuessTheSongGame)
    ensures
        lobbies_of(*final(map)) == lobbies_of(*old(map)).insert(code@, game@),
{
    map.insert(code, game);
}

/// Calls `DashMap::remove`, which takes the entry of the key out and hands
/// it back. Trusted: afterwards the map has no lobby under `code` and is
/// otherwise as before; the result is the lobby that was there, if any.
#[verifier::external_body]
fn remove_lobby(map: &mut LobbyMap, code: &str) -> (removed: Option<
    GuessTheSongGame,
>)
    ensures
        lobbies_of(*final(map)) == lobbies_of(*old(map)).remove(code@),
        removed is Some == lobbies_of(*old(map)).contains_key(code@),
        removed matches Some(lobby) ==> lobby@ == lobbies_of(*old(map))[code@],
{
    map.remove(code).map(|entry| entry.1)
}

/// Calls `DashMap::contains_key`. Trusted: the result says whether the map
/// holds a lobby under `code`.
#[verifier::external_body]
fn contains_lobby(map: &LobbyMap, code: &str) -> (found: bool)
    ensures
        found == lobbies_of(*map).contains_key(code@),
{
    map.contains_key(code)
}

/// Calls `DashMap::retain`, which keeps the entries for which the closure
/// returns true and drops the others. Trusted: afterwards the map holds
/// exactly the lobbies it held before that somebody is in, unchanged.
#[verifier::external_body]
fn retain_inhabited(map: &mut LobbyMap)
    ensures
        lobbies_of(*final(map)) == inhabited(lobbies_of(*old(map))),
{
    map.retain(|_, game| game.is_inhabited());
}

/// The lobbies that somebody is in.
pub open spec fn inhabited(lobbies: Map<Seq<char>, GameView>) -> Map<Seq<char>, GameView> {
    lobbies.restrict(Set::new(|code: Seq<char>| !lobbies[code].lobby.is_empty()))
}

impl GuessTheSongGame {
    /// Somebody is in the lobby.
    pub fn is_inhabited(&self) -> (inhabited: bool)
        ensures
            inhabited == !self@.lobby.is_empty(),
    {
        !self.lobby_state.is_empty()
    }
}

/// All lobbies of the server, by code. Whoever changes the registry holds
/// it exclusively; the contracts say what each operation does to the
/// lobbies it holds.
pub struct Games {
    pub guess_the_song: LobbyMap,
}

impl View for Games {
    type V = Map<Seq<char>, GameView>;

    open spec fn view(&self) -> Map<Seq<char>, GameView> {
        lobbies_of(self.guess_the_song)
    }
}

/// Every lobby code that begins with `prefix` has a lobby.
pub open spec fn every_code_is_taken(lobbies: Map<Seq<char>, GameView>, prefix: Seq<char>) -> bool {
    forall|code: Seq<char>|
        is_lobby_code(code) && #[trigger] starts_with(code, prefix) ==> lobbies.contains_key(code)
}

/// Every lobby has a score for each of its players.
pub open spec fn all_wf(lobbies: Map<Seq<char>, GameView>) -> bool {
    forall|code: Seq<char>| #[trigger] lobbies.contains_key(code) ==> lobbies[code].wf()
}

impl Games {
    /// A registry without lobbies.
    pub fn new() -> (games: Self)
        ensures
            games@ == no_lobbies(),
    {
        Games { guess_the_song: empty_lobby_map() }
    }

    /// Registers a new lobby under the code: waiting, empty, default
    /// settings. A lobby that was registered under the code is replaced.
    pub fn add_guess_the_song_lobby(&mut self, lobby_code: &String)
        ensures
            final(self)@ == old(self)@.insert(lobby_code@, GameView::fresh(lobby_code@)),
            all_wf(old(self)@) ==> all_wf(final(self)@),
    {
        let lobby = GuessTheSongGame::new(lobby_code.clone());
        insert_lobby(&mut self.guess_the_song, lobby_code.clone(), lobby);
    }

    /// Whether a lobby is registered under the code.
    pub fn valid_lobby_code(&self, lobby_code: &str) -> (valid: bool)
        ensures
            valid == self@.contains_key(lobby_code@),
    {
        contains_lobby(&self.guess_the_song, lobby_code)
    }

    /// Looks for a lobby code that begins with `prefix` and is not
    /// registered, going through the alphabet place by place. `missing`
    /// is the number of characters that `prefix` lacks of a code.
    pub fn find_unused_code(&self, prefix: &String, missing: usize) -> (found: Option<String>)
        requires
            prefix@.len() + missing == LOBBY_CODE_LENGTH,
            all_alphanumeric(prefix@),
        ensures
            match found {
                Some(code) => {
                    &&& is_lobby_code(code@)
                    &&& starts_with(code@, prefix@)
                    &&& !self@.contains_key(code@)
                },
                None => every_code_is_taken(self@, prefix@),
            },
        decreases missing,
    {
        if missing == 0 {
            assert(prefix@.subrange(0, prefix@.len() as int) =~= prefix@);
            if self.valid_lobby_code(prefix.as_str()) {
                assert forall|code: Seq<char>|
                    is_lobby_code(code) && #[trigger] starts_with(
                        code,
                        prefix@,
                    ) implies self@.contains_key(code) by {
                    assert(code.subrange(0, prefix@.len() as int) =~= code);
                }
                return None;
            }
            return Some(prefix.clone());
        }
        proof {
            lemma_alphabet();
        }
        let letters = alphabet();
        let mut i: usize = 0;
        while i < ALPHABET_LENGTH
            invariant
                i <= ALPHABET_LENGTH,
                missing > 0,
                prefix@.len() + missing == LOBBY_CODE_LENGTH,
                all_alphanumeric(prefix@),
                letters@ == alphabet_text(),
                forall|j: int|
                    0 <= j < i ==> every_code_is_taken(
                        self@,
                        #[trigger] prefix@.push(alphabet_text()[j]),
                    ),
            decreases ALPHABET_LENGTH - i,
        {
            proof {
                lemma_alphabet();
            }
            let longer = prefix.clone().concat(letters.substring_char(i, i + 1));
            assert(longer@ =~= prefix@.push(alphabet_text()[i as int]));
            if let Some(code) = self.find_unused_code(&longer, missing - 1) {
                assert(code@.subrange(0, prefix@.len() as int) =~= prefix@) by {
                    assert forall|k: int| 0 <= k < prefix@.len() implies code@[k]
                        == prefix@[k] by {
                        assert(code@.subrange(0, longer@.len() as int)[k] == longer@[k]);
                    }
                }
                return Some(code);
            }
            i += 1;
        }
        proof {
            lemma_alphabet();
            assert forall|code: Seq<char>|
                is_lobby_code(code) && #[trigger] starts_with(
                    code,
                    prefix@,
                ) implies self@.contains_key(code) by {
                let next = code[prefix@.len() as int];
                let j = alphabet_position(next);
                assert(is_alphanumeric(next));
                let longer = prefix@.push(alphabet_text()[j]);
                assert(code.subrange(0, longer.len() as int) =~= longer);
                assert(every_code_is_taken(self@, longer));
                assert(starts_with(code, longer));
            }
        }
        None
    }

    /// Opens a lobby under a code that no registered lobby has, and
    /// returns the code. Codes are drawn at random first, up to
    /// [`MAX_CODE_DRAWS`] times; should every one of them be taken, the
    /// codes are gone through in order. Only when every code there is has
    /// a lobby, none is opened.
    pub fn create_lobby(&mut self) -> (created: Option<String>)
        ensures
            created is None <==> every_code_is_taken(old(self)@, Seq::empty()),
            match created {
                Some(code) => {
                    &&& is_lobby_code(code@)
                    &&& !old(self)@.contains_key(code@)
                    &&& final(self)@ == old(self)@.insert(code@, GameView::fresh(code@))
                },
                None => final(self)@ == old(self)@,
            },
            all_wf(old(self)@) ==> all_wf(final(self)@),
    {
        let mut draws: u32 = 0;
        while draws < MAX_CODE_DRAWS
            invariant
                draws <= MAX_CODE_DRAWS,
                self@ == old(self)@,
            decreases MAX_CODE_DRAWS - draws,
        {
            let code = generate_lobby_code();
            if !self.valid_lobby_code(code.as_str()) {
                assert(starts_with(code@, Seq::empty())) by {
                    assert(code@.subrange(0, 0) =~= Seq::<char>::empty());
                }
                self.add_guess_the_song_lobby(&code);
                return Some(code);
            }
            draws += 1;
        }
        let found = self.find_unused_code(&String::new(), LOBBY_CODE_LENGTH);
        match found {
            Some(code) => {
                self.add_guess_the_song_lobby(&code);
                Some(code)
            },
            None => None,
        }
    }

    /// Takes the lobby of the code out of the registry; nothing happens
    /// if there is none.
    pub fn remove_lobby(&mut self, lobby_code: &str)
        ensures
            final(self)@ == old(self)@.remove(lobby_code@),
            all_wf(old(self)@) ==> all_wf(final(self)@),
    {
        let _ = remove_lobby(&mut self.guess_the_song, lobby_code);
    }

    /// Removes every lobby nobody is in.
    pub fn sweep(&mut self)
        ensures
            final(self)@ == inhabited(old(self)@),
            all_wf(old(self)@) ==> all_wf(final(self)@),
    {
        retain_inhabited(&mut self.guess_the_song);
    }

    /// Hands the lobby of the code out and leaves the code unregistered
    /// until the lobby is put back.
    pub fn take_lobby(&mut self, lobby_code: &str) -> (lobby: Option<GuessTheSongGame>)
        ensures
            final(self)@ == old(self)@.remove(lobby_code@),
            lobby is Some == old(self)@.contains_key(lobby_code@),
            lobby matches Some(game) ==> game@ == old(self)@[lobby_code@],
            all_wf(old(self)@) ==> all_wf(final(self)@),
    {
        remove_lobby(&mut self.guess_the_song, lobby_code)
    }

    /// Registers the lobby under `lobby_code`, in place of any lobby
    /// that is registered under it.
    pub fn put_lobby(&mut self, lobby_code: &str, lobby: GuessTheSongGame)
        ensures
            final(self)@ == old(self)@.insert(lobby_code@, lobby@),
            all_wf(old(self)@) && lobby@.wf() ==> all_wf(final(self)@),
    {
        insert_lobby(&mut self.guess_the_song, lobby_code.to_owned(), lobby);
    }
}

/// A client that has been let into a lobby.
#[derive(Debug)]
pub struct Connected {
    pub lobby_code: String,
    pub admission: Admission,
}

impl Games {
    /// The cleanup of a lobby, from whichever side it is asked for: the
    /// lobby of the code is removed if nobody is in it. Asking again, or
    /// for a code without lobby, changes nothing.
    pub fn reap(&mut self, lobby_code: &str) -> (removed: bool)
        ensures
            removed == (old(self)@.contains_key(lobby_code@) && old(self)@[lobby_code@].lobby.is_empty()),
            final(self)@ == if removed {
                old(self)@.remove(lobby_code@)
            } else {
                old(self)@
            },
            all_wf(old(self)@) ==> all_wf(final(self)@),
    {
        match self.take_lobby(lobby_code) {
            None => {
                assert(self@ =~= old(self)@);
                false
            },
            Some(lobby) => {
                if lobby.is_inhabited() {
                    self.put_lobby(lobby_code, lobby);
                    assert(self@ =~= old(self)@);
                    false
                } else {
                    true
                }
            },
        }
    }

    /// The opening of a connection: the first message must ask to join a
    /// registered lobby, and the lobby must let the client in.
    pub fn connect(&mut self, first: Option<GuessTheSongUserEvent>, requested: Option<PlayerId>) -> (result:
        Result<Connected, JoinError>)
        ensures
            all_wf(old(self)@) ==> all_wf(final(self)@),
            result is Ok <==> (first matches Some(
                GuessTheSongUserEvent::Join { lobby_code, username },
            ) && old(self)@.contains_key(lobby_code@) && old(self)@[lobby_code@].lets_in(
                requested,
            )),
            match result {
                Ok(connected) => {
                    let code = connected.lobby_code@;
                    let player = connected.admission.outcome.player_id;
                    &&& first matches Some(GuessTheSongUserEvent::Join { lobby_code, username })
                    &&& lobby_code@ == code
                    &&& old(self)@.contains_key(code)
                    &&& old(self)@[code].lets_in(requested)
                    &&& final(self)@ == old(self)@.insert(
                        code,
                        old(self)@[code].after_join(player, username@),
                    )
                    &&& connected.admission.outcome.rejoin == old(self)@[code].knows(player)
                    &&& connected.admission.outcome.rejoin ==> requested == Some(player)
                    &&& !connected.admission.outcome.rejoin ==> old(self)@[code].is_free_id(player)
                    &&& is_snapshot_of(connected.admission.sync@, final(self)@[code])
                    &&& connected.admission.announcement@ == (ServerEventView::PlayerJoin {
                        player_id: player,
                        player_username: username@,
                    })
                },
                Err(error) => {
                    &&& final(self)@ == old(self)@
                    &&& match first {
                        Some(GuessTheSongUserEvent::Join { lobby_code, username }) => {
                            if !old(self)@.contains_key(lobby_code@) {
                                error == JoinError::LobbyNotFound
                            } else {
                                &&& !old(self)@[lobby_code@].lets_in(requested)
                                &&& error == JoinError::JoinInProgress
                            }
                        },
                        _ => error == JoinError::ExpectedJoin,
                    }
                },
            },
    {
        let (lobby_code, username) = match crate::connection::expect_join(first) {
            Ok(request) => request,
            Err(error) => {
                return Err(error);
            },
        };
        let mut lobby = match self.take_lobby(lobby_code.as_str()) {
            Some(lobby) => lobby,
            None => {
                assert(self@ =~= old(self)@);
                return Err(JoinError::LobbyNotFound);
            },
        };
        let welcomed = lobby.welcome(requested, username);
        self.put_lobby(lobby_code.as_str(), lobby);
        match welcomed {
            Ok(admission) => {
                assert(self@ =~= old(self)@.insert(
                    lobby_code@,
                    old(self)@[lobby_code@].after_join(admission.outcome.player_id, username@),
                ));
                Ok(Connected { lobby_code, admission })
            },
            Err(error) => {
                assert(self@ =~= old(self)@);
                Err(error)
            },
        }
    }

    /// Carries out a command of a joined player in the lobby of the code.
    /// Without such a lobby nothing happens, and nothing happens if what
    /// the command earns does not fit into the player's score.
    pub fn command(
        &mut self,
        lobby_code: &str,
        player_id: PlayerId,
        event: GuessTheSongUserEvent,
        now: u64,
        award: u32,
    ) -> (result: Option<Reaction>)
        ensures
            all_wf(old(self)@) ==> all_wf(final(self)@),
            result is Some == (old(self)@.contains_key(lobby_code@) && old(self)@[lobby_code@].score_has_room(
                player_id,
                event@,
                now,
                award,
            )),
            match result {
                Some(reaction) => {
                    let outcome = old(self)@[lobby_code@].react(player_id, event@, now, award);
                    &&& final(self)@ == old(self)@.insert(lobby_code@, outcome.game)
                    &&& event_views(reaction.events@) == outcome.events
                    &&& reaction.start_game == outcome.start_game
                },
                None => final(self)@ == old(self)@,
            },
    {
        match self.take_lobby(lobby_code) {
            None => {
                assert(self@ =~= old(self)@);
                None
            },
            Some(mut lobby) => {
                let reaction = lobby.try_handle_user_event(player_id, event, now, award);
                self.put_lobby(lobby_code, lobby);
                if reaction.is_some() {
                    assert(self@ =~= old(self)@.insert(
                        lobby_code@,
                        old(self)@[lobby_code@].react(player_id, event@, now, award).game,
                    ));
                } else {
                    assert(self@ =~= old(self)@);
                }
                reaction
            },
        }
    }

    /// The connection of a player is gone: the player leaves the lobby of
    /// the code. Whether the lobby is empty now is for the caller to pass
    /// on to [`Games::reap`].
    pub fn disconnect(&mut self, lobby_code: &str, player_id: PlayerId) -> (result: Option<Departure>)
        ensures
            all_wf(old(self)@) ==> all_wf(final(self)@),
            result is Some == old(self)@.contains_key(lobby_code@),
            match result {
                Some(departure) => {
                    let left = old(self)@[lobby_code@].after_leave(player_id);
                    &&& final(self)@ == old(self)@.insert(lobby_code@, left)
                    &&& departure.event@ == (ServerEventView::PlayerLeave { player_id })
                    &&& departure.lobby_empty == left.lobby.is_empty()
                },
                None => final(self)@ == old(self)@,
            },
    {
        match self.take_lobby(lobby_code) {
            None => {
                assert(self@ =~= old(self)@);
                None
            },
            Some(mut lobby) => {
                let departure = lobby.disconnect(player_id);
                self.put_lobby(lobby_code, lobby);
                assert(self@ =~= old(self)@.insert(
                    lobby_code@,
                    old(self)@[lobby_code@].after_leave(player_id),
                ));
                Some(departure)
            },
        }
    }

    /// One step of the round scheduler of the lobby of the code; nothing
    /// if the lobby is gone.
    pub fn scheduler_step(&mut self, lobby_code: &str, phase: SchedulerPhase, now: u64) -> (result:
        Option<SchedulerStep>)
        ensures
            all_wf(old(self)@) ==> all_wf(final(self)@),
            result is Some == old(self)@.contains_key(lobby_code@),
            match result {
                Some(step) => {
                    let expected = old(self)@[lobby_code@].scheduler_step(phase, now);
                    &&& final(self)@ == old(self)@.insert(lobby_code@, expected.game)
                    &&& step.next == expected.next
                    &&& event_views(step.events@) == expected.events
                    &&& step.wait_seconds == expected.wait_seconds
                },
                None => final(self)@ == old(self)@,
            },
    {
        match self.take_lobby(lobby_code) {
            None => {
                assert(self@ =~= old(self)@);
                None
            },
            Some(mut lobby) => {
                let step = lobby.scheduler_step(phase, now);
                self.put_lobby(lobby_code, lobby);
                assert(self@ =~= old(self)@.insert(
                    lobby_code@,
                    old(self)@[lobby_code@].scheduler_step(phase, now).game,
                ));
                Some(step)
            },
        }
    }

    /// The settings of the lobby of the code, for whoever fetches its
    /// songs.
    pub fn get_settings(&mut self, lobby_code: &str) -> (result: Option<GuessTheSongGameSettings>)
        ensures
            final(self)@ == old(self)@,
            result is Some == old(self)@.contains_key(lobby_code@),
            result matches Some(settings) ==> settings@ == old(self)@[lobby_code@].settings,
    {
        match self.take_lobby(lobby_code) {
            None => {
                assert(self@ =~= old(self)@);
                None
            },
            Some(lobby) => {
                let settings = lobby.get_settings();
                self.put_lobby(lobby_code, lobby);
                assert(self@ =~= old(self)@);
                Some(settings)
            },
        }
    }

    /// The songs of the lobby of the code have been fetched.
    pub fn record_song_batch(&mut self, lobby_code: &str, songs: Vec<Song>) -> (recorded: bool)
        ensures
            all_wf(old(self)@) ==> all_wf(final(self)@),
            recorded == old(self)@.contains_key(lobby_code@),
            final(self)@ == if recorded {
                let lobby = old(self)@[lobby_code@];
                old(self)@.insert(
                    lobby_code@,
                    lobby.with_state(
                        crate::game_state::GameStateView {
                            songs: crate::game::with_batch(
                                lobby.state.songs,
                                songs@.map_values(|song: Song| song@),
                            ),
                            ..lobby.state
                        },
                    ),
                )
            } else {
                old(self)@
            },
    {
        match self.take_lobby(lobby_code) {
            None => {
                assert(self@ =~= old(self)@);
                false
            },
            Some(mut lobby) => {
                lobby.record_song_batch(songs);
                self.put_lobby(lobby_code, lobby);
                true
            },
        }
    }

    /// The songs of the lobby of the code could not be fetched.
    pub fn playlist_failed(&mut self, lobby_code: &str, initiator: PlayerId, error: LoadError) -> (result:
        Option<GuessTheSongServerEvent>)
        ensures
            all_wf(old(self)@) ==> all_wf(final(self)@),
            result is Some == old(self)@.contains_key(lobby_code@),
            match result {
                Some(event) => {
                    &&& final(self)@ == old(self)@.insert(
                        lobby_code@,
                        old(self)@[lobby_code@].after_playlist_failure(initiator),
                    )
                    &&& event@ == (ServerEventView::PlaylistError { message: error.message_text() })
                },
                None => final(self)@ == old(self)@,
            },
    {
        match self.take_lobby(lobby_code) {
            None => {
                assert(self@ =~= old(self)@);
                None
            },
            Some(mut lobby) => {
                let event = lobby.playlist_failed(initiator, error);
                self.put_lobby(lobby_code, lobby);
                Some(event)
            },
        }
    }
}

} // verus!
