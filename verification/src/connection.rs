//! What one connection does to a lobby: the join handshake, the commands
//! of a joined player, and the departure.
//!
//! Every function here is one step: it takes the lobby and one input and
//! returns the events to publish. Reading sockets and publishing is left to
//! the caller.

use crate::catalog::LoadError;
use crate::events::{event_views, GuessTheSongServerEvent, GuessTheSongUserEvent, ServerEventView, UserEventView};
use crate::game::{GameView, GuessTheSongGame, JoinError, JoinOutcome};
use crate::lobby::{is_roster_of, LobbyStatus, PlayerId};
use vstd::prelude::*;
use vstd::string::StringExecFns;

verus! {

impl JoinError {
    /// The sentence for each error.
    pub open spec fn message_text(self) -> Seq<char> {
        match self {
            JoinError::ExpectedJoin => "Expected join request"@,
            JoinError::LobbyNotFound => "Lobby Not Found"@,
            JoinError::JoinInProgress => "Cannot join game in progress"@,
        }
    }

    /// The sentence shown to the client that was turned away.
    pub fn message(&self) -> (text: String)
        ensures
            text@ == self.message_text(),
    {
        match self {
            JoinError::ExpectedJoin => "Expected join request".to_owned(),
            JoinError::LobbyNotFound => "Lobby Not Found".to_owned(),
            JoinError::JoinInProgress => "Cannot join game in progress".to_owned(),
        }
    }
}

/// The text of the event that credits a title.
pub open spec fn title_credit_text(title: Seq<char>) -> Seq<char> {
    "Correct song: "@ + title
}

/// The text of the event that credits an artist.
pub open spec fn artist_credit_text(name: Seq<char>) -> Seq<char> {
    "Correct artist: "@ + name
}

/// What a command leads to: the events to publish, in order, and whether
/// this command has started a game, so that songs must now be fetched and
/// the round scheduler set going.
#[derive(Debug)]
pub struct Reaction {
    pub events: Vec<GuessTheSongServerEvent>,
    pub start_game: bool,
}

/// A lobby after a command, with what the command led to.
pub ghost struct Outcome {
    pub game: GameView,
    pub events: Seq<ServerEventView>,
    pub start_game: bool,
}

impl GameView {
    /// The preview of the round that is running, if one is: a round runs
    /// from its start until its end is announced.
    pub open spec fn running_preview(self) -> Option<Seq<char>> {
        match self.state.current_song() {
            Some(song) => if self.state.round_start_time is Some {
                Some(song.url)
            } else {
                None
            },
            None => None,
        }
    }

    /// Nothing happens and nothing is published.
    pub open spec fn quiet(self) -> Outcome {
        Outcome { game: self, events: Seq::empty(), start_game: false }
    }

    /// The player says it is ready. If that makes the waiting lobby
    /// all-ready, the game starts, once.
    pub open spec fn on_ready(self, player: PlayerId) -> Outcome {
        let readied = self.with_lobby(self.lobby.set_ready(player, true));
        let ready_event = ServerEventView::PlayerReady { player_id: player };
        Outcome {
            game: readied.after_begin(),
            events: if readied.lobby.all_ready() {
                seq![ready_event, ServerEventView::AllReady]
            } else {
                seq![ready_event]
            },
            start_game: readied.can_begin(),
        }
    }

    /// The player takes its ready back.
    pub open spec fn on_unready(self, player: PlayerId) -> Outcome {
        Outcome {
            game: self.with_lobby(self.lobby.set_ready(player, false)),
            events: seq![ServerEventView::PlayerUnready { player_id: player }],
            start_game: false,
        }
    }

    /// The settings are replaced and echoed to everybody.
    pub open spec fn on_settings(self, settings: crate::settings::SettingsView) -> Outcome {
        Outcome {
            game: self.with_settings(settings),
            events: seq![ServerEventView::GameSettingsUpdated { settings }],
            start_game: false,
        }
    }

    /// The guess is the open title of the running round.
    pub open spec fn guess_hits_title(self, content: Seq<char>) -> bool {
        self.state.title_hit(content)
    }

    /// The guess is an open artist of the running round. The title check
    /// comes first but never touches the artists, so both are read off the
    /// state before the guess.
    pub open spec fn guess_hits_artist(self, content: Seq<char>) -> bool {
        self.state.artist_hit(content) is Some
    }

    /// The state after an accepted guess of `player`: the time is noted,
    /// title and artist are checked one after the other, and each hit
    /// adds `award` to the player's score.
    pub open spec fn after_accepted_guess(
        self,
        player: PlayerId,
        content: Seq<char>,
        now: u64,
        award: u32,
    ) -> GameView {
        let noted = self.state.with_last_guess(Some(now));
        let titled = if noted.title_hit(content) {
            noted.after_title_guess(content).award(player, award)
        } else {
            noted.after_title_guess(content)
        };
        let credited = if titled.artist_hit(content) is Some {
            titled.after_artist_guess(content).award(player, award)
        } else {
            titled.after_artist_guess(content)
        };
        self.with_state(credited)
    }

    /// The events of an accepted guess after the chat line.
    pub open spec fn credit_events(self, player: PlayerId, content: Seq<char>) -> Seq<
        ServerEventView,
    > {
        let song = self.state.songs[self.state.current()];
        let title_events = if self.guess_hits_title(content) {
            seq![
                ServerEventView::CorrectGuess {
                    player_id: player,
                    msg: title_credit_text(song.title),
                },
            ]
        } else {
            Seq::empty()
        };
        let artist_events = if self.guess_hits_artist(content) {
            seq![
                ServerEventView::CorrectGuess {
                    player_id: player,
                    msg: artist_credit_text(
                        song.artists[self.state.artist_hit(content).unwrap()].0,
                    ),
                },
            ]
        } else {
            Seq::empty()
        };
        title_events + artist_events
    }

    /// A player of the lobby guesses. Everybody sees the guess. Within the
    /// lockout after the last accepted guess it is not looked at any
    /// further; otherwise it is accepted and checked.
    pub open spec fn on_guess(self, player: PlayerId, content: Seq<char>, now: u64, award: u32) -> Outcome {
        if !self.lobby.players.contains_key(player) {
            self.quiet()
        } else {
            let chat = ServerEventView::PlayerGuess {
                username: self.lobby.players[player].username,
                content,
            };
            if self.state.locked_out(now, self.settings.answer_delay_seconds) {
                Outcome { game: self, events: seq![chat], start_game: false }
            } else {
                Outcome {
                    game: self.after_accepted_guess(player, content, now, award),
                    events: seq![chat] + self.credit_events(player, content),
                    start_game: false,
                }
            }
        }
    }

    /// What a command of a joined player leads to. A second join request
    /// on a connection is out of place and leads to nothing.
    pub open spec fn react(self, player: PlayerId, event: UserEventView, now: u64, award: u32) -> Outcome {
        match event {
            UserEventView::Join { .. } => self.quiet(),
            UserEventView::Ready => self.on_ready(player),
            UserEventView::Unready => self.on_unready(player),
            UserEventView::UpdateGameSettings { settings } => self.on_settings(settings),
            UserEventView::Guess { content } => self.on_guess(player, content, now, award),
        }
    }

    /// How many awards a guess of `player` at time `now` earns: none if
    /// the guess is not looked at, else one for the title and one for an
    /// artist.
    pub open spec fn awards_due(self, player: PlayerId, content: Seq<char>, now: u64) -> nat {
        if !self.lobby.players.contains_key(player) || self.state.locked_out(
            now,
            self.settings.answer_delay_seconds,
        ) {
            0
        } else {
            let for_title: nat = if self.guess_hits_title(content) {
                1
            } else {
                0
            };
            let for_artist: nat = if self.guess_hits_artist(content) {
                1
            } else {
                0
            };
            for_title + for_artist
        }
    }

    /// What a guess earns the player fits into the player's score.
    pub open spec fn guess_has_room(self, player: PlayerId, content: Seq<char>, now: u64, award: u32) -> bool {
        self.knows(player) ==> self.state.scores[player] + self.awards_due(player, content, now)
            * award <= u32::MAX
    }

    /// What the command earns the player fits into the player's score.
    /// Only a guess earns anything.
    pub open spec fn score_has_room(self, player: PlayerId, event: UserEventView, now: u64, award: u32) -> bool {
        event matches UserEventView::Guess { content } ==> self.guess_has_room(
            player,
            content,
            now,
            award,
        )
    }

    /// The lobby after its songs could not be fetched: waiting again, and
    /// the player who started it is unready.
    pub open spec fn after_playlist_failure(self, initiator: PlayerId) -> GameView {
        self.with_lobby(
            self.lobby.set_ready(initiator, false).with_status(LobbyStatus::Waiting),
        )
    }
}

/// The first message of a connection must ask to join; this returns the
/// lobby code and the name it gives.
pub fn expect_join(first: Option<GuessTheSongUserEvent>) -> (request: Result<
    (String, String),
    JoinError,
>)
    ensures
        match first {
            Some(GuessTheSongUserEvent::Join { lobby_code, username }) => {
                &&& request matches Ok(named)
                &&& named.0 == lobby_code
                &&& named.1 == username
            },
            _ => request matches Err(error) && error == JoinError::ExpectedJoin,
        },
{
    match first {
        Some(GuessTheSongUserEvent::Join { lobby_code, username }) => Ok((lobby_code, username)),
        _ => Err(JoinError::ExpectedJoin),
    }
}

/// The event that tells one client why it was turned away.
pub fn join_error_event(error: JoinError) -> (event: GuessTheSongServerEvent)
    ensures
        event@ == (ServerEventView::JoinError { message: error.message_text() }),
{
    GuessTheSongServerEvent::JoinError { message: error.message() }
}

/// The event that tells the lobby that a player has entered.
pub fn player_join_event(player_id: PlayerId, username: &str) -> (event: GuessTheSongServerEvent)
    ensures
        event@ == (ServerEventView::PlayerJoin { player_id, player_username: username@ }),
{
    GuessTheSongServerEvent::PlayerJoin { player_id, player_username: username.to_owned() }
}

/// What a departure leads to.
#[derive(Debug)]
pub struct Departure {
    pub event: GuessTheSongServerEvent,
    /// Nobody is left: the lobby is to be removed.
    pub lobby_empty: bool,
}

/// What a client gets on entering.
#[derive(Debug)]
pub struct Admission {
    pub outcome: JoinOutcome,
    /// The full state, for the new client alone.
    pub sync: GuessTheSongServerEvent,
    /// The news of the join, for everybody.
    pub announcement: GuessTheSongServerEvent,
}

/// `event` is a full snapshot of `game`.
pub open spec fn is_snapshot_of(event: ServerEventView, game: GameView) -> bool {
    &&& event matches ServerEventView::SyncState {
        players,
        settings,
        leaderboard,
        preview_url,
        status,
        round_start_time,
    }
    &&& is_roster_of(players, game.lobby.players)
    &&& settings == game.settings
    &&& leaderboard == game.state.scores
    &&& preview_url == game.running_preview()
    &&& status == game.lobby.status
    &&& round_start_time == game.state.round_start_time
}

impl GuessTheSongGame {
    /// Everything a client needs to draw the lobby as it is now.
    pub fn sync_state(&self) -> (event: GuessTheSongServerEvent)
        ensures
            is_snapshot_of(event@, self@),
    {
        let preview_url = match self.get_current_song() {
            Some(song) => if self.get_round_start_time().is_some() {
                Some(song.url)
            } else {
                None
            },
            None => None,
        };
        GuessTheSongServerEvent::SyncState {
            players: self.get_players(),
            settings: self.get_settings(),
            leaderboard: self.get_leaderboard(),
            preview_url,
            status: self.get_lobby_status(),
            round_start_time: self.get_round_start_time(),
        }
    }

    /// Lets a client into the lobby and prepares what it and the others
    /// are told.
    pub fn welcome(&mut self, requested: Option<PlayerId>, username: String) -> (result: Result<
        Admission,
        JoinError,
    >)
        ensures
            old(self)@.wf() ==> final(self)@.wf(),
            result is Ok <==> old(self)@.lets_in(requested),
            match result {
                Ok(admission) => {
                    &&& final(self)@ == old(self)@.after_join(
                        admission.outcome.player_id,
                        username@,
                    )
                    &&& admission.outcome.rejoin == old(self)@.knows(admission.outcome.player_id)
                    &&& admission.outcome.rejoin ==> requested == Some(
                        admission.outcome.player_id,
                    )
                    &&& !admission.outcome.rejoin ==> old(self)@.is_free_id(
                        admission.outcome.player_id,
                    )
                    &&& is_snapshot_of(admission.sync@, final(self)@)
                    &&& admission.announcement@ == (ServerEventView::PlayerJoin {
                        player_id: admission.outcome.player_id,
                        player_username: username@,
                    })
                },
                Err(error) => {
                    &&& final(self)@ == old(self)@
                    &&& error == JoinError::JoinInProgress
                },
            },
    {
        let announced_name = username.clone();
        match self.join(requested, username) {
            Ok(outcome) => {
                let sync = self.sync_state();
                let announcement = player_join_event(outcome.player_id, announced_name.as_str());
                Ok(Admission { outcome, sync, announcement })
            },
            Err(error) => Err(error),
        }
    }

    /// The player's connection is gone: the player leaves, the others are
    /// told, and the caller learns whether the lobby is empty now.
    pub fn disconnect(&mut self, player_id: PlayerId) -> (departure: Departure)
        ensures
            final(self)@ == old(self)@.after_leave(player_id),
            departure.event@ == (ServerEventView::PlayerLeave { player_id }),
            departure.lobby_empty == final(self)@.lobby.is_empty(),
            old(self)@.wf() ==> final(self)@.wf(),
    {
        let lobby_empty = self.player_leave(player_id);
        Departure { event: GuessTheSongServerEvent::PlayerLeave { player_id }, lobby_empty }
    }

    /// The songs could not be fetched: the lobby waits again, the player
    /// whose ready-up started the game is unready, and everybody is told
    /// why nothing has started.
    pub fn playlist_failed(&mut self, initiator: PlayerId, error: LoadError) -> (event:
        GuessTheSongServerEvent)
        ensures
            final(self)@ == old(self)@.after_playlist_failure(initiator),
            event@ == (ServerEventView::PlaylistError { message: error.message_text() }),
            old(self)@.wf() ==> final(self)@.wf(),
    {
        self.player_unready(initiator);
        self.update_lobby_status(LobbyStatus::Waiting);
        GuessTheSongServerEvent::PlaylistError { message: error.message() }
    }

    fn handle_ready(&mut self, player_id: PlayerId) -> (reaction: Reaction)
        ensures
            final(self)@ == old(self)@.on_ready(player_id).game,
            event_views(reaction.events@) == old(self)@.on_ready(player_id).events,
            reaction.start_game == old(self)@.on_ready(player_id).start_game,
            old(self)@.wf() ==> final(self)@.wf(),
    {
        self.player_ready(player_id);
        let mut events: Vec<GuessTheSongServerEvent> = Vec::new();
        events.push(GuessTheSongServerEvent::PlayerReady { player_id });
        if self.all_ready() {
            events.push(GuessTheSongServerEvent::AllReady);
        }
        let start_game = self.begin_play();
        assert(event_views(events@) =~= old(self)@.on_ready(player_id).events);
        Reaction { events, start_game }
    }

    fn handle_guess(&mut self, player_id: PlayerId, content: String, now: u64, award: u32) -> (reaction:
        Reaction)
        requires
            old(self)@.guess_has_room(player_id, content@, now, award),
        ensures
            final(self)@ == old(self)@.on_guess(player_id, content@, now, award).game,
            event_views(reaction.events@) == old(self)@.on_guess(
                player_id,
                content@,
                now,
                award,
            ).events,
            !reaction.start_game,
            old(self)@.wf() ==> final(self)@.wf(),
    {
        let ghost before = self@;
        let mut events: Vec<GuessTheSongServerEvent> = Vec::new();
        let username = match self.lobby_state.username_of(player_id) {
            Some(name) => name,
            None => {
                assert(event_views(events@) =~= before.quiet().events);
                return Reaction { events, start_game: false };
            },
        };
        let too_soon = self.state.locked_out(now, self.settings.answer_delay_seconds);
        let guess = content.clone();
        events.push(GuessTheSongServerEvent::PlayerGuess { username, content });
        if too_soon {
            assert(event_views(events@) =~= before.on_guess(player_id, guess@, now, award).events);
            return Reaction { events, start_game: false };
        }
        self.state.last_guess_time = Some(now);
        let ghost noted = before.state.with_last_guess(Some(now));
        let ghost due = before.awards_due(player_id, guess@, now);
        assert(self@.state == noted);
        assert(before.knows(player_id) ==> before.state.scores[player_id] + due * award
            <= u32::MAX);
        assert(due == 0 ==> due * award == 0);
        assert(due == 1 ==> due * award == award);
        assert(due == 2 ==> due * award == award + award);
        if let Some(title) = self.is_correct_song(guess.as_str()) {
            self.increment_player_score(player_id, award);
            events.push(
                GuessTheSongServerEvent::CorrectGuess {
                    player_id,
                    msg: "Correct song: ".to_owned().concat(title.as_str()),
                },
            );
        }
        let ghost titled = if noted.title_hit(guess@) {
            noted.after_title_guess(guess@).award(player_id, award)
        } else {
            noted.after_title_guess(guess@)
        };
        assert(self@.state == titled);
        assert(titled.artist_hit(guess@) == before.state.artist_hit(guess@)) by {
            if noted.has_current_song() {
                let song = noted.songs[noted.current()];
                assert(song.after_title_guess(guess@).artist_keys() =~= song.artist_keys());
                assert(song.after_title_guess(guess@).artist_flags() =~= song.artist_flags());
            }
        }
        if let Some(name) = self.is_correct_artist(guess.as_str()) {
            self.increment_player_score(player_id, award);
            events.push(
                GuessTheSongServerEvent::CorrectGuess {
                    player_id,
                    msg: "Correct artist: ".to_owned().concat(name.as_str()),
                },
            );
        }
        assert(self@ == before.after_accepted_guess(player_id, guess@, now, award));
        assert(event_views(events@) =~= before.on_guess(player_id, guess@, now, award).events);
        Reaction { events, start_game: false }
    }

    /// Carries out one command of a joined player and returns what is to
    /// be published. `now` is the time in seconds; `award` is what a
    /// correct title or artist is worth.
    pub fn handle_user_event(
        &mut self,
        player_id: PlayerId,
        event: GuessTheSongUserEvent,
        now: u64,
        award: u32,
    ) -> (reaction: Reaction)
        requires
            old(self)@.score_has_room(player_id, event@, now, award),
        ensures
            final(self)@ == old(self)@.react(player_id, event@, now, award).game,
            event_views(reaction.events@) == old(self)@.react(player_id, event@, now, award).events,
            reaction.start_game == old(self)@.react(player_id, event@, now, award).start_game,
            old(self)@.wf() ==> final(self)@.wf(),
    {
        match event {
            GuessTheSongUserEvent::Join { .. } => {
                let events: Vec<GuessTheSongServerEvent> = Vec::new();
                assert(event_views(events@) =~= old(self)@.quiet().events);
                Reaction { events, start_game: false }
            },
            GuessTheSongUserEvent::Ready => self.handle_ready(player_id),
            GuessTheSongUserEvent::Unready => {
                self.player_unready(player_id);
                let mut events: Vec<GuessTheSongServerEvent> = Vec::new();
                events.push(GuessTheSongServerEvent::PlayerUnready { player_id });
                assert(event_views(events@) =~= old(self)@.on_unready(player_id).events);
                Reaction { events, start_game: false }
            },
            GuessTheSongUserEvent::UpdateGameSettings { settings } => {
                let echoed = settings.clone();
                self.update_game_settings(settings);
                let mut events: Vec<GuessTheSongServerEvent> = Vec::new();
                events.push(GuessTheSongServerEvent::GameSettingsUpdated { settings: echoed });
                assert(event_views(events@) =~= old(self)@.on_settings(settings@).events);
                Reaction { events, start_game: false }
            },
            GuessTheSongUserEvent::Guess { content } => self.handle_guess(
                player_id,
                content,
                now,
                award,
            ),
        }
    }

    /// How many awards a guess of the player would earn at time `now`.
    pub fn awards_due(&self, player_id: PlayerId, content: &str, now: u64) -> (due: u8)
        ensures
            due == self@.awards_due(player_id, content@, now),
    {
        if !self.lobby_state.contains_player(player_id) || self.state.locked_out(
            now,
            self.settings.answer_delay_seconds,
        ) {
            return 0;
        }
        let for_title: u8 = if self.state.title_would_hit(content) {
            1
        } else {
            0
        };
        let for_artist: u8 = if self.state.artist_would_hit(content) {
            1
        } else {
            0
        };
        for_title + for_artist
    }

    /// Whether what the command would earn the player fits into the
    /// player's score.
    pub fn score_has_room(
        &self,
        player_id: PlayerId,
        event: &GuessTheSongUserEvent,
        now: u64,
        award: u32,
    ) -> (fits: bool)
        ensures
            fits == self@.score_has_room(player_id, event@, now, award),
    {
        broadcast use vstd::std_specs::hash::group_hash_axioms;

        let content = match event {
            GuessTheSongUserEvent::Guess { content } => content,
            _ => {
                return true;
            },
        };
        let score: u32 = match self.state.scores.get(&player_id) {
            Some(score) => *score,
            None => {
                return true;
            },
        };
        let due: u8 = self.awards_due(player_id, content.as_str(), now);
        assert(due == 0 ==> due * award == 0);
        assert(due == 1 ==> due * award == award);
        assert(due == 2 ==> due * award == award + award);
        if due == 0 {
            true
        } else if due == 1 {
            award <= u32::MAX - score
        } else {
            award <= u32::MAX - score && award <= u32::MAX - score - award
        }
    }

    /// Carries out one command of a joined player if what it earns fits
    /// into the player's score, and does nothing otherwise.
    pub fn try_handle_user_event(
        &mut self,
        player_id: PlayerId,
        event: GuessTheSongUserEvent,
        now: u64,
        award: u32,
    ) -> (result: Option<Reaction>)
        ensures
            result is Some == old(self)@.score_has_room(player_id, event@, now, award),
            match result {
                Some(reaction) => {
                    let outcome = old(self)@.react(player_id, event@, now, award);
                    &&& final(self)@ == outcome.game
                    &&& event_views(reaction.events@) == outcome.events
                    &&& reaction.start_game == outcome.start_game
                },
                None => final(self)@ == old(self)@,
            },
            old(self)@.wf() ==> final(self)@.wf(),
    {
        if self.score_has_room(player_id, &event, now, award) {
            Some(self.handle_user_event(player_id, event, now, award))
        } else {
            None
        }
    }
}

} // verus!
