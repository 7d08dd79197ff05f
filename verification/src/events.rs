//! The closed catalogue of messages between server and clients.

use crate::lobby::{roster_view, LobbyStatus, PlayerId, RosterEntry};
use crate::settings::{GuessTheSongGameSettings, SettingsView};
use crate::text::texts_of;
use std::collections::HashMap;
use vstd::prelude::*;

verus! {

/// What the server tells the clients of a lobby.
#[derive(Debug)]
#[allow(inconsistent_fields)]
pub enum GuessTheSongServerEvent {
    SyncState {
        players: Vec<(PlayerId, String, bool)>,
        settings: GuessTheSongGameSettings,
        leaderboard: HashMap<PlayerId, u32>,
        preview_url: Option<String>,
        status: LobbyStatus,
        round_start_time: Option<u64>,
    },
    PlayerJoin { player_id: PlayerId, player_username: String },
    PlayerReady { player_id: PlayerId },
    PlayerUnready { player_id: PlayerId },
    PlayerLeave { player_id: PlayerId },
    AllReady,
    GameStart,
    GameSettingsUpdated { settings: GuessTheSongGameSettings },
    RoundStart { preview_url: String, round_start_time: u64 },
    RoundEnd {
        correct_title: String,
        correct_artists: Vec<String>,
        leaderboard: HashMap<PlayerId, u32>,
    },
    GameEnd,
    PlayerGuess { username: String, content: String },
    CorrectGuess { player_id: PlayerId, msg: String },
    JoinError { message: String },
    PlaylistError { message: String },
}

/// What a client tells the server.
#[derive(Debug)]
pub enum GuessTheSongUserEvent {
    Join { lobby_code: String, username: String },
    Ready,
    Unready,
    UpdateGameSettings { settings: GuessTheSongGameSettings },
    Guess { content: String },
}

/// Mathematical value of a [`GuessTheSongServerEvent`].
#[allow(inconsistent_fields)]
pub ghost enum ServerEventView {
    SyncState {
        players: Seq<RosterEntry>,
        settings: SettingsView,
        leaderboard: Map<PlayerId, u32>,
        preview_url: Option<Seq<char>>,
        status: LobbyStatus,
        round_start_time: Option<u64>,
    },
    PlayerJoin { player_id: PlayerId, player_username: Seq<char> },
    PlayerReady { player_id: PlayerId },
    PlayerUnready { player_id: PlayerId },
    PlayerLeave { player_id: PlayerId },
    AllReady,
    GameStart,
    GameSettingsUpdated { settings: SettingsView },
    RoundStart { preview_url: Seq<char>, round_start_time: u64 },
    RoundEnd {
        correct_title: Seq<char>,
        correct_artists: Seq<Seq<char>>,
        leaderboard: Map<PlayerId, u32>,
    },
    GameEnd,
    PlayerGuess { username: Seq<char>, content: Seq<char> },
    CorrectGuess { player_id: PlayerId, msg: Seq<char> },
    JoinError { message: Seq<char> },
    PlaylistError { message: Seq<char> },
}

/// Mathematical value of a [`GuessTheSongUserEvent`].
pub ghost enum UserEventView {
    Join { lobby_code: Seq<char>, username: Seq<char> },
    Ready,
    Unready,
    UpdateGameSettings { settings: SettingsView },
    Guess { content: Seq<char> },
}

/// The value of a text that may be missing.
pub open spec fn optional_text(text: Option<String>) -> Option<Seq<char>> {
    match text {
        Some(t) => Some(t@),
        None => None,
    }
}

impl View for GuessTheSongServerEvent {
    type V = ServerEventView;

    open spec fn view(&self) -> ServerEventView {
        match *self {
            GuessTheSongServerEvent::SyncState {
                players,
                settings,
                leaderboard,
                preview_url,
                status,
                round_start_time,
            } => ServerEventView::SyncState {
                players: roster_view(players@),
                settings: settings@,
                leaderboard: leaderboard@,
                preview_url: optional_text(preview_url),
                status,
                round_start_time,
            },
            GuessTheSongServerEvent::PlayerJoin {
                player_id,
                player_username,
            } => ServerEventView::PlayerJoin { player_id, player_username: player_username@ },
            GuessTheSongServerEvent::PlayerReady { player_id } => ServerEventView::PlayerReady {
                player_id,
            },
            GuessTheSongServerEvent::PlayerUnready {
                player_id,
            } => ServerEventView::PlayerUnready { player_id },
            GuessTheSongServerEvent::PlayerLeave { player_id } => ServerEventView::PlayerLeave {
                player_id,
            },
            GuessTheSongServerEvent::AllReady => ServerEventView::AllReady,
            GuessTheSongServerEvent::GameStart => ServerEventView::GameStart,
            GuessTheSongServerEvent::GameSettingsUpdated {
                settings,
            } => ServerEventView::GameSettingsUpdated { settings: settings@ },
            GuessTheSongServerEvent::RoundStart {
                preview_url,
                round_start_time,
            } => ServerEventView::RoundStart { preview_url: preview_url@, round_start_time },
            GuessTheSongServerEvent::RoundEnd {
                correct_title,
                correct_artists,
                leaderboard,
            } => ServerEventView::RoundEnd {
                correct_title: correct_title@,
                correct_artists: texts_of(correct_artists@),
                leaderboard: leaderboard@,
            },
            GuessTheSongServerEvent::GameEnd => ServerEventView::GameEnd,
            GuessTheSongServerEvent::PlayerGuess { username, content } => ServerEventView::PlayerGuess {
                username: username@,
                content: content@,
            },
            GuessTheSongServerEvent::CorrectGuess { player_id, msg } => ServerEventView::CorrectGuess {
                player_id,
                msg: msg@,
            },
            GuessTheSongServerEvent::JoinError { message } => ServerEventView::JoinError {
                message: message@,
            },
            GuessTheSongServerEvent::PlaylistError { message } => ServerEventView::PlaylistError {
                message: message@,
            },
        }
    }
}

impl View for GuessTheSongUserEvent {
    type V = UserEventView;

    open spec fn view(&self) -> UserEventView {
        match *self {
            GuessTheSongUserEvent::Join { lobby_code, username } => UserEventView::Join {
                lobby_code: lobby_code@,
                username: username@,
            },
            GuessTheSongUserEvent::Ready => UserEventView::Ready,
            GuessTheSongUserEvent::Unready => UserEventView::Unready,
            GuessTheSongUserEvent::UpdateGameSettings {
                settings,
            } => UserEventView::UpdateGameSettings { settings: settings@ },
            GuessTheSongUserEvent::Guess { content } => UserEventView::Guess { content: content@ },
        }
    }
}

/// The values of a list of events, in order.
pub open spec fn event_views(events: Seq<GuessTheSongServerEvent>) -> Seq<ServerEventView> {
    events.map_values(|event: GuessTheSongServerEvent| event@)
}

} // verus!
