//! Per-lobby game settings.

use vstd::prelude::*;

verus! {

/// What the players of one lobby have agreed on for the next game.
#[derive(Debug)]
pub struct GuessTheSongGameSettings {
    pub playlist_link: String,
    pub num_songs: u8,
    pub round_length_seconds: u8,
    pub answer_delay_seconds: u8,
    pub round_delay_seconds: u8,
}

/// Mathematical value of a [`GuessTheSongGameSettings`].
pub ghost struct SettingsView {
    pub playlist_link: Seq<char>,
    pub num_songs: nat,
    pub round_length_seconds: nat,
    pub answer_delay_seconds: nat,
    pub round_delay_seconds: nat,
}

impl View for GuessTheSongGameSettings {
    type V = SettingsView;

    open spec fn view(&self) -> SettingsView {
        SettingsView {
            playlist_link: self.playlist_link@,
            num_songs: self.num_songs as nat,
            round_length_seconds: self.round_length_seconds as nat,
            answer_delay_seconds: self.answer_delay_seconds as nat,
            round_delay_seconds: self.round_delay_seconds as nat,
        }
    }
}

/// The settings every new lobby starts with: no playlist, ten songs of
/// thirty seconds, five seconds of answer lockout, three seconds between rounds.
pub open spec fn default_settings() -> SettingsView {
    SettingsView {
        playlist_link: Seq::<char>::empty(),
        num_songs: 10,
        round_length_seconds: 30,
        answer_delay_seconds: 5,
        round_delay_seconds: 3,
    }
}

impl Clone for GuessTheSongGameSettings {
    fn clone(&self) -> (copy: Self)
        ensures
            copy@ == self@,
    {
        GuessTheSongGameSettings {
            playlist_link: self.playlist_link.clone(),
            num_songs: self.num_songs,
            round_length_seconds: self.round_length_seconds,
            answer_delay_seconds: self.answer_delay_seconds,
            round_delay_seconds: self.round_delay_seconds,
        }
    }
}

impl GuessTheSongGameSettings {
    /// The settings a new lobby starts with.
    pub fn new() -> (settings: Self)
        ensures
            settings@ == default_settings(),
    {
        GuessTheSongGameSettings {
            playlist_link: String::new(),
            num_songs: 10,
            round_length_seconds: 30,
            answer_delay_seconds: 5,
            round_delay_seconds: 3,
        }
    }

    /// The link of the playlist the songs are taken from.
    pub fn get_playlist_link(&self) -> (link: &String)
        ensures
            link@ == self@.playlist_link,
    {
        &self.playlist_link
    }

    /// How many songs a game has at most.
    pub fn get_num_songs(&self) -> (count: u8)
        ensures
            count == self@.num_songs,
    {
        self.num_songs
    }

    /// Replaces every field by that of `settings`; the last writer wins.
    pub fn update_game_settings(&mut self, settings: GuessTheSongGameSettings)
        ensures
            final(self)@ == settings@,
    {
        self.num_songs = settings.num_songs;
        self.playlist_link = settings.playlist_link;
        self.round_length_seconds = settings.round_length_seconds;
        self.answer_delay_seconds = settings.answer_delay_seconds;
        self.round_delay_seconds = settings.round_delay_seconds;
    }
}

} // verus!
