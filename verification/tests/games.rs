use guess_the_song::catalog::LoadError;
use guess_the_song::codes::{alphabet, generate_lobby_code, ALPHABET_LENGTH, LOBBY_CODE_LENGTH};
use guess_the_song::events::{GuessTheSongServerEvent, GuessTheSongUserEvent};
use guess_the_song::game::{GuessTheSongGame, JoinError};
use guess_the_song::games::{game_type_of, GameType, Games, MAX_CODE_DRAWS};
use guess_the_song::lobby::LobbyStatus;
use guess_the_song::scheduler::SchedulerPhase;
use guess_the_song::song::Song;

fn join(code: &str, name: &str) -> Option<GuessTheSongUserEvent> {
    Some(GuessTheSongUserEvent::Join { lobby_code: code.to_string(), username: name.to_string() })
}

fn song(title: &str, artist: &str) -> Song {
    Song {
        title: title.to_string(),
        artists: vec![artist.to_string()],
        url: format!("https://previews.example/{}.mp3", title),
    }
}

#[test]
fn lobby_codes_are_six_letters_or_digits() {
    for _ in 0..50 {
        let code = generate_lobby_code();
        assert_eq!(code.chars().count(), 6);
        assert_eq!(code.len(), LOBBY_CODE_LENGTH);
        assert!(code.chars().all(|c| c.is_ascii_alphanumeric()));
    }
}

#[test]
fn new_registry_knows_no_code() {
    let games = Games::new();
    assert!(!games.valid_lobby_code("AbC123"));
    assert!(!games.valid_lobby_code(""));
    assert_eq!(games.guess_the_song.len(), 0);
}

#[test]
fn created_lobby_is_registered_under_a_new_code() {
    let mut games = Games::new();
    let mut codes = Vec::new();
    for _ in 0..100 {
        let code = games.create_lobby().unwrap();
        assert_eq!(code.len(), 6);
        assert!(code.chars().all(|c| c.is_ascii_alphanumeric()));
        assert!(!codes.contains(&code));
        assert!(games.valid_lobby_code(&code));
        codes.push(code);
    }
    assert_eq!(games.guess_the_song.len(), 100);
    assert!(MAX_CODE_DRAWS > 0);
    let lobby = games.take_lobby(&codes[0]).unwrap();
    assert_eq!(lobby.lobby_code, codes[0]);
    assert_eq!(lobby.get_lobby_status(), LobbyStatus::Waiting);
    assert!(lobby.get_players().is_empty());
    assert_eq!(lobby.get_num_songs(), 10);
}

#[test]
fn added_lobby_replaces_the_one_under_the_code() {
    let mut games = Games::new();
    games.add_guess_the_song_lobby(&"AbC123".to_string());
    assert!(games.valid_lobby_code("AbC123"));
    assert!(!games.valid_lobby_code("abc123"));
    games.connect(join("AbC123", "ann"), None).unwrap();
    games.add_guess_the_song_lobby(&"AbC123".to_string());
    let lobby = games.take_lobby("AbC123").unwrap();
    assert!(lobby.get_players().is_empty());
    assert_eq!(games.guess_the_song.len(), 0);
}

#[test]
fn remove_is_idempotent() {
    let mut games = Games::new();
    games.add_guess_the_song_lobby(&"AbC123".to_string());
    games.add_guess_the_song_lobby(&"XyZ789".to_string());
    games.remove_lobby("AbC123");
    assert!(!games.valid_lobby_code("AbC123"));
    assert!(games.valid_lobby_code("XyZ789"));
    games.remove_lobby("AbC123");
    games.remove_lobby("never");
    assert!(games.valid_lobby_code("XyZ789"));
    assert_eq!(games.guess_the_song.len(), 1);
}

#[test]
fn take_and_put_hand_a_lobby_out_and_back() {
    let mut games = Games::new();
    assert!(games.take_lobby("AbC123").is_none());
    let mut lobby = GuessTheSongGame::new("AbC123".to_string());
    lobby.player_join(1, "ann".to_string()).unwrap();
    games.put_lobby("AbC123", lobby);
    assert!(games.valid_lobby_code("AbC123"));
    let taken = games.take_lobby("AbC123").unwrap();
    assert_eq!(taken.get_players(), vec![(1, "ann".to_string(), false)]);
    assert!(!games.valid_lobby_code("AbC123"));
}

#[test]
fn sweep_removes_exactly_the_empty_lobbies() {
    let mut games = Games::new();
    games.add_guess_the_song_lobby(&"EMPTY1".to_string());
    games.add_guess_the_song_lobby(&"FULL01".to_string());
    games.add_guess_the_song_lobby(&"LEFT01".to_string());
    games.connect(join("FULL01", "ann"), None).unwrap();
    let left = games.connect(join("LEFT01", "bob"), None).unwrap();
    games.disconnect("LEFT01", left.admission.outcome.player_id).unwrap();
    games.sweep();
    assert!(!games.valid_lobby_code("EMPTY1"));
    assert!(games.valid_lobby_code("FULL01"));
    assert!(!games.valid_lobby_code("LEFT01"));
    let kept = games.take_lobby("FULL01").unwrap();
    assert_eq!(kept.get_players().len(), 1);
}

#[test]
fn reap_removes_a_lobby_only_when_it_is_empty() {
    let mut games = Games::new();
    games.add_guess_the_song_lobby(&"AbC123".to_string());
    let ann = games.connect(join("AbC123", "ann"), None).unwrap().admission.outcome.player_id;
    assert!(!games.reap("AbC123"));
    assert!(games.valid_lobby_code("AbC123"));
    games.disconnect("AbC123", ann).unwrap();
    assert!(games.reap("AbC123"));
    assert!(!games.valid_lobby_code("AbC123"));
    assert!(!games.reap("AbC123"));
    assert!(!games.reap("never"));
}

#[test]
fn connect_rejects_what_is_not_a_join() {
    let mut games = Games::new();
    games.add_guess_the_song_lobby(&"AbC123".to_string());
    assert_eq!(games.connect(None, None).err(), Some(JoinError::ExpectedJoin));
    assert_eq!(
        games.connect(Some(GuessTheSongUserEvent::Ready), None).err(),
        Some(JoinError::ExpectedJoin)
    );
}

#[test]
fn connect_rejects_an_unknown_code() {
    let mut games = Games::new();
    games.add_guess_the_song_lobby(&"AbC123".to_string());
    assert_eq!(games.connect(join("nope00", "ann"), None).err(), Some(JoinError::LobbyNotFound));
    assert!(games.take_lobby("AbC123").unwrap().get_players().is_empty());
}

#[test]
fn connect_rejects_a_stranger_during_a_game_and_lets_a_player_back() {
    let mut games = Games::new();
    games.add_guess_the_song_lobby(&"AbC123".to_string());
    let ann = games.connect(join("AbC123", "ann"), None).unwrap();
    assert_eq!(ann.lobby_code, "AbC123");
    let id = ann.admission.outcome.player_id;
    let reaction = games.command("AbC123", id, GuessTheSongUserEvent::Ready, 0, 1).unwrap();
    assert!(reaction.start_game);
    assert_eq!(
        games.connect(join("AbC123", "bob"), None).err(),
        Some(JoinError::JoinInProgress)
    );
    assert_eq!(
        games.connect(join("AbC123", "bob"), Some(4711)).err(),
        Some(JoinError::JoinInProgress)
    );
    games.disconnect("AbC123", id).unwrap();
    let back = games.connect(join("AbC123", "ann"), Some(id)).unwrap();
    assert!(back.admission.outcome.rejoin);
    assert_eq!(back.admission.outcome.player_id, id);
    assert!(matches!(
        back.admission.sync,
        GuessTheSongServerEvent::SyncState { status: LobbyStatus::Playing, .. }
    ));
}

#[test]
fn operations_on_an_unknown_code_do_nothing() {
    let mut games = Games::new();
    assert!(games.command("nope00", 1, GuessTheSongUserEvent::Ready, 0, 1).is_none());
    assert!(games.disconnect("nope00", 1).is_none());
    assert!(games.scheduler_step("nope00", SchedulerPhase::Starting, 0).is_none());
    assert!(games.get_settings("nope00").is_none());
    assert!(!games.record_song_batch("nope00", vec![song("Heroes", "David Bowie")]));
    assert!(games.playlist_failed("nope00", 1, LoadError::NoPlayableTracks).is_none());
    assert_eq!(games.guess_the_song.len(), 0);
}

#[test]
fn lobby_is_gone_after_the_last_player_has_left_mid_round() {
    let mut games = Games::new();
    let code = games.create_lobby().unwrap();
    let ann = games.connect(join(&code, "ann"), None).unwrap().admission.outcome.player_id;
    let bob = games.connect(join(&code, "bob"), None).unwrap().admission.outcome.player_id;
    assert!(!games.command(&code, ann, GuessTheSongUserEvent::Ready, 0, 1).unwrap().start_game);
    assert!(games.command(&code, bob, GuessTheSongUserEvent::Ready, 0, 1).unwrap().start_game);
    assert_eq!(games.get_settings(&code).unwrap().num_songs, 10);
    assert!(games.record_song_batch(
        &code,
        vec![song("Heroes", "David Bowie"), song("Jolene", "Dolly Parton")]
    ));
    let start = games.scheduler_step(&code, SchedulerPhase::Starting, 10).unwrap();
    let round = games.scheduler_step(&code, start.next, 13).unwrap();
    assert_eq!(round.next, SchedulerPhase::InRound { played: 0 });
    let first = games.disconnect(&code, ann).unwrap();
    assert!(!first.lobby_empty);
    assert!(!games.reap(&code));
    let last = games.disconnect(&code, bob).unwrap();
    assert!(last.lobby_empty);
    assert!(games.reap(&code));
    assert!(!games.valid_lobby_code(&code));
    assert_eq!(games.connect(join(&code, "ann"), Some(ann)).err(), Some(JoinError::LobbyNotFound));
    assert!(games.scheduler_step(&code, round.next, 43).is_none());
}

#[test]
fn missed_cleanup_is_made_up_for_by_the_sweep() {
    let mut games = Games::new();
    let code = games.create_lobby().unwrap();
    let ann = games.connect(join(&code, "ann"), None).unwrap().admission.outcome.player_id;
    assert!(games.disconnect(&code, ann).unwrap().lobby_empty);
    assert!(games.valid_lobby_code(&code));
    games.sweep();
    assert!(!games.valid_lobby_code(&code));
}

#[test]
fn failed_fetch_is_reported_to_the_lobby() {
    let mut games = Games::new();
    let code = games.create_lobby().unwrap();
    let ann = games.connect(join(&code, "ann"), None).unwrap().admission.outcome.player_id;
    assert!(games.command(&code, ann, GuessTheSongUserEvent::Ready, 0, 1).unwrap().start_game);
    match games.playlist_failed(&code, ann, LoadError::InvalidPlaylistLink).unwrap() {
        GuessTheSongServerEvent::PlaylistError { message } => {
            assert_eq!(message, "Failed to extract playlist ID from link")
        }
        other => panic!("unexpected event {:?}", other),
    }
    let lobby = games.take_lobby(&code).unwrap();
    assert_eq!(lobby.get_lobby_status(), LobbyStatus::Waiting);
    assert_eq!(lobby.get_players(), vec![(ann, "ann".to_string(), false)]);
}

#[test]
fn command_that_does_not_fit_the_score_changes_nothing() {
    let mut games = Games::new();
    let code = games.create_lobby().unwrap();
    let ann = games.connect(join(&code, "ann"), None).unwrap().admission.outcome.player_id;
    let mut lobby = games.take_lobby(&code).unwrap();
    lobby.update_lobby_status(LobbyStatus::Playing);
    lobby.record_song_batch(vec![song("Heroes", "David Bowie")]);
    lobby.get_next_song();
    lobby.increment_player_score(ann, u32::MAX);
    games.put_lobby(&code, lobby);
    let guess = GuessTheSongUserEvent::Guess { content: "heroes".to_string() };
    assert!(games.command(&code, ann, guess, 5, 1).is_none());
    let lobby = games.take_lobby(&code).unwrap();
    assert_eq!(lobby.get_leaderboard()[&ann], u32::MAX);
    assert!(!lobby.state.songs[0].title.1);
}

#[test]
fn game_is_found_by_its_route() {
    assert_eq!(game_type_of("guess-the-song"), Some(GameType::GuessTheSong));
    assert_eq!(game_type_of("guess-the-song/"), None);
    assert_eq!(game_type_of("Guess-The-Song"), None);
    assert_eq!(game_type_of(""), None);
}

#[test]
fn alphabet_holds_each_letter_and_digit_once() {
    let letters: Vec<char> = alphabet().chars().collect();
    assert_eq!(letters.len(), ALPHABET_LENGTH);
    assert_eq!(letters.len(), 62);
    assert!(letters.iter().all(|c| c.is_ascii_alphanumeric()));
    let mut sorted = letters.clone();
    sorted.sort();
    sorted.dedup();
    assert_eq!(sorted.len(), 62);
    assert_eq!(letters[0], 'A');
    assert_eq!(letters[26], 'a');
    assert_eq!(letters[52], '0');
    assert_eq!(letters[61], '9');
}

#[test]
fn unused_code_is_found_in_the_order_of_the_alphabet() {
    let mut games = Games::new();
    assert_eq!(games.find_unused_code(&String::new(), 6), Some("AAAAAA".to_string()));
    games.add_guess_the_song_lobby(&"AAAAAA".to_string());
    games.add_guess_the_song_lobby(&"AAAAAB".to_string());
    assert_eq!(games.find_unused_code(&String::new(), 6), Some("AAAAAC".to_string()));
    assert_eq!(games.find_unused_code(&"AAAAA".to_string(), 1), Some("AAAAAC".to_string()));
    assert_eq!(games.find_unused_code(&"zz9".to_string(), 3), Some("zz9AAA".to_string()));
    assert_eq!(games.find_unused_code(&"AAAAAB".to_string(), 0), None);
    assert_eq!(games.find_unused_code(&"AAAAAC".to_string(), 0), Some("AAAAAC".to_string()));
    assert_eq!(games.guess_the_song.len(), 2);
}

#[test]
fn no_unused_code_is_found_where_every_code_is_taken() {
    let mut games = Games::new();
    for last in alphabet().chars() {
        games.add_guess_the_song_lobby(&format!("AAAAA{}", last));
    }
    assert_eq!(games.find_unused_code(&"AAAAA".to_string(), 1), None);
    assert_eq!(games.find_unused_code(&"AAAA".to_string(), 2), Some("AAAABA".to_string()));
    games.remove_lobby("AAAAAk");
    assert_eq!(games.find_unused_code(&"AAAAA".to_string(), 1), Some("AAAAAk".to_string()));
}

#[test]
fn lobby_is_created_beside_many_others() {
    let mut games = Games::new();
    for first in alphabet().chars() {
        for second in alphabet().chars() {
            games.add_guess_the_song_lobby(&format!("AAAA{}{}", first, second));
        }
    }
    let code = games.create_lobby().unwrap();
    assert_eq!(code.len(), 6);
    assert!(games.valid_lobby_code(&code));
    assert_eq!(games.guess_the_song.len(), 62 * 62 + 1);
}
