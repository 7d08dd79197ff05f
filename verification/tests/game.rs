use guess_the_song::game::{
    GuessTheSongGame, JoinError, JoinOutcome, PlayerJoinResult, MAX_ID_DRAWS,
};
use guess_the_song::lobby::LobbyStatus;
use guess_the_song::settings::GuessTheSongGameSettings;
use guess_the_song::song::Song;

fn song(title: &str, artist: &str) -> Song {
    Song {
        title: title.to_string(),
        artists: vec![artist.to_string()],
        url: format!("https://previews.example/{}.mp3", title),
    }
}

#[test]
fn new_game_is_waiting_with_default_settings() {
    let game = GuessTheSongGame::new("AbC123".to_string());
    assert_eq!(game.lobby_code, "AbC123");
    assert_eq!(game.get_lobby_status(), LobbyStatus::Waiting);
    assert!(game.get_players().is_empty());
    assert!(game.get_leaderboard().is_empty());
    assert_eq!(game.get_num_songs(), 10);
    assert_eq!(game.get_playlist_link(), "");
    assert!(game.get_current_song().is_none());
    assert_eq!(game.get_round_start_time(), None);
    assert!(!game.all_ready());
}

#[test]
fn first_join_of_an_id_is_a_new_join_with_score_zero() {
    let mut game = GuessTheSongGame::new("c".to_string());
    assert_eq!(game.player_join(7, "ann".to_string()), Ok(PlayerJoinResult::NewJoin));
    assert_eq!(game.get_players(), vec![(7, "ann".to_string(), false)]);
    assert_eq!(game.get_leaderboard().get(&7), Some(&0));
}

#[test]
fn join_of_a_known_id_is_a_rejoin_and_keeps_the_score() {
    let mut game = GuessTheSongGame::new("c".to_string());
    game.player_join(7, "ann".to_string()).unwrap();
    game.increment_player_score(7, 3);
    game.player_ready(7);
    assert_eq!(game.player_join(7, "anna".to_string()), Ok(PlayerJoinResult::ReJoin));
    assert_eq!(game.get_players(), vec![(7, "anna".to_string(), false)]);
    assert_eq!(game.get_leaderboard().get(&7), Some(&3));
}

#[test]
fn new_player_is_turned_away_while_playing() {
    let mut game = GuessTheSongGame::new("c".to_string());
    game.player_join(7, "ann".to_string()).unwrap();
    game.update_lobby_status(LobbyStatus::Playing);
    assert_eq!(game.player_join(8, "bob".to_string()), Err(JoinError::JoinInProgress));
    assert_eq!(game.get_players(), vec![(7, "ann".to_string(), false)]);
    assert_eq!(game.get_leaderboard().len(), 1);
}

#[test]
fn former_player_may_come_back_while_playing() {
    let mut game = GuessTheSongGame::new("c".to_string());
    game.player_join(7, "ann".to_string()).unwrap();
    game.player_join(8, "bob".to_string()).unwrap();
    game.player_leave(7);
    game.update_lobby_status(LobbyStatus::Playing);
    assert_eq!(game.player_join(7, "ann".to_string()), Ok(PlayerJoinResult::ReJoin));
    assert_eq!(game.get_players().len(), 2);
}

#[test]
fn join_without_id_issues_a_random_uuid() {
    let mut game = GuessTheSongGame::new("c".to_string());
    let outcome = game.join(None, "ann".to_string()).unwrap();
    assert!(!outcome.rejoin);
    assert_eq!((outcome.player_id >> 76) & 0xf, 4);
    assert_eq!((outcome.player_id >> 62) & 0x3, 2);
    assert_eq!(game.get_players(), vec![(outcome.player_id, "ann".to_string(), false)]);
    assert_eq!(game.get_leaderboard().get(&outcome.player_id), Some(&0));
}

#[test]
fn join_with_a_known_id_comes_back_under_it() {
    let mut game = GuessTheSongGame::new("c".to_string());
    let first = game.join(None, "ann".to_string()).unwrap();
    game.player_leave(first.player_id);
    game.update_lobby_status(LobbyStatus::Playing);
    let again = game.join(Some(first.player_id), "ann".to_string()).unwrap();
    assert_eq!(again, JoinOutcome { player_id: first.player_id, rejoin: true });
}

#[test]
fn join_with_an_unknown_id_gets_a_fresh_one() {
    let mut game = GuessTheSongGame::new("c".to_string());
    let outcome = game.join(Some(12345), "ann".to_string()).unwrap();
    assert!(!outcome.rejoin);
    assert_ne!(outcome.player_id, 12345);
    assert!(!game.get_leaderboard().contains_key(&12345));
}

#[test]
fn join_with_an_unknown_id_is_turned_away_while_playing() {
    let mut game = GuessTheSongGame::new("c".to_string());
    game.update_lobby_status(LobbyStatus::Playing);
    assert_eq!(game.join(Some(12345), "ann".to_string()), Err(JoinError::JoinInProgress));
    assert_eq!(game.join(None, "bob".to_string()), Err(JoinError::JoinInProgress));
    assert!(game.get_players().is_empty());
    assert!(game.get_leaderboard().is_empty());
}

#[test]
fn no_two_players_of_a_lobby_share_an_id() {
    let mut game = GuessTheSongGame::new("c".to_string());
    let mut ids = Vec::new();
    for i in 0..200 {
        let outcome = game.join(None, format!("p{}", i)).unwrap();
        assert!(!outcome.rejoin);
        assert!(!ids.contains(&outcome.player_id));
        ids.push(outcome.player_id);
        if i % 3 == 0 {
            game.player_leave(outcome.player_id);
        }
    }
    assert_eq!(game.get_leaderboard().len(), 200);
    assert_eq!(game.get_players().len(), 133);
}

#[test]
fn fresh_ids_are_free_and_random_uuids() {
    let mut game = GuessTheSongGame::new("c".to_string());
    game.player_join(7, "ann".to_string()).unwrap();
    assert!(!game.is_free_id(7));
    assert!(game.is_free_id(8));
    game.player_leave(7);
    assert!(!game.is_free_id(7));
    let fresh = game.get_new_player_id();
    assert!(game.is_free_id(fresh));
    assert_eq!(fresh & 0xf000_c000_0000_0000_0000, 0x4000_8000_0000_0000_0000);
    let other = game.get_new_player_id();
    assert_eq!(other & 0xf000_c000_0000_0000_0000, 0x4000_8000_0000_0000_0000);
    assert!(MAX_ID_DRAWS > 0);
}

#[test]
fn leave_keeps_the_score_and_reports_emptiness() {
    let mut game = GuessTheSongGame::new("c".to_string());
    game.player_join(7, "ann".to_string()).unwrap();
    game.player_join(8, "bob".to_string()).unwrap();
    game.increment_player_score(7, 4);
    assert!(!game.player_leave(7));
    assert_eq!(game.get_leaderboard().get(&7), Some(&4));
    assert!(!game.player_leave(99));
    assert!(game.player_leave(8));
    assert_eq!(game.get_leaderboard().len(), 2);
    assert!(game.player_leave(8));
}

#[test]
fn reset_zeroes_scores_clears_songs_and_keeps_the_players() {
    let mut game = GuessTheSongGame::new("c".to_string());
    game.player_join(7, "ann".to_string()).unwrap();
    game.player_join(8, "bob".to_string()).unwrap();
    game.player_leave(8);
    game.increment_player_score(7, 4);
    game.increment_player_score(8, 2);
    game.record_song_batch(vec![song("Heroes", "David Bowie")]);
    game.update_lobby_status(LobbyStatus::Playing);
    game.get_next_song();
    game.reset();
    assert_eq!(game.get_lobby_status(), LobbyStatus::Waiting);
    assert_eq!(game.get_players(), vec![(7, "ann".to_string(), false)]);
    let scores = game.get_leaderboard();
    assert_eq!(scores.len(), 2);
    assert_eq!(scores[&7], 0);
    assert_eq!(scores[&8], 0);
    assert!(game.state.songs.is_empty());
    assert_eq!(game.state.song_index, 0);
    assert!(game.get_current_song().is_none());
}

#[test]
fn begin_play_needs_a_waiting_all_ready_lobby() {
    let mut game = GuessTheSongGame::new("c".to_string());
    assert!(!game.begin_play());
    game.player_join(7, "ann".to_string()).unwrap();
    game.player_join(8, "bob".to_string()).unwrap();
    game.player_ready(7);
    assert!(!game.begin_play());
    assert_eq!(game.get_lobby_status(), LobbyStatus::Waiting);
    game.player_ready(8);
    assert!(game.all_ready());
    assert!(game.begin_play());
    assert_eq!(game.get_lobby_status(), LobbyStatus::Playing);
}

#[test]
fn begin_play_succeeds_once() {
    let mut game = GuessTheSongGame::new("c".to_string());
    for id in 1..=5u128 {
        game.player_join(id, format!("p{}", id)).unwrap();
    }
    let mut starts = 0;
    for id in 1..=5u128 {
        game.player_ready(id);
        if game.begin_play() {
            starts += 1;
        }
    }
    for _ in 0..5 {
        if game.begin_play() {
            starts += 1;
        }
    }
    assert_eq!(starts, 1);
    assert_eq!(game.get_lobby_status(), LobbyStatus::Playing);
}

#[test]
fn settings_update_is_legal_during_a_game() {
    let mut game = GuessTheSongGame::new("c".to_string());
    game.update_lobby_status(LobbyStatus::Playing);
    game.update_game_settings(GuessTheSongGameSettings {
        playlist_link: "link".to_string(),
        num_songs: 2,
        round_length_seconds: 9,
        answer_delay_seconds: 8,
        round_delay_seconds: 7,
    });
    let settings = game.get_settings();
    assert_eq!(settings.playlist_link, "link");
    assert_eq!(settings.num_songs, 2);
    assert_eq!(settings.round_length_seconds, 9);
    assert_eq!(settings.answer_delay_seconds, 8);
    assert_eq!(settings.round_delay_seconds, 7);
    assert_eq!(game.get_num_songs(), 2);
    assert_eq!(game.get_playlist_link(), "link");
    assert_eq!(game.get_lobby_status(), LobbyStatus::Playing);
}

#[test]
fn song_batch_is_appended_in_order_with_nothing_found() {
    let mut game = GuessTheSongGame::new("c".to_string());
    game.record_song_batch(vec![song("Heroes", "David Bowie"), song("Jolene", "Dolly Parton")]);
    game.record_song_batch(vec![song("Creep", "Radiohead")]);
    let titles: Vec<(String, bool)> = game.state.songs.iter().map(|s| s.title.clone()).collect();
    assert_eq!(
        titles,
        vec![
            ("Heroes".to_string(), false),
            ("Jolene".to_string(), false),
            ("Creep".to_string(), false),
        ]
    );
    assert_eq!(game.state.songs[2].artists, vec![("Radiohead".to_string(), false)]);
    assert_eq!(game.get_next_song().unwrap().title, "Heroes");
    assert_eq!(game.get_current_song().unwrap().title, "Heroes");
}

#[test]
fn guesses_on_the_game_credit_the_current_song_once() {
    let mut game = GuessTheSongGame::new("c".to_string());
    game.record_song_batch(vec![song("Heroes", "David Bowie")]);
    assert_eq!(game.is_correct_song("heroes"), None);
    game.get_next_song();
    assert_eq!(game.is_correct_song(" HEROES"), Some("Heroes".to_string()));
    assert_eq!(game.is_correct_song("heroes"), None);
    assert_eq!(game.is_correct_artist("David bowie "), Some("David Bowie".to_string()));
    assert_eq!(game.is_correct_artist("david bowie"), None);
    assert!(game.get_next_song().is_none());
    assert_eq!(game.is_correct_song("heroes"), None);
}

#[test]
fn award_to_a_player_without_score_does_nothing() {
    let mut game = GuessTheSongGame::new("c".to_string());
    game.player_join(7, "ann".to_string()).unwrap();
    game.increment_player_score(9, 5);
    game.increment_player_score(7, 5);
    let scores = game.get_leaderboard();
    assert_eq!(scores.len(), 1);
    assert_eq!(scores[&7], 5);
}

#[test]
fn least_free_id_is_the_least_id_without_player_and_score() {
    let mut game = GuessTheSongGame::new("c".to_string());
    assert_eq!(game.least_free_id(), 0);
    game.player_join(0, "ann".to_string()).unwrap();
    game.player_join(1, "bob".to_string()).unwrap();
    game.player_join(3, "cat".to_string()).unwrap();
    assert_eq!(game.least_free_id(), 2);
    game.player_leave(0);
    assert_eq!(game.least_free_id(), 2);
    game.player_join(2, "dan".to_string()).unwrap();
    assert_eq!(game.least_free_id(), 4);
    game.lobby_state.player_join(4, "eve".to_string());
    assert_eq!(game.least_free_id(), 5);
}

#[test]
fn join_is_always_let_in_while_the_lobby_waits() {
    let mut game = GuessTheSongGame::new("c".to_string());
    for i in 0..50u128 {
        game.player_join(i, format!("p{}", i)).unwrap();
    }
    let outcome = game.join(None, "new".to_string()).unwrap();
    assert!(!outcome.rejoin);
    assert!(outcome.player_id >= 50);
    assert_eq!(game.get_players().len(), 51);
    let stranger = game.join(Some(999_999), "other".to_string()).unwrap();
    assert!(!stranger.rejoin);
    assert_eq!(game.get_leaderboard().len(), 52);
}
