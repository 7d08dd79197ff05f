use guess_the_song::catalog::{
    chars_of, choose_tracks, find_from, playlist_id_of, preview_lookup_url, song_of_track,
    songs_or_error, LoadError, TrackInfo,
};
use guess_the_song::song::Song;

fn track(n: usize) -> TrackInfo {
    TrackInfo {
        title: format!("title {}", n),
        artists: vec![format!("artist {}", n)],
        isrc: Some(format!("ISRC{:04}", n)),
    }
}

fn chars(text: &str) -> Vec<char> {
    text.chars().collect()
}

#[test]
fn chars_of_lists_the_characters() {
    assert_eq!(chars_of("aä€"), vec!['a', 'ä', '€']);
    assert_eq!(chars_of(""), Vec::<char>::new());
}

#[test]
fn find_from_returns_the_first_occurrence_from_the_start_position() {
    let text = chars("abcabcab");
    assert_eq!(find_from(&text, &chars("abc"), 0), Some(0));
    assert_eq!(find_from(&text, &chars("abc"), 1), Some(3));
    assert_eq!(find_from(&text, &chars("abc"), 4), None);
    assert_eq!(find_from(&text, &chars("ab"), 4), Some(6));
    assert_eq!(find_from(&text, &chars("ab"), 7), None);
    assert_eq!(find_from(&text, &chars("abcabcabc"), 0), None);
    assert_eq!(find_from(&text, &chars("x"), 0), None);
    assert_eq!(find_from(&text, &chars(""), 8), Some(8));
    assert_eq!(find_from(&text, &chars(""), 9), None);
    assert_eq!(find_from(&chars("aab"), &chars("ab"), 0), Some(1));
}

#[test]
fn playlist_id_is_what_follows_the_marker() {
    assert_eq!(
        playlist_id_of("https://open.spotify.com/playlist/37i9dQZF1DXcBWIGoYBM5M"),
        Ok("37i9dQZF1DXcBWIGoYBM5M".to_string())
    );
    assert_eq!(playlist_id_of("playlist/abc"), Ok("abc".to_string()));
}

#[test]
fn playlist_id_ends_at_the_next_marker() {
    assert_eq!(playlist_id_of("x/playlist/abc1playlist/def2"), Ok("abc1".to_string()));
    assert_eq!(playlist_id_of("playlist/playlist/abc"), Ok(String::new()));
}

#[test]
fn playlist_id_may_be_empty() {
    assert_eq!(playlist_id_of("https://open.spotify.com/playlist/"), Ok(String::new()));
}

#[test]
fn link_without_marker_is_invalid() {
    assert_eq!(playlist_id_of(""), Err(LoadError::InvalidPlaylistLink));
    assert_eq!(
        playlist_id_of("https://open.spotify.com/album/37i9dQZF1DXcBWIGoYBM5M"),
        Err(LoadError::InvalidPlaylistLink)
    );
    assert_eq!(playlist_id_of("playlist"), Err(LoadError::InvalidPlaylistLink));
    assert_eq!(playlist_id_of("Playlist/abc"), Err(LoadError::InvalidPlaylistLink));
}

#[test]
fn id_with_other_characters_is_invalid() {
    assert_eq!(
        playlist_id_of("https://open.spotify.com/playlist/37i9dQZF1DX?si=abc"),
        Err(LoadError::InvalidPlaylistLink)
    );
    assert_eq!(playlist_id_of("playlist/ab c"), Err(LoadError::InvalidPlaylistLink));
    assert_eq!(playlist_id_of("playlist/abä"), Err(LoadError::InvalidPlaylistLink));
    assert_eq!(playlist_id_of("playlist/abc/"), Err(LoadError::InvalidPlaylistLink));
}

#[test]
fn chosen_tracks_are_as_many_as_wanted_and_all_from_the_playlist() {
    let tracks: Vec<TrackInfo> = (0..20).map(track).collect();
    let chosen = choose_tracks(tracks, 5);
    assert_eq!(chosen.len(), 5);
    let mut titles: Vec<String> = chosen.iter().map(|t| t.title.clone()).collect();
    titles.sort();
    titles.dedup();
    assert_eq!(titles.len(), 5);
    for picked in &chosen {
        let n: usize = picked.title["title ".len()..].parse().unwrap();
        assert!(n < 20);
        assert_eq!(picked.artists, vec![format!("artist {}", n)]);
        assert_eq!(picked.isrc, Some(format!("ISRC{:04}", n)));
    }
}

#[test]
fn all_tracks_are_chosen_when_more_are_wanted_than_there_are() {
    let tracks: Vec<TrackInfo> = (0..3).map(track).collect();
    let chosen = choose_tracks(tracks, 10);
    let mut titles: Vec<String> = chosen.iter().map(|t| t.title.clone()).collect();
    titles.sort();
    assert_eq!(titles, vec!["title 0", "title 1", "title 2"]);
    assert!(choose_tracks(Vec::new(), 10).is_empty());
    assert!(choose_tracks((0..3).map(track).collect(), 0).is_empty());
}

#[test]
fn choice_changes_from_call_to_call() {
    let mut seen = std::collections::HashSet::new();
    for _ in 0..40 {
        let chosen = choose_tracks((0..50).map(track).collect(), 1);
        seen.insert(chosen[0].title.clone());
    }
    assert!(seen.len() > 1);
}

#[test]
fn preview_is_looked_up_by_recording_code() {
    assert_eq!(
        preview_lookup_url("GBUM71029604"),
        "https://api.deezer.com/track/isrc:GBUM71029604"
    );
    assert_eq!(preview_lookup_url(""), "https://api.deezer.com/track/isrc:");
}

#[test]
fn song_of_track_takes_title_artists_and_preview() {
    let song = song_of_track(&track(7), "https://previews.example/7.mp3".to_string());
    assert_eq!(song.title, "title 7");
    assert_eq!(song.artists, vec!["artist 7".to_string()]);
    assert_eq!(song.url, "https://previews.example/7.mp3");
}

#[test]
fn fetch_without_songs_is_an_error() {
    assert_eq!(songs_or_error(Vec::new()).err(), Some(LoadError::NoPlayableTracks));
    let songs = vec![Song { title: "T".to_string(), artists: vec![], url: "U".to_string() }];
    let kept = songs_or_error(songs).unwrap();
    assert_eq!(kept.len(), 1);
    assert_eq!(kept[0].title, "T");
}

#[test]
fn every_load_error_has_its_message() {
    assert_eq!(
        LoadError::InvalidPlaylistLink.message(),
        "Failed to extract playlist ID from link"
    );
    assert_eq!(LoadError::PlaylistUnavailable.message(), "Failed to fetch playlist");
    assert_eq!(LoadError::NoPlayableTracks.message(), "No playable tracks in playlist");
}
