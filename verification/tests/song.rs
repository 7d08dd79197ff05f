use guess_the_song::song::{Song, SongState};

fn under_pressure() -> SongState {
    SongState::new(Song {
        title: "Under Pressure".to_string(),
        artists: vec!["Queen".to_string(), "David Bowie".to_string()],
        url: "https://previews.example/under-pressure.mp3".to_string(),
    })
}

#[test]
fn new_song_has_nothing_found() {
    let song = under_pressure();
    assert_eq!(song.title, ("Under Pressure".to_string(), false));
    assert_eq!(
        song.artists,
        vec![("Queen".to_string(), false), ("David Bowie".to_string(), false)]
    );
    assert_eq!(song.url, "https://previews.example/under-pressure.mp3");
}

#[test]
fn to_song_drops_the_flags() {
    let mut state = under_pressure();
    assert_eq!(state.guess_artist("queen"), Some("Queen".to_string()));
    let song = state.to_song();
    assert_eq!(song.title, "Under Pressure");
    assert_eq!(song.artists, vec!["Queen".to_string(), "David Bowie".to_string()]);
    assert_eq!(song.url, "https://previews.example/under-pressure.mp3");
}

#[test]
fn title_guess_ignores_case_and_surrounding_space() {
    let mut song = under_pressure();
    assert!(song.title_hit("  uNDER pRESSURE "));
    assert_eq!(song.guess_title("  uNDER pRESSURE "), Some("Under Pressure".to_string()));
    assert!(song.title.1);
}

#[test]
fn title_is_credited_once() {
    let mut song = under_pressure();
    assert_eq!(song.guess_title("under pressure"), Some("Under Pressure".to_string()));
    assert_eq!(song.guess_title("under pressure"), None);
    assert_eq!(song.guess_title("Under Pressure"), None);
    assert!(!song.title_hit("under pressure"));
}

#[test]
fn wrong_title_changes_nothing() {
    let mut song = under_pressure();
    assert_eq!(song.guess_title("under  pressure"), None);
    assert_eq!(song.guess_title("pressure"), None);
    assert!(!song.title.1);
}

#[test]
fn artist_guess_credits_that_artist_only() {
    let mut song = under_pressure();
    assert_eq!(song.artist_hit(" david bowie"), Some(1));
    assert_eq!(song.guess_artist(" david bowie"), Some("David Bowie".to_string()));
    assert_eq!(
        song.artists,
        vec![("Queen".to_string(), false), ("David Bowie".to_string(), true)]
    );
    assert!(!song.title.1);
}

#[test]
fn artist_is_credited_once() {
    let mut song = under_pressure();
    assert_eq!(song.guess_artist("QUEEN"), Some("Queen".to_string()));
    assert_eq!(song.guess_artist("queen"), None);
    assert_eq!(song.artist_hit("queen"), None);
    assert_eq!(song.guess_artist("david bowie"), Some("David Bowie".to_string()));
    assert_eq!(song.guess_artist("david bowie"), None);
}

#[test]
fn equal_names_are_credited_one_after_the_other() {
    let mut song = SongState::new(Song {
        title: "Duet".to_string(),
        artists: vec!["Sam".to_string(), " sam ".to_string()],
        url: "u".to_string(),
    });
    assert_eq!(song.guess_artist("SAM"), Some("Sam".to_string()));
    assert_eq!(song.guess_artist("SAM"), Some(" sam ".to_string()));
    assert_eq!(song.guess_artist("SAM"), None);
}

#[test]
fn song_without_artists_has_no_artist_hit() {
    let mut song =
        SongState::new(Song { title: "Solo".to_string(), artists: vec![], url: "u".to_string() });
    assert_eq!(song.guess_artist("solo"), None);
    assert_eq!(song.guess_title("solo"), Some("Solo".to_string()));
}

#[test]
fn song_clone_is_equal_in_every_field() {
    let song = Song {
        title: "T".to_string(),
        artists: vec!["A".to_string(), "B".to_string()],
        url: "U".to_string(),
    };
    let copy = song.clone();
    assert_eq!(copy.title, "T");
    assert_eq!(copy.artists, vec!["A".to_string(), "B".to_string()]);
    assert_eq!(copy.url, "U");
}
