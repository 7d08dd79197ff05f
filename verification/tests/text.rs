use guess_the_song::text::{find_open_match, normalize};

fn keys(texts: &[&str]) -> Vec<String> {
    texts.iter().map(|t| t.to_string()).collect()
}

fn entries(flags: &[bool]) -> Vec<(String, bool)> {
    flags.iter().map(|f| ("x".to_string(), *f)).collect()
}

#[test]
fn normalize_trims_then_lowercases() {
    assert_eq!(normalize("  Bohemian RHAPSODY \n"), "bohemian rhapsody");
    assert_eq!(normalize("\tÄrzte "), "ärzte");
    assert_eq!(normalize("already plain"), "already plain");
    assert_eq!(normalize("   "), "");
}

#[test]
fn normalize_keeps_inner_white_space() {
    assert_eq!(normalize(" A  B "), "a  b");
}

#[test]
fn find_open_match_returns_the_first_open_match() {
    let hit = find_open_match(
        &keys(&["queen", "bowie", "queen"]),
        &entries(&[false, false, false]),
        &"queen".to_string(),
    );
    assert_eq!(hit, Some(0));
}

#[test]
fn find_open_match_skips_what_is_found() {
    let hit = find_open_match(
        &keys(&["queen", "bowie", "queen"]),
        &entries(&[true, false, false]),
        &"queen".to_string(),
    );
    assert_eq!(hit, Some(2));
}

#[test]
fn find_open_match_finds_nothing_when_all_matches_are_found() {
    let hit = find_open_match(
        &keys(&["queen", "bowie"]),
        &entries(&[true, false]),
        &"queen".to_string(),
    );
    assert_eq!(hit, None);
}

#[test]
fn find_open_match_compares_keys_exactly() {
    let hit = find_open_match(&keys(&["queen"]), &entries(&[false]), &"Queen".to_string());
    assert_eq!(hit, None);
    let none = find_open_match(&keys(&[]), &entries(&[]), &"queen".to_string());
    assert_eq!(none, None);
}
