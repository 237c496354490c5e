//! Tests for progression matching and normalization.

use key_finder::keyfinder::{find_keys, get_user_chords, is_chord_in_key, KeyError};
use key_finder::keys::{init, Key};

#[test]
fn empty_user_input_should_return_error() {
    let user_chords = Vec::<String>::new();
    let key_data = vec![Key::new(String::from("C"), vec!["C".to_string()])];

    let res = find_keys(&user_chords, key_data);

    assert!(res.is_err());
}

#[test]
fn should_be_ok() {
    let user_chords = vec!["C".to_string()];
    let key_data = vec![Key::new(String::from("C"), vec!["C".to_string(), "C".to_string()])];

    let res = find_keys(&user_chords, key_data);

    assert!(res.is_ok());
}

#[test]
fn when_all_chords_are_in_a_key_return_true() {
    let user_chords = vec!["C".to_string(), "Dm".to_string(), "F".to_string()];
    let chords_in_key = vec![
        "C".to_string(),
        "Dm".to_string(),
        "Em".to_string(),
        "F".to_string(),
        "G".to_string(),
        "Am".to_string(),
        "Bm".to_string(),
    ];

    assert!(is_chord_in_key(&user_chords, &chords_in_key));
}

#[test]
fn when_all_chords_are_not_in_a_key_return_false() {
    let user_chords = vec!["C".to_string(), "Dm".to_string(), "F".to_string()];
    let chords_in_key = vec!["C".to_string(), "Fm".to_string()];

    assert!(!is_chord_in_key(&user_chords, &chords_in_key));
}

#[test]
fn empty_input_gives_empty_input_error() {
    let mut keys: Vec<Key> = Vec::new();
    init(&mut keys);

    let res = find_keys(&Vec::<String>::new(), keys);

    assert!(matches!(res, Err(KeyError::EmptyInputError)));
}

#[test]
fn single_c_chord_matches_the_c_major_key() {
    let mut keys: Vec<Key> = Vec::new();
    init(&mut keys);

    let res = find_keys(&vec!["C".to_string()], keys).unwrap();

    assert!(res
        .iter()
        .any(|k| k.tonic == "C" && k.chords == ["C", "Dm", "Em", "F", "G", "Am", "Bm"]));
}

#[test]
fn incompatible_chords_give_not_found() {
    let mut keys: Vec<Key> = Vec::new();
    init(&mut keys);

    let res = find_keys(&vec!["C".to_string(), "Fm".to_string()], keys);

    assert!(matches!(res, Err(KeyError::NotFound)));
}

#[test]
fn every_returned_key_contains_all_input_chords() {
    let mut keys: Vec<Key> = Vec::new();
    init(&mut keys);

    let user_chords = vec!["C".to_string(), "G".to_string(), "Am".to_string()];
    let res = find_keys(&user_chords, keys).unwrap();

    assert!(!res.is_empty());
    for key in &res {
        for chord in &user_chords {
            assert!(key.chords.contains(chord));
        }
    }
}

#[test]
fn normalization_strips_extended_qualities() {
    assert_eq!(get_user_chords("Cmaj7 Dm F G7"), ["C", "Dm", "F", "G"]);
}

#[test]
fn normalization_turns_a_dash_into_the_minor_marker() {
    assert_eq!(get_user_chords("C-7"), ["Cm"]);
}

#[test]
fn normalization_strips_each_marker() {
    assert_eq!(
        get_user_chords("C\u{0394} Bdim Co C\u{00F8} Caug C+ C6 C9 C13 Gdom7"),
        ["C", "B", "C", "C", "C", "C", "C", "C", "C", "G"]
    );
}

#[test]
fn normalization_of_empty_or_blank_input_is_empty() {
    assert_eq!(get_user_chords(""), Vec::<String>::new());
    assert_eq!(get_user_chords("   \t\n  "), Vec::<String>::new());
}

#[test]
fn normalizing_already_normalized_tokens_changes_nothing() {
    let once = get_user_chords("Cmaj7 D-7 F# Bbm");
    let again = get_user_chords(&once.join(" "));

    assert_eq!(once, again);
}

#[test]
fn full_pipeline_finds_the_key_of_a_progression() {
    let mut keys: Vec<Key> = Vec::new();
    init(&mut keys);

    let user_chords = get_user_chords("Cmaj7 Dm F G7");
    let res = find_keys(&user_chords, keys).unwrap();

    assert!(res.iter().any(|k| k.tonic == "C"));
    assert!(res.iter().all(|k| k.chords.contains(&"Dm".to_string())));
}
