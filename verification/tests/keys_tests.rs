//! Tests for catalog construction.

use key_finder::keys::{init, Key};

#[test]
fn major_and_minor_keys_both_have_15_keys_thus_should_result_in_30_keys() {
    let mut keys: Vec<Key> = Vec::new();

    init(&mut keys);

    assert_eq!(keys.len(), 30);
}

#[test]
fn keys_should_contain_circle_of_fifths_keys() {
    let mut keys: Vec<Key> = Vec::new();

    init(&mut keys);

    assert!(keys.iter().any(|k| k.tonic == "Cb"));
    assert!(keys.iter().any(|k| k.tonic == "Gm"));
    assert!(keys.iter().any(|k| k.tonic == "Bbm"));
}

#[test]
fn keys_should_not_contain_accidental_keys() {
    let mut keys: Vec<Key> = Vec::new();

    init(&mut keys);

    assert!(!keys.iter().any(|k| k.tonic == "Fb"));
    assert!(!keys.iter().any(|k| k.tonic == "G#"));
    assert!(!keys.iter().any(|k| k.tonic == "Cbm"));
    assert!(!keys.iter().any(|k| k.tonic == "E#m"));
}

#[test]
fn keys_should_contain_diatonic_chords() {
    let mut keys: Vec<Key> = Vec::new();

    init(&mut keys);

    assert_eq!(keys[0].chords, ["A", "Bm", "C#m", "D", "E", "F#m", "G#m",]);
    assert_eq!(keys[6].chords, ["Bb", "Cm", "Dm", "Eb", "F", "Gm", "Am"]);
    assert_eq!(keys[9].chords, ["C", "Dm", "Em", "F", "G", "Am", "Bm",]);
    assert_eq!(keys[29].chords, ["Gm", "Am", "A#", "Cm", "Dm", "D#", "F"]);
}

#[test]
fn every_key_has_exactly_seven_chords() {
    let mut keys: Vec<Key> = Vec::new();

    init(&mut keys);

    assert!(keys.iter().all(|k| k.chords.len() == 7));
}

#[test]
fn no_rejected_tonic_survives_either_rejection_set() {
    let mut keys: Vec<Key> = Vec::new();

    init(&mut keys);

    let rejected_major = ["D#", "E#", "Fb", "G#", "A#", "B#"];
    let rejected_minor = ["Dbm", "E#m", "Fbm", "Gbm", "B#m", "Cbm"];
    for k in &keys {
        assert!(!rejected_major.contains(&k.tonic.as_str()));
        assert!(!rejected_minor.contains(&k.tonic.as_str()));
    }
}

#[test]
fn building_the_catalog_twice_gives_identical_results() {
    let mut first: Vec<Key> = Vec::new();
    let mut second: Vec<Key> = Vec::new();

    init(&mut first);
    init(&mut second);

    assert_eq!(first, second);
}

#[test]
fn catalog_keys_are_unique_by_tonic() {
    let mut keys: Vec<Key> = Vec::new();

    init(&mut keys);

    for i in 0..keys.len() {
        for j in 0..i {
            assert_ne!(keys[i].tonic, keys[j].tonic);
        }
    }
}

#[test]
fn key_new_keeps_its_parts() {
    let key = Key::new(String::from("C"), vec![String::from("C"), String::from("Dm")]);

    assert_eq!(key.tonic, "C");
    assert_eq!(key.chords, ["C", "Dm"]);
}
