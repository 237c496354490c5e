//! The key catalog: the thirty circle-of-fifths keys (fifteen major,
//! fifteen natural-minor spellings) with their seven diatonic chords each.
//!
//! Candidate keys are generated from four chromatic tonic tables (major and
//! natural minor, each spelled with sharps and with flats), keys whose tonic
//! is not a conventional circle-of-fifths spelling are rejected, and the
//! survivors are sorted by (tonic, chord list) and de-duplicated by tonic,
//! keeping the first of each run.

use vstd::prelude::*;
use vstd::string::StrSliceExecFns;
use vstd::string::StringExecFns;

verus! {

// ---------------------------------------------------------------------------
// Spec model
// ---------------------------------------------------------------------------

/// Spec-level model of a [`Key`]: the tonic and the diatonic chords, each as
/// a sequence of characters.
#[verifier::ext_equal]
pub ghost struct KeyV {
    pub tonic: Seq<char>,
    pub chords: Seq<Seq<char>>,
}

/// The twelve chromatic major tonic spellings, starting at C, with sharps or
/// with flats.
pub open spec fn major_tonics(has_sharps: bool) -> Seq<Seq<char>> {
    if has_sharps {
        seq![
            seq!['C'],
            seq!['C', '#'],
            seq!['D'],
            seq!['D', '#'],
            seq!['E'],
            seq!['F'],
            seq!['F', '#'],
            seq!['G'],
            seq!['G', '#'],
            seq!['A'],
            seq!['A', '#'],
            seq!['B'],
        ]
    } else {
        seq![
            seq!['C'],
            seq!['D', 'b'],
            seq!['D'],
            seq!['E', 'b'],
            seq!['F', 'b'],
            seq!['F'],
            seq!['G', 'b'],
            seq!['G'],
            seq!['A', 'b'],
            seq!['A'],
            seq!['B', 'b'],
            seq!['C', 'b'],
        ]
    }
}

/// The twelve chromatic natural-minor tonic spellings, starting at C.
pub open spec fn minor_tonics(has_sharps: bool) -> Seq<Seq<char>> {
    if has_sharps {
        seq![
            seq!['C', 'm'],
            seq!['C', '#', 'm'],
            seq!['D', 'm'],
            seq!['D', '#', 'm'],
            seq!['E', 'm'],
            seq!['F', 'm'],
            seq!['F', '#', 'm'],
            seq!['G', 'm'],
            seq!['G', '#', 'm'],
            seq!['A', 'm'],
            seq!['A', '#', 'm'],
            seq!['B', 'm'],
        ]
    } else {
        seq![
            seq!['C', 'm'],
            seq!['D', 'b', 'm'],
            seq!['D', 'm'],
            seq!['E', 'b', 'm'],
            seq!['E', 'm'],
            seq!['F', 'm'],
            seq!['G', 'b', 'm'],
            seq!['G', 'm'],
            seq!['A', 'b', 'm'],
            seq!['A', 'm'],
            seq!['B', 'b', 'm'],
            seq!['B', 'm'],
        ]
    }
}

/// Semitone steps between consecutive degrees of a major scale.
pub open spec fn major_intervals() -> Seq<int> {
    seq![2, 2, 1, 2, 2, 2, 1]
}

/// Semitone steps between consecutive degrees of a natural-minor scale.
pub open spec fn minor_intervals() -> Seq<int> {
    seq![2, 1, 2, 2, 1, 2, 1]
}

/// Major tonics whose key signature would need double accidentals or an
/// archaic spelling; they are off the circle of fifths and are rejected.
pub open spec fn rejected_major(t: Seq<char>) -> bool {
    ||| t == seq!['D', '#']
    ||| t == seq!['E', '#']
    ||| t == seq!['F', 'b']
    ||| t == seq!['G', '#']
    ||| t == seq!['A', '#']
    ||| t == seq!['B', '#']
}

/// Minor tonics off the circle of fifths, rejected for the same reason.
pub open spec fn rejected_minor(t: Seq<char>) -> bool {
    ||| t == seq!['D', 'b', 'm']
    ||| t == seq!['E', '#', 'm']
    ||| t == seq!['F', 'b', 'm']
    ||| t == seq!['G', 'b', 'm']
    ||| t == seq!['B', '#', 'm']
    ||| t == seq!['C', 'b', 'm']
}

/// Whether a tonic is rejected, in the given mode.
pub open spec fn spec_rejected(t: Seq<char>, is_major: bool) -> bool {
    if is_major {
        rejected_major(t)
    } else {
        rejected_minor(t)
    }
}

/// The chord built on degree `j` (0-based) of a major scale whose running
/// chromatic index is `idx`: the tonic-table name, with a minor marker
/// appended on degrees ii, iii, vi and vii.
pub open spec fn major_chord(has_sharps: bool, idx: int, j: int) -> Seq<char> {
    let name = major_tonics(has_sharps)[idx % 12];
    if j == 1 || j == 2 || j == 5 || j == 6 {
        name.push('m')
    } else {
        name
    }
}

/// The chord built on degree `j` of a natural-minor scale: the tonic-table
/// name (which carries a minor marker), with the marker stripped on the
/// major-sounding degrees III, VI and VII.
pub open spec fn minor_chord(has_sharps: bool, idx: int, j: int) -> Seq<char> {
    let name = minor_tonics(has_sharps)[idx % 12];
    if j == 2 || j == 5 || j == 6 {
        name.drop_last()
    } else {
        name
    }
}

/// The chords on degrees `j..7` of the major scale, walking the chromatic
/// index from `idx` by the major step pattern.
pub open spec fn major_scale_from(has_sharps: bool, idx: int, j: int) -> Seq<Seq<char>>
    decreases 7 - j,
{
    if j < 0 || j >= 7 {
        Seq::empty()
    } else {
        seq![major_chord(has_sharps, idx, j)] + major_scale_from(
            has_sharps,
            idx + major_intervals()[j],
            j + 1,
        )
    }
}

/// The chords on degrees `j..7` of the natural-minor scale.
pub open spec fn minor_scale_from(has_sharps: bool, idx: int, j: int) -> Seq<Seq<char>>
    decreases 7 - j,
{
    if j < 0 || j >= 7 {
        Seq::empty()
    } else {
        seq![minor_chord(has_sharps, idx, j)] + minor_scale_from(
            has_sharps,
            idx + minor_intervals()[j],
            j + 1,
        )
    }
}

/// The major key starting at chromatic position `i`.
pub open spec fn major_key_at(has_sharps: bool, i: int) -> KeyV {
    KeyV { tonic: major_tonics(has_sharps)[i % 12], chords: major_scale_from(has_sharps, i, 0) }
}

/// The natural-minor key starting at chromatic position `i`.
pub open spec fn minor_key_at(has_sharps: bool, i: int) -> KeyV {
    KeyV { tonic: minor_tonics(has_sharps)[i % 12], chords: minor_scale_from(has_sharps, i, 0) }
}

/// The major keys generated from chromatic positions `i..12`, skipping
/// rejected tonics.
pub open spec fn gen_major_from(has_sharps: bool, i: int) -> Seq<KeyV>
    decreases 12 - i,
{
    if i < 0 || i >= 12 {
        Seq::empty()
    } else if rejected_major(major_tonics(has_sharps)[i % 12]) {
        gen_major_from(has_sharps, i + 1)
    } else {
        seq![major_key_at(has_sharps, i)] + gen_major_from(has_sharps, i + 1)
    }
}

/// The natural-minor keys generated from chromatic positions `i..12`.
pub open spec fn gen_minor_from(has_sharps: bool, i: int) -> Seq<KeyV>
    decreases 12 - i,
{
    if i < 0 || i >= 12 {
        Seq::empty()
    } else if rejected_minor(minor_tonics(has_sharps)[i % 12]) {
        gen_minor_from(has_sharps, i + 1)
    } else {
        seq![minor_key_at(has_sharps, i)] + gen_minor_from(has_sharps, i + 1)
    }
}

/// All candidate keys, in generation order: major with sharps, major with
/// flats, minor with sharps, minor with flats.
pub open spec fn candidate_keys() -> Seq<KeyV> {
    gen_major_from(true, 0) + gen_major_from(false, 0) + gen_minor_from(true, 0) + gen_minor_from(
        false,
        0,
    )
}

// ---------------------------------------------------------------------------
// Spec ordering, sorting and deduplication
// ---------------------------------------------------------------------------

/// Result of a three-way comparison.
pub ghost enum Cmp {
    Lt,
    Eq,
    Gt,
}

/// Lexicographic three-way comparison of two character sequences, by code
/// point; this is the order `str` comparison gives on ASCII text.
pub open spec fn cmp_chars(a: Seq<char>, b: Seq<char>) -> Cmp
    decreases a.len(),
{
    if a.len() == 0 && b.len() == 0 {
        Cmp::Eq
    } else if a.len() == 0 {
        Cmp::Lt
    } else if b.len() == 0 {
        Cmp::Gt
    } else if (a[0] as u32) < (b[0] as u32) {
        Cmp::Lt
    } else if (b[0] as u32) < (a[0] as u32) {
        Cmp::Gt
    } else {
        cmp_chars(a.drop_first(), b.drop_first())
    }
}

/// Lexicographic three-way comparison of two chord lists.
pub open spec fn cmp_chord_lists(a: Seq<Seq<char>>, b: Seq<Seq<char>>) -> Cmp
    decreases a.len(),
{
    if a.len() == 0 && b.len() == 0 {
        Cmp::Eq
    } else if a.len() == 0 {
        Cmp::Lt
    } else if b.len() == 0 {
        Cmp::Gt
    } else {
        match cmp_chars(a[0], b[0]) {
            Cmp::Lt => Cmp::Lt,
            Cmp::Gt => Cmp::Gt,
            Cmp::Eq => cmp_chord_lists(a.drop_first(), b.drop_first()),
        }
    }
}

/// The order the catalog is sorted by: tonic first, then the chord list.
pub open spec fn key_le(a: KeyV, b: KeyV) -> bool {
    match cmp_chars(a.tonic, b.tonic) {
        Cmp::Lt => true,
        Cmp::Gt => false,
        Cmp::Eq => !(cmp_chord_lists(a.chords, b.chords) is Gt),
    }
}

/// Inserts `x` into an already sorted sequence, before the first element it
/// compares less-or-equal to.
pub open spec fn insert_sorted(x: KeyV, s: Seq<KeyV>) -> Seq<KeyV>
    decreases s.len(),
{
    if s.len() == 0 {
        seq![x]
    } else if key_le(x, s[0]) {
        seq![x] + s
    } else {
        seq![s[0]] + insert_sorted(x, s.drop_first())
    }
}

/// Insertion sort by [`key_le`].
pub open spec fn sort_keys(s: Seq<KeyV>) -> Seq<KeyV>
    decreases s.len(),
{
    if s.len() == 0 {
        Seq::empty()
    } else {
        insert_sorted(s.last(), sort_keys(s.drop_last()))
    }
}

/// The tail of deduplication: `prev` is the tonic of the last retained key;
/// keys sharing it are dropped, every other key is retained and becomes the
/// new reference.
pub open spec fn dedup_from(s: Seq<KeyV>, prev: Seq<char>) -> Seq<KeyV>
    decreases s.len(),
{
    if s.len() == 0 {
        Seq::empty()
    } else if s[0].tonic == prev {
        dedup_from(s.drop_first(), prev)
    } else {
        seq![s[0]] + dedup_from(s.drop_first(), s[0].tonic)
    }
}

/// Removes all but the first of each run of keys sharing a tonic.
pub open spec fn dedup_keys(s: Seq<KeyV>) -> Seq<KeyV> {
    if s.len() == 0 {
        Seq::empty()
    } else {
        seq![s[0]] + dedup_from(s.drop_first(), s[0].tonic)
    }
}

/// The full catalog: candidates sorted by (tonic, chord list), then
/// de-duplicated by tonic, keeping the first of each run.
pub open spec fn built_catalog() -> Seq<KeyV> {
    dedup_keys(sort_keys(candidate_keys()))
}

/// The views of a sequence of keys.
pub open spec fn keys_view(s: Seq<Key>) -> Seq<KeyV> {
    s.map_values(|k: Key| k@)
}

// ---------------------------------------------------------------------------
// The Key type
// ---------------------------------------------------------------------------

/// A musical key: a tonic such as `"C"`, `"F#"` or `"Bbm"` (a trailing `m`
/// marks a minor key) and the seven diatonic triads built on its scale
/// degrees, in degree order.
#[derive(Debug, Clone, PartialEq, Eq)]
pub struct Key {
    pub tonic: String,
    pub chords: Vec<String>,
}

impl View for Key {
    type V = KeyV;

    open spec fn view(&self) -> KeyV {
        KeyV { tonic: self.tonic@, chords: self.chords.deep_view() }
    }
}

impl Key {
    /// Packs a tonic and a chord list into a key.
    pub fn new(tonic: String, chords: Vec<String>) -> (r: Self)
        ensures
            r@.tonic == tonic@,
            r@.chords == chords.deep_view(),
    {
        Self { tonic, chords }
    }
}

// ---------------------------------------------------------------------------
// Executable helpers
// ---------------------------------------------------------------------------

/// Character-by-character string equality.
pub(crate) fn str_eq(a: &str, b: &str) -> (r: bool)
    ensures
        r == (a@ == b@),
{
    let alen = a.unicode_len();
    let blen = b.unicode_len();
    if alen != blen {
        return false;
    }
    let mut i: usize = 0;
    while i < alen
        invariant
            i <= alen,
            alen == a@.len(),
            alen == b@.len(),
            forall|k: int| 0 <= k < i ==> a@[k] == b@[k],
        decreases alen - i,
    {
        if a.get_char(i) != b.get_char(i) {
            return false;
        }
        i += 1;
    }
    proof {
        assert(a@ =~= b@);
    }
    true
}

/// The major tonic-table entry at chromatic index `idx`; the table repeats
/// after twelve entries so that a scale walk can run past the octave.
fn major_tonic_at(has_sharps: bool, idx: usize) -> (r: &'static str)
    requires
        idx < 24,
    ensures
        r@ == major_tonics(has_sharps)[idx as int % 12],
{
    let k = idx % 12;
    if has_sharps {
        match k {
            0 => { proof { reveal_strlit("C"); assert("C"@ =~= seq!['C']); } "C" },
            1 => { proof { reveal_strlit("C#"); assert("C#"@ =~= seq!['C', '#']); } "C#" },
            2 => { proof { reveal_strlit("D"); assert("D"@ =~= seq!['D']); } "D" },
            3 => { proof { reveal_strlit("D#"); assert("D#"@ =~= seq!['D', '#']); } "D#" },
            4 => { proof { reveal_strlit("E"); assert("E"@ =~= seq!['E']); } "E" },
            5 => { proof { reveal_strlit("F"); assert("F"@ =~= seq!['F']); } "F" },
            6 => { proof { reveal_strlit("F#"); assert("F#"@ =~= seq!['F', '#']); } "F#" },
            7 => { proof { reveal_strlit("G"); assert("G"@ =~= seq!['G']); } "G" },
            8 => { proof { reveal_strlit("G#"); assert("G#"@ =~= seq!['G', '#']); } "G#" },
            9 => { proof { reveal_strlit("A"); assert("A"@ =~= seq!['A']); } "A" },
            10 => { proof { reveal_strlit("A#"); assert("A#"@ =~= seq!['A', '#']); } "A#" },
            _ => { proof { reveal_strlit("B"); assert("B"@ =~= seq!['B']); } "B" },
        }
    } else {
        match k {
            0 => { proof { reveal_strlit("C"); assert("C"@ =~= seq!['C']); } "C" },
            1 => { proof { reveal_strlit("Db"); assert("Db"@ =~= seq!['D', 'b']); } "Db" },
            2 => { proof { reveal_strlit("D"); assert("D"@ =~= seq!['D']); } "D" },
            3 => { proof { reveal_strlit("Eb"); assert("Eb"@ =~= seq!['E', 'b']); } "Eb" },
            4 => { proof { reveal_strlit("Fb"); assert("Fb"@ =~= seq!['F', 'b']); } "Fb" },
            5 => { proof { reveal_strlit("F"); assert("F"@ =~= seq!['F']); } "F" },
            6 => { proof { reveal_strlit("Gb"); assert("Gb"@ =~= seq!['G', 'b']); } "Gb" },
            7 => { proof { reveal_strlit("G"); assert("G"@ =~= seq!['G']); } "G" },
            8 => { proof { reveal_strlit("Ab"); assert("Ab"@ =~= seq!['A', 'b']); } "Ab" },
            9 => { proof { reveal_strlit("A"); assert("A"@ =~= seq!['A']); } "A" },
            10 => { proof { reveal_strlit("Bb"); assert("Bb"@ =~= seq!['B', 'b']); } "Bb" },
            _ => { proof { reveal_strlit("Cb"); assert("Cb"@ =~= seq!['C', 'b']); } "Cb" },
        }
    }
}

/// The natural-minor tonic-table entry at chromatic index `idx`.
fn minor_tonic_at(has_sharps: bool, idx: usize) -> (r: &'static str)
    requires
        idx < 24,
    ensures
        r@ == minor_tonics(has_sharps)[idx as int % 12],
{
    let k = idx % 12;
    if has_sharps {
        match k {
            0 => { proof { reveal_strlit("Cm"); assert("Cm"@ =~= seq!['C', 'm']); } "Cm" },
            1 => { proof { reveal_strlit("C#m"); assert("C#m"@ =~= seq!['C', '#', 'm']); } "C#m" },
            2 => { proof { reveal_strlit("Dm"); assert("Dm"@ =~= seq!['D', 'm']); } "Dm" },
            3 => { proof { reveal_strlit("D#m"); assert("D#m"@ =~= seq!['D', '#', 'm']); } "D#m" },
            4 => { proof { reveal_strlit("Em"); assert("Em"@ =~= seq!['E', 'm']); } "Em" },
            5 => { proof { reveal_strlit("Fm"); assert("Fm"@ =~= seq!['F', 'm']); } "Fm" },
            6 => { proof { reveal_strlit("F#m"); assert("F#m"@ =~= seq!['F', '#', 'm']); } "F#m" },
            7 => { proof { reveal_strlit("Gm"); assert("Gm"@ =~= seq!['G', 'm']); } "Gm" },
            8 => { proof { reveal_strlit("G#m"); assert("G#m"@ =~= seq!['G', '#', 'm']); } "G#m" },
            9 => { proof { reveal_strlit("Am"); assert("Am"@ =~= seq!['A', 'm']); } "Am" },
            10 => { proof { reveal_strlit("A#m"); assert("A#m"@ =~= seq!['A', '#', 'm']); } "A#m" },
            _ => { proof { reveal_strlit("Bm"); assert("Bm"@ =~= seq!['B', 'm']); } "Bm" },
        }
    } else {
        match k {
            0 => { proof { reveal_strlit("Cm"); assert("Cm"@ =~= seq!['C', 'm']); } "Cm" },
            1 => { proof { reveal_strlit("Dbm"); assert("Dbm"@ =~= seq!['D', 'b', 'm']); } "Dbm" },
            2 => { proof { reveal_strlit("Dm"); assert("Dm"@ =~= seq!['D', 'm']); } "Dm" },
            3 => { proof { reveal_strlit("Ebm"); assert("Ebm"@ =~= seq!['E', 'b', 'm']); } "Ebm" },
            4 => { proof { reveal_strlit("Em"); assert("Em"@ =~= seq!['E', 'm']); } "Em" },
            5 => { proof { reveal_strlit("Fm"); assert("Fm"@ =~= seq!['F', 'm']); } "Fm" },
            6 => { proof { reveal_strlit("Gbm"); assert("Gbm"@ =~= seq!['G', 'b', 'm']); } "Gbm" },
            7 => { proof { reveal_strlit("Gm"); assert("Gm"@ =~= seq!['G', 'm']); } "Gm" },
            8 => { proof { reveal_strlit("Abm"); assert("Abm"@ =~= seq!['A', 'b', 'm']); } "Abm" },
            9 => { proof { reveal_strlit("Am"); assert("Am"@ =~= seq!['A', 'm']); } "Am" },
            10 => { proof { reveal_strlit("Bbm"); assert("Bbm"@ =~= seq!['B', 'b', 'm']); } "Bbm" },
            _ => { proof { reveal_strlit("Bm"); assert("Bm"@ =~= seq!['B', 'm']); } "Bm" },
        }
    }
}

/// The major step pattern, degree by degree.
fn major_interval_at(j: usize) -> (r: usize)
    requires
        j < 7,
    ensures
        r as int == major_intervals()[j as int],
{
    match j {
        0 => 2,
        1 => 2,
        2 => 1,
        3 => 2,
        4 => 2,
        5 => 2,
        _ => 1,
    }
}

/// The natural-minor step pattern, degree by degree.
fn minor_interval_at(j: usize) -> (r: usize)
    requires
        j < 7,
    ensures
        r as int == minor_intervals()[j as int],
{
    match j {
        0 => 2,
        1 => 1,
        2 => 2,
        3 => 2,
        4 => 1,
        5 => 2,
        _ => 1,
    }
}

/// Sum of the major steps on degrees `j..7`.
pub open spec fn major_rest_sum(j: int) -> int
    decreases 7 - j,
{
    if j < 0 || j >= 7 {
        0
    } else {
        major_intervals()[j] + major_rest_sum(j + 1)
    }
}

/// Sum of the natural-minor steps on degrees `j..7`.
pub open spec fn minor_rest_sum(j: int) -> int
    decreases 7 - j,
{
    if j < 0 || j >= 7 {
        0
    } else {
        minor_intervals()[j] + minor_rest_sum(j + 1)
    }
}

proof fn lemma_major_rest_sum_nonneg(j: int)
    ensures
        0 <= major_rest_sum(j),
    decreases 7 - j,
{
    if 0 <= j < 7 {
        lemma_major_rest_sum_nonneg(j + 1);
    }
}

proof fn lemma_minor_rest_sum_nonneg(j: int)
    ensures
        0 <= minor_rest_sum(j),
    decreases 7 - j,
{
    if 0 <= j < 7 {
        lemma_minor_rest_sum_nonneg(j + 1);
    }
}

proof fn lemma_major_rest_sum_total()
    ensures
        major_rest_sum(0) == 12,
{
    assert(major_rest_sum(7) == 0);
    assert(major_rest_sum(6) == 1);
    assert(major_rest_sum(5) == 3);
    assert(major_rest_sum(4) == 5);
    assert(major_rest_sum(3) == 7);
    assert(major_rest_sum(2) == 8);
    assert(major_rest_sum(1) == 10);
    assert(major_rest_sum(0) == 12);
}

proof fn lemma_minor_rest_sum_total()
    ensures
        minor_rest_sum(0) == 11,
{
    assert(minor_rest_sum(7) == 0);
    assert(minor_rest_sum(6) == 1);
    assert(minor_rest_sum(5) == 3);
    assert(minor_rest_sum(4) == 4);
    assert(minor_rest_sum(3) == 6);
    assert(minor_rest_sum(2) == 8);
    assert(minor_rest_sum(1) == 9);
    assert(minor_rest_sum(0) == 11);
}

/// Whether this tonic's key signature is not conventionally used: such keys
/// carry uncommon chords with double flats and sharps, and are filtered out.
fn is_not_on_the_circle_of_fifths(chord: &str, is_major: bool) -> (r: bool)
    ensures
        r == spec_rejected(chord@, is_major),
{
    proof {
        reveal_strlit("D#");
        reveal_strlit("E#");
        reveal_strlit("Fb");
        reveal_strlit("G#");
        reveal_strlit("A#");
        reveal_strlit("B#");
        reveal_strlit("Dbm");
        reveal_strlit("E#m");
        reveal_strlit("Fbm");
        reveal_strlit("Gbm");
        reveal_strlit("B#m");
        reveal_strlit("Cbm");
        assert("D#"@ =~= seq!['D', '#']);
        assert("E#"@ =~= seq!['E', '#']);
        assert("Fb"@ =~= seq!['F', 'b']);
        assert("G#"@ =~= seq!['G', '#']);
        assert("A#"@ =~= seq!['A', '#']);
        assert("B#"@ =~= seq!['B', '#']);
        assert("Dbm"@ =~= seq!['D', 'b', 'm']);
        assert("E#m"@ =~= seq!['E', '#', 'm']);
        assert("Fbm"@ =~= seq!['F', 'b', 'm']);
        assert("Gbm"@ =~= seq!['G', 'b', 'm']);
        assert("B#m"@ =~= seq!['B', '#', 'm']);
        assert("Cbm"@ =~= seq!['C', 'b', 'm']);
    }
    if is_major {
        str_eq(chord, "D#") || str_eq(chord, "E#") || str_eq(chord, "Fb") || str_eq(chord, "G#")
            || str_eq(chord, "A#") || str_eq(chord, "B#")
    } else {
        str_eq(chord, "Dbm") || str_eq(chord, "E#m") || str_eq(chord, "Fbm") || str_eq(
            chord,
            "Gbm",
        ) || str_eq(chord, "B#m") || str_eq(chord, "Cbm")
    }
}

/// Generates the twelve candidate major keys of one spelling pass, skipping
/// tonics off the circle of fifths, and appends them to `keys`.
fn generate_major_keys(keys: &mut Vec<Key>, has_sharps: bool)
    ensures
        keys_view(final(keys)@) == keys_view(old(keys)@) + gen_major_from(has_sharps, 0),
{
    let mut i: usize = 0;
    while i < 12
        invariant
            i <= 12,
            keys_view(keys@) + gen_major_from(has_sharps, i as int) =~= keys_view(old(keys)@)
                + gen_major_from(has_sharps, 0),
        decreases 12 - i,
    {
        let tonic = major_tonic_at(has_sharps, i);
        if is_not_on_the_circle_of_fifths(tonic, true) {
            proof {
                assert(gen_major_from(has_sharps, i as int) == gen_major_from(
                    has_sharps,
                    i as int + 1,
                ));
            }
        } else {
            let mut scale: Vec<String> = Vec::new();
            let mut idx: usize = i;
            let mut j: usize = 0;
            proof {
                lemma_major_rest_sum_total();
            }
            while j < 7
                invariant
                    j <= 7,
                    i < 12,
                    idx as int + major_rest_sum(j as int) == i as int + 12,
                    major_scale_from(has_sharps, i as int, 0) =~= scale.deep_view()
                        + major_scale_from(has_sharps, idx as int, j as int),
                decreases 7 - j,
            {
                proof {
                    lemma_major_rest_sum_nonneg(j as int);
                    lemma_major_rest_sum_nonneg(j as int + 1);
                }
                let name = major_tonic_at(has_sharps, idx);
                let mut chord = name.to_owned();
                if j == 1 || j == 2 || j == 5 || j == 6 {
                    chord.append("m");
                    proof {
                        reveal_strlit("m");
                        assert(chord@ =~= major_tonics(has_sharps)[idx as int % 12].push('m'));
                    }
                }
                proof {
                    assert(chord@ =~= major_chord(has_sharps, idx as int, j as int));
                }
                let ghost old_scale = scale.deep_view();
                scale.push(chord);
                proof {
                    assert(scale.deep_view() =~= old_scale.push(chord@));
                    assert(old_scale.push(chord@) + major_scale_from(
                        has_sharps,
                        idx as int + major_intervals()[j as int],
                        j as int + 1,
                    ) =~= old_scale + major_scale_from(has_sharps, idx as int, j as int));
                }
                idx += major_interval_at(j);
                j += 1;
            }
            let key = Key::new(tonic.to_owned(), scale);
            let ghost old_views = keys_view(keys@);
            keys.push(key);
            proof {
                assert(key@ =~= major_key_at(has_sharps, i as int));
                assert(keys_view(keys@) =~= old_views.push(key@));
                assert(old_views.push(key@) + gen_major_from(has_sharps, i as int + 1)
                    =~= old_views + gen_major_from(has_sharps, i as int));
            }
        }
        i += 1;
    }
}

/// Generates the twelve candidate natural-minor keys of one spelling pass.
fn generate_minor_keys(keys: &mut Vec<Key>, has_sharps: bool)
    ensures
        keys_view(final(keys)@) == keys_view(old(keys)@) + gen_minor_from(has_sharps, 0),
{
    let mut i: usize = 0;
    while i < 12
        invariant
            i <= 12,
            keys_view(keys@) + gen_minor_from(has_sharps, i as int) =~= keys_view(old(keys)@)
                + gen_minor_from(has_sharps, 0),
        decreases 12 - i,
    {
        let tonic = minor_tonic_at(has_sharps, i);
        if is_not_on_the_circle_of_fifths(tonic, false) {
            proof {
                assert(gen_minor_from(has_sharps, i as int) == gen_minor_from(
                    has_sharps,
                    i as int + 1,
                ));
            }
        } else {
            let mut scale: Vec<String> = Vec::new();
            let mut idx: usize = i;
            let mut j: usize = 0;
            proof {
                lemma_minor_rest_sum_total();
            }
            while j < 7
                invariant
                    j <= 7,
                    i < 12,
                    idx as int + minor_rest_sum(j as int) == i as int + 11,
                    minor_scale_from(has_sharps, i as int, 0) =~= scale.deep_view()
                        + minor_scale_from(has_sharps, idx as int, j as int),
                decreases 7 - j,
            {
                proof {
                    lemma_minor_rest_sum_nonneg(j as int);
                    lemma_minor_rest_sum_nonneg(j as int + 1);
                }
                let name = minor_tonic_at(has_sharps, idx);
                let chord: String;
                if j == 2 || j == 5 || j == 6 {
                    let n = name.unicode_len();
                    let base = name.substring_char(0, n - 1);
                    chord = base.to_owned();
                    proof {
                        assert(chord@ =~= minor_tonics(has_sharps)[idx as int % 12].drop_last());
                    }
                } else {
                    chord = name.to_owned();
                }
                proof {
                    assert(chord@ =~= minor_chord(has_sharps, idx as int, j as int));
                }
                let ghost old_scale = scale.deep_view();
                scale.push(chord);
                proof {
                    assert(scale.deep_view() =~= old_scale.push(chord@));
                    assert(old_scale.push(chord@) + minor_scale_from(
                        has_sharps,
                        idx as int + minor_intervals()[j as int],
                        j as int + 1,
                    ) =~= old_scale + minor_scale_from(has_sharps, idx as int, j as int));
                }
                idx += minor_interval_at(j);
                j += 1;
            }
            let key = Key::new(tonic.to_owned(), scale);
            let ghost old_views = keys_view(keys@);
            keys.push(key);
            proof {
                assert(key@ =~= minor_key_at(has_sharps, i as int));
                assert(keys_view(keys@) =~= old_views.push(key@));
                assert(old_views.push(key@) + gen_minor_from(has_sharps, i as int + 1)
                    =~= old_views + gen_minor_from(has_sharps, i as int));
            }
        }
        i += 1;
    }
}

/// Maps a three-way comparison code to its [`Cmp`] value.
pub open spec fn cmp_of(r: i8) -> Cmp {
    if r < 0 {
        Cmp::Lt
    } else if r == 0 {
        Cmp::Eq
    } else {
        Cmp::Gt
    }
}

/// Three-way string comparison, by code point.
fn cmp_str(a: &str, b: &str) -> (r: i8)
    ensures
        cmp_of(r) == cmp_chars(a@, b@),
{
    let alen = a.unicode_len();
    let blen = b.unicode_len();
    let mut i: usize = 0;
    proof {
        assert(a@.skip(0) =~= a@);
        assert(b@.skip(0) =~= b@);
    }
    while i < alen && i < blen
        invariant
            i <= alen,
            i <= blen,
            alen == a@.len(),
            blen == b@.len(),
            cmp_chars(a@, b@) == cmp_chars(a@.skip(i as int), b@.skip(i as int)),
        decreases alen - i,
    {
        let ca = a.get_char(i);
        let cb = b.get_char(i);
        if (ca as u32) < (cb as u32) {
            return -1;
        }
        if (cb as u32) < (ca as u32) {
            return 1;
        }
        proof {
            assert(a@.skip(i as int).drop_first() =~= a@.skip(i as int + 1));
            assert(b@.skip(i as int).drop_first() =~= b@.skip(i as int + 1));
        }
        i += 1;
    }
    if alen < blen {
        -1
    } else if blen < alen {
        1
    } else {
        0
    }
}

/// Three-way chord-list comparison: lexicographic over string comparison.
fn cmp_chord_vecs(a: &Vec<String>, b: &Vec<String>) -> (r: i8)
    ensures
        cmp_of(r) == cmp_chord_lists(a.deep_view(), b.deep_view()),
{
    let mut i: usize = 0;
    proof {
        assert(a.deep_view().skip(0) =~= a.deep_view());
        assert(b.deep_view().skip(0) =~= b.deep_view());
    }
    while i < a.len() && i < b.len()
        invariant
            i <= a@.len(),
            i <= b@.len(),
            cmp_chord_lists(a.deep_view(), b.deep_view()) == cmp_chord_lists(
                a.deep_view().skip(i as int),
                b.deep_view().skip(i as int),
            ),
        decreases a@.len() - i,
    {
        let c = cmp_str(a[i].as_str(), b[i].as_str());
        proof {
            assert(a.deep_view().skip(i as int)[0] == a@[i as int]@);
            assert(b.deep_view().skip(i as int)[0] == b@[i as int]@);
        }
        if c != 0 {
            return c;
        }
        proof {
            assert(a.deep_view().skip(i as int).drop_first() =~= a.deep_view().skip(i as int + 1));
            assert(b.deep_view().skip(i as int).drop_first() =~= b.deep_view().skip(i as int + 1));
        }
        i += 1;
    }
    if a.len() < b.len() {
        -1
    } else if b.len() < a.len() {
        1
    } else {
        0
    }
}

/// Whether `a` sorts no later than `b`: tonic first, then chord list.
fn key_le_exec(a: &Key, b: &Key) -> (r: bool)
    ensures
        r == key_le(a@, b@),
{
    let c = cmp_str(a.tonic.as_str(), b.tonic.as_str());
    if c < 0 {
        true
    } else if c > 0 {
        false
    } else {
        cmp_chord_vecs(&a.chords, &b.chords) <= 0
    }
}

/// Inserting before the first element `x` compares less-or-equal to is what
/// [`insert_sorted`] computes.
proof fn lemma_insert_sorted_at(x: KeyV, s: Seq<KeyV>, j: int)
    requires
        0 <= j <= s.len(),
        forall|k: int| 0 <= k < j ==> !key_le(x, s[k]),
        j == s.len() || key_le(x, s[j]),
    ensures
        insert_sorted(x, s) == s.take(j) + seq![x] + s.skip(j),
    decreases j,
{
    if j == 0 {
        if s.len() == 0 {
            assert(insert_sorted(x, s) =~= s.take(0) + seq![x] + s.skip(0));
        } else {
            assert(insert_sorted(x, s) =~= s.take(0) + seq![x] + s.skip(0));
        }
    } else {
        let rest = s.drop_first();
        assert(forall|k: int| 0 <= k < j - 1 ==> !key_le(x, rest[k]));
        lemma_insert_sorted_at(x, rest, j - 1);
        assert(seq![s[0]] + (rest.take(j - 1) + seq![x] + rest.skip(j - 1)) =~= s.take(j)
            + seq![x] + s.skip(j));
    }
}

/// Inserts `x` into the sorted vector, keeping it sorted as [`insert_sorted`]
/// describes.
fn insert_key_sorted(out: &mut Vec<Key>, x: Key)
    ensures
        keys_view(final(out)@) == insert_sorted(x@, keys_view(old(out)@)),
{
    let mut j: usize = 0;
    while j < out.len() && !key_le_exec(&x, &out[j])
        invariant
            j <= out@.len(),
            out@ == old(out)@,
            forall|k: int| 0 <= k < j ==> !key_le(x@, keys_view(out@)[k]),
        decreases out@.len() - j,
    {
        j += 1;
    }
    proof {
        lemma_insert_sorted_at(x@, keys_view(out@), j as int);
    }
    let ghost old_views = keys_view(out@);
    out.insert(j, x);
    proof {
        assert(keys_view(out@) =~= old_views.take(j as int) + seq![x@] + old_views.skip(j as int));
    }
}

/// Sorts the keys by (tonic, chord list) and removes all but the first of
/// each run of keys sharing a tonic.
fn remove_duplicate_keys(keys: &mut Vec<Key>)
    ensures
        keys_view(final(keys)@) == dedup_keys(sort_keys(keys_view(old(keys)@))),
{
    let ghost orig = keys_view(old(keys)@);
    let mut sorted_keys: Vec<Key> = Vec::new();
    while keys.len() > 0
        invariant
            keys@.len() <= orig.len(),
            keys_view(keys@) == orig.skip(orig.len() - keys@.len()),
            keys_view(sorted_keys@) == sort_keys(orig.take(orig.len() - keys@.len())),
        decreases keys@.len(),
    {
        let ghost m = orig.len() - keys@.len();
        let ghost before = keys@;
        let x = keys.remove(0);
        proof {
            assert(keys_view(before)[0] == before[0]@);
            assert(x@ == orig[m]);
            assert(keys@ =~= before.skip(1));
            assert forall|k: int| 0 <= k < keys@.len() implies keys_view(keys@)[k] == orig.skip(
                m + 1,
            )[k] by {
                assert(keys_view(before)[k + 1] == before[k + 1]@);
            }
            assert(keys_view(keys@) =~= orig.skip(m + 1));
            assert(orig.take(m + 1).drop_last() =~= orig.take(m));
            assert(orig.take(m + 1).last() == orig[m]);
        }
        insert_key_sorted(&mut sorted_keys, x);
        proof {
            assert(keys_view(sorted_keys@) == sort_keys(orig.take(m + 1)));
        }
    }
    proof {
        assert(orig.take(orig.len() as int) =~= orig);
    }
    let ghost sortedv = sort_keys(orig);
    let mut result: Vec<Key> = Vec::new();
    while sorted_keys.len() > 0
        invariant
            sorted_keys@.len() <= sortedv.len(),
            keys_view(sorted_keys@) == sortedv.skip(sortedv.len() - sorted_keys@.len()),
            result@.len() == 0 ==> sorted_keys@.len() == sortedv.len(),
            result@.len() > 0 ==> dedup_keys(sortedv) == keys_view(result@) + dedup_from(
                keys_view(sorted_keys@),
                keys_view(result@).last().tonic,
            ),
        decreases sorted_keys@.len(),
    {
        let ghost m = sortedv.len() - sorted_keys@.len();
        let ghost before_keys = sorted_keys@;
        let ghost before = keys_view(before_keys);
        let x = sorted_keys.remove(0);
        proof {
            assert(before[0] == before_keys[0]@);
            assert(x@ == before[0]);
            assert(x@ == sortedv[m]);
            assert forall|k: int| 0 <= k < sorted_keys@.len() implies keys_view(sorted_keys@)[k]
                == sortedv.skip(m + 1)[k] by {
                assert(sorted_keys@[k]@ == before[k + 1]);
                assert(before[k + 1] == sortedv.skip(m)[k + 1]);
            }
            assert(keys_view(sorted_keys@) =~= sortedv.skip(m + 1));
            assert(before =~= seq![x@] + keys_view(sorted_keys@));
        }
        if result.len() == 0 {
            result.push(x);
            proof {
                assert(keys_view(result@) =~= seq![sortedv[0]]);
                assert(dedup_keys(sortedv) == seq![sortedv[0]] + dedup_from(
                    sortedv.drop_first(),
                    sortedv[0].tonic,
                ));
                assert(sortedv.drop_first() =~= sortedv.skip(1));
                assert(keys_view(result@).last() == sortedv[0]);
            }
        } else {
            let ghost old_result = keys_view(result@);
            let ghost prev = old_result.last().tonic;
            let rlen = result.len();
            let same = str_eq(result[rlen - 1].tonic.as_str(), x.tonic.as_str());
            proof {
                assert(keys_view(result@)[rlen - 1] == result@[rlen - 1]@);
                assert(old_result.last() == result@[rlen - 1]@);
                assert(same == (x@.tonic == prev));
                assert(dedup_from(before, prev) == if x@.tonic == prev {
                    dedup_from(before.drop_first(), prev)
                } else {
                    seq![x@] + dedup_from(before.drop_first(), x@.tonic)
                });
                assert(before.drop_first() =~= keys_view(sorted_keys@));
            }
            if !same {
                result.push(x);
                proof {
                    assert(keys_view(result@) =~= old_result.push(x@));
                    assert(keys_view(result@).last() == x@);
                    assert(old_result.push(x@) + dedup_from(keys_view(sorted_keys@), x@.tonic)
                        =~= old_result + (seq![x@] + dedup_from(
                        keys_view(sorted_keys@),
                        x@.tonic,
                    )));
                }
            }
        }
    }
    proof {
        if sortedv.len() == 0 {
            assert(keys_view(result@) =~= dedup_keys(sortedv));
        } else {
            assert(keys_view(result@) + dedup_from(
                keys_view(sorted_keys@),
                keys_view(result@).last().tonic,
            ) =~= keys_view(result@));
        }
    }
    *keys = result;
}

/// Builds the full key catalog: four generation passes, then sorting and
/// de-duplication by tonic, appended after whatever `keys` already held.
pub fn init(keys: &mut Vec<Key>)
    ensures
        keys_view(final(keys)@) == dedup_keys(
            sort_keys(keys_view(old(keys)@) + candidate_keys()),
        ),
{
    generate_major_keys(keys, true);
    generate_major_keys(keys, false);
    generate_minor_keys(keys, true);
    generate_minor_keys(keys, false);
    proof {
        assert(keys_view(keys@) =~= keys_view(old(keys)@) + candidate_keys());
    }
    remove_duplicate_keys(keys);
}

// ---------------------------------------------------------------------------
// Catalog laws
// ---------------------------------------------------------------------------

/// Starting from an empty vector, [`init`] yields exactly [`built_catalog`].
pub proof fn lemma_init_from_empty()
    ensures
        dedup_keys(sort_keys(Seq::<KeyV>::empty() + candidate_keys())) == built_catalog(),
{
    assert(Seq::<KeyV>::empty() + candidate_keys() =~= candidate_keys());
}

/// Catalog construction is deterministic: it takes no input, so any two
/// builds from an empty start produce the same ordered result.
pub proof fn law_catalog_deterministic(a: Seq<KeyV>, b: Seq<KeyV>)
    requires
        a == built_catalog(),
        b == built_catalog(),
    ensures
        a == b,
{
}

proof fn lemma_head_concat_contains(x: KeyV, rest: Seq<KeyV>, e: KeyV)
    requires
        (seq![x] + rest).contains(e),
    ensures
        e == x || rest.contains(e),
{
    let i = choose|i: int| 0 <= i < (seq![x] + rest).len() && (seq![x] + rest)[i] == e;
    if i > 0 {
        assert(rest[i - 1] == e);
    }
}

proof fn lemma_drop_first_contains(s: Seq<KeyV>, e: KeyV)
    requires
        s.len() > 0,
        s.drop_first().contains(e),
    ensures
        s.contains(e),
{
    let i = choose|i: int| 0 <= i < s.drop_first().len() && s.drop_first()[i] == e;
    assert(s[i + 1] == e);
}

proof fn lemma_insert_sorted_contains(x: KeyV, s: Seq<KeyV>, e: KeyV)
    requires
        insert_sorted(x, s).contains(e),
    ensures
        e == x || s.contains(e),
    decreases s.len(),
{
    if s.len() == 0 {
        assert(seq![x][0] == x);
    } else if key_le(x, s[0]) {
        let i = choose|i: int|
            0 <= i < (seq![x] + s).len() && (seq![x] + s)[i] == e;
        if i > 0 {
            assert(s[i - 1] == e);
        }
    } else {
        lemma_head_concat_contains(s[0], insert_sorted(x, s.drop_first()), e);
        if e != s[0] {
            if insert_sorted(x, s.drop_first()).contains(e) {
                lemma_insert_sorted_contains(x, s.drop_first(), e);
                if s.drop_first().contains(e) {
                    lemma_drop_first_contains(s, e);
                }
            }
        } else {
            assert(s.contains(e)) by {
                assert(s[0] == e);
            }
        }
    }
}

proof fn lemma_sort_keys_contains(s: Seq<KeyV>, e: KeyV)
    requires
        sort_keys(s).contains(e),
    ensures
        s.contains(e),
    decreases s.len(),
{
    if s.len() > 0 {
        lemma_insert_sorted_contains(s.last(), sort_keys(s.drop_last()), e);
        if e == s.last() {
            assert(s[s.len() - 1] == e);
        } else {
            lemma_sort_keys_contains(s.drop_last(), e);
            let i = choose|i: int|
                0 <= i < s.drop_last().len() && s.drop_last()[i] == e;
            assert(s[i] == e);
        }
    }
}

proof fn lemma_dedup_from_contains(s: Seq<KeyV>, prev: Seq<char>, e: KeyV)
    requires
        dedup_from(s, prev).contains(e),
    ensures
        s.contains(e),
    decreases s.len(),
{
    if s.len() > 0 {
        if s[0].tonic == prev {
            lemma_dedup_from_contains(s.drop_first(), prev, e);
            lemma_drop_first_contains(s, e);
        } else {
            lemma_head_concat_contains(s[0], dedup_from(s.drop_first(), s[0].tonic), e);
            if e == s[0] {
                assert(s.contains(e)) by {
                    assert(s[0] == e);
                }
            } else {
                lemma_dedup_from_contains(s.drop_first(), s[0].tonic, e);
                lemma_drop_first_contains(s, e);
            }
        }
    }
}

proof fn lemma_dedup_keys_contains(s: Seq<KeyV>, e: KeyV)
    requires
        dedup_keys(s).contains(e),
    ensures
        s.contains(e),
{
    if s.len() > 0 {
        lemma_head_concat_contains(s[0], dedup_from(s.drop_first(), s[0].tonic), e);
        if e == s[0] {
            assert(s.contains(e)) by {
                assert(s[0] == e);
            }
        } else {
            lemma_dedup_from_contains(s.drop_first(), s[0].tonic, e);
            lemma_drop_first_contains(s, e);
        }
    }
}

proof fn lemma_major_scale_len(has_sharps: bool, idx: int, j: int)
    requires
        0 <= j <= 7,
    ensures
        major_scale_from(has_sharps, idx, j).len() == 7 - j,
    decreases 7 - j,
{
    if j < 7 {
        lemma_major_scale_len(has_sharps, idx + major_intervals()[j], j + 1);
    }
}

proof fn lemma_minor_scale_len(has_sharps: bool, idx: int, j: int)
    requires
        0 <= j <= 7,
    ensures
        minor_scale_from(has_sharps, idx, j).len() == 7 - j,
    decreases 7 - j,
{
    if j < 7 {
        lemma_minor_scale_len(has_sharps, idx + minor_intervals()[j], j + 1);
    }
}

proof fn lemma_major_tonic_shape(has_sharps: bool, k: int)
    requires
        0 <= k < 12,
    ensures
        1 <= major_tonics(has_sharps)[k].len() <= 2,
        major_tonics(has_sharps)[k].last() != 'm',
{
    if k == 0 {
    } else if k == 1 {
    } else if k == 2 {
    } else if k == 3 {
    } else if k == 4 {
    } else if k == 5 {
    } else if k == 6 {
    } else if k == 7 {
    } else if k == 8 {
    } else if k == 9 {
    } else if k == 10 {
    } else {
        assert(k == 11);
    }
}

proof fn lemma_minor_tonic_shape(has_sharps: bool, k: int)
    requires
        0 <= k < 12,
    ensures
        2 <= minor_tonics(has_sharps)[k].len() <= 3,
        minor_tonics(has_sharps)[k].last() == 'm',
{
    if k == 0 {
    } else if k == 1 {
    } else if k == 2 {
    } else if k == 3 {
    } else if k == 4 {
    } else if k == 5 {
    } else if k == 6 {
    } else if k == 7 {
    } else if k == 8 {
    } else if k == 9 {
    } else if k == 10 {
    } else {
        assert(k == 11);
    }
}

proof fn lemma_gen_major_elems(has_sharps: bool, i: int, e: KeyV)
    requires
        gen_major_from(has_sharps, i).contains(e),
    ensures
        e.chords.len() == 7,
        !rejected_major(e.tonic),
        !rejected_minor(e.tonic),
    decreases 12 - i,
{
    if 0 <= i < 12 {
        if rejected_major(major_tonics(has_sharps)[i % 12]) {
            lemma_gen_major_elems(has_sharps, i + 1, e);
        } else {
            lemma_head_concat_contains(major_key_at(has_sharps, i), gen_major_from(
                has_sharps,
                i + 1,
            ), e);
            if e == major_key_at(has_sharps, i) {
                lemma_major_scale_len(has_sharps, i, 0);
                lemma_major_tonic_shape(has_sharps, i % 12);
            } else {
                lemma_gen_major_elems(has_sharps, i + 1, e);
            }
        }
    }
}

proof fn lemma_gen_minor_elems(has_sharps: bool, i: int, e: KeyV)
    requires
        gen_minor_from(has_sharps, i).contains(e),
    ensures
        e.chords.len() == 7,
        !rejected_major(e.tonic),
        !rejected_minor(e.tonic),
    decreases 12 - i,
{
    if 0 <= i < 12 {
        if rejected_minor(minor_tonics(has_sharps)[i % 12]) {
            lemma_gen_minor_elems(has_sharps, i + 1, e);
        } else {
            lemma_head_concat_contains(minor_key_at(has_sharps, i), gen_minor_from(
                has_sharps,
                i + 1,
            ), e);
            if e == minor_key_at(has_sharps, i) {
                lemma_minor_scale_len(has_sharps, i, 0);
                lemma_minor_tonic_shape(has_sharps, i % 12);
            } else {
                lemma_gen_minor_elems(has_sharps, i + 1, e);
            }
        }
    }
}

proof fn lemma_candidate_elems(e: KeyV)
    requires
        candidate_keys().contains(e),
    ensures
        e.chords.len() == 7,
        !rejected_major(e.tonic),
        !rejected_minor(e.tonic),
{
    let a = gen_major_from(true, 0);
    let b = gen_major_from(false, 0);
    let c = gen_minor_from(true, 0);
    let d = gen_minor_from(false, 0);
    let i = choose|i: int| 0 <= i < candidate_keys().len() && candidate_keys()[i] == e;
    if i < a.len() {
        assert(a[i] == e);
        lemma_gen_major_elems(true, 0, e);
    } else if i < a.len() + b.len() {
        assert(b[i - a.len()] == e);
        lemma_gen_major_elems(false, 0, e);
    } else if i < a.len() + b.len() + c.len() {
        assert(c[i - a.len() - b.len()] == e);
        lemma_gen_minor_elems(true, 0, e);
    } else {
        assert(d[i - a.len() - b.len() - c.len()] == e);
        lemma_gen_minor_elems(false, 0, e);
    }
}

/// Every key of the built catalog has exactly seven chords.
pub proof fn law_catalog_chords_len(e: KeyV)
    requires
        built_catalog().contains(e),
    ensures
        e.chords.len() == 7,
{
    lemma_dedup_keys_contains(sort_keys(candidate_keys()), e);
    lemma_sort_keys_contains(candidate_keys(), e);
    lemma_candidate_elems(e);
}

/// No rejected tonic — neither a major nor a minor one — ever appears in
/// the built catalog.
pub proof fn law_catalog_no_rejected(e: KeyV)
    requires
        built_catalog().contains(e),
    ensures
        !rejected_major(e.tonic),
        !rejected_minor(e.tonic),
{
    lemma_dedup_keys_contains(sort_keys(candidate_keys()), e);
    lemma_sort_keys_contains(candidate_keys(), e);
    lemma_candidate_elems(e);
}

} // verus!
