//! Progression matching: normalizing free-text chord progressions and
//! filtering the catalog to the keys that contain every input chord.

use crate::keys::str_eq;
use crate::keys::Key;
use vstd::prelude::*;

verus! {

/// The two ways a lookup can fail: the input held no chords at all, or no
/// cataloged key contains every input chord.
#[derive(Debug)]
pub enum KeyError {
    EmptyInputError,
    NotFound,
}

/// Whether the chord `c` occurs in the chord list, by exact string equality.
pub open spec fn chord_in_list(chords: Seq<Seq<char>>, c: Seq<char>) -> bool {
    exists|i: int| 0 <= i < chords.len() && chords[i] == c
}

/// Whether a key's chord list contains every chord of `user`: the subset
/// test a key must pass to match a progression.
pub open spec fn covers(user: Seq<Seq<char>>, chords: Seq<Seq<char>>) -> bool {
    forall|i: int| 0 <= i < user.len() ==> chord_in_list(chords, user[i])
}

/// The keys whose chord lists cover the user's chords, in catalog order.
pub open spec fn matching_keys(user: Seq<Seq<char>>, keys: Seq<Key>) -> Seq<Key> {
    keys.filter(|k: Key| covers(user, k@.chords))
}

/// Whether `c` occurs in the list, by exact string equality.
fn contains_str(list: &[String], c: &String) -> (r: bool)
    ensures
        r == chord_in_list(list.deep_view(), c@),
{
    let mut j: usize = 0;
    while j < list.len()
        invariant
            j <= list@.len(),
            forall|k: int| 0 <= k < j ==> list.deep_view()[k] != c@,
        decreases list@.len() - j,
    {
        let hit = str_eq(list[j].as_str(), c.as_str());
        proof {
            assert(list.deep_view()[j as int] == list@[j as int]@);
        }
        if hit {
            return true;
        }
        j += 1;
    }
    false
}

/// Whether every chord of `chords` occurs in `chords_in_key`.
pub fn is_chord_in_key(chords: &Vec<String>, chords_in_key: &[String]) -> (r: bool)
    ensures
        r == covers(chords.deep_view(), chords_in_key.deep_view()),
{
    let mut i: usize = 0;
    while i < chords.len()
        invariant
            i <= chords@.len(),
            forall|k: int|
                0 <= k < i ==> chord_in_list(chords_in_key.deep_view(), chords.deep_view()[k]),
        decreases chords@.len() - i,
    {
        let present = contains_str(chords_in_key, &chords[i]);
        proof {
            assert(chords.deep_view()[i as int] == chords@[i as int]@);
        }
        if !present {
            proof {
                assert(!chord_in_list(chords_in_key.deep_view(), chords.deep_view()[i as int]));
            }
            return false;
        }
        i += 1;
    }
    true
}

/// Filters the catalog to the keys containing every user chord.
///
/// Fails with `EmptyInputError` on an empty chord list (no catalog scan is
/// made) and with `NotFound` when no key covers the chords; otherwise the
/// matching keys are returned in catalog order.
pub fn find_keys(user_chords: &Vec<String>, key_data: Vec<Key>) -> (r: Result<Vec<Key>, KeyError>)
    ensures
        match r {
            Ok(found) => {
                &&& user_chords@.len() > 0
                &&& found@ == matching_keys(user_chords.deep_view(), key_data@)
                &&& found@.len() > 0
            },
            Err(KeyError::EmptyInputError) => user_chords@.len() == 0,
            Err(KeyError::NotFound) => {
                &&& user_chords@.len() > 0
                &&& matching_keys(user_chords.deep_view(), key_data@).len() == 0
            },
        },
{
    let ghost user = user_chords.deep_view();
    let ghost orig = key_data@;
    let mut keys_result: Vec<Key> = Vec::new();

    if user_chords.is_empty() {
        return Err(KeyError::EmptyInputError);
    }

    let mut remaining = key_data;
    proof {
        assert(orig.take(0) =~= Seq::<Key>::empty());
        assert(matching_keys(user, orig.take(0)) =~= Seq::<Key>::empty()) by {
            reveal(Seq::filter);
        }
    }
    while remaining.len() > 0
        invariant
            user == user_chords.deep_view(),
            remaining@.len() <= orig.len(),
            remaining@ == orig.skip(orig.len() - remaining@.len()),
            keys_result@ == matching_keys(user, orig.take(orig.len() - remaining@.len())),
        decreases remaining@.len(),
    {
        let ghost m = orig.len() - remaining@.len();
        let current_key = remaining.remove(0);
        proof {
            assert(current_key == orig[m]);
            assert(remaining@ =~= orig.skip(m + 1));
        }
        let chords_slice = current_key.chords.as_slice();
        let is_in_key = is_chord_in_key(user_chords, chords_slice);
        proof {
            assert(chords_slice.deep_view() =~= current_key@.chords);
            let t = orig.take(m);
            assert(orig.take(m + 1).drop_last() =~= t);
            assert(orig.take(m + 1).last() == orig[m]);
            reveal(Seq::filter);
            assert(matching_keys(user, orig.take(m + 1)) == if covers(user, orig[m]@.chords) {
                matching_keys(user, t).push(orig[m])
            } else {
                matching_keys(user, t)
            });
        }
        if is_in_key {
            let ghost old_result = keys_result@;
            keys_result.push(current_key);
            proof {
                assert(keys_result@ =~= old_result.push(orig[m]));
            }
        }
    }
    proof {
        assert(orig.take(orig.len() as int) =~= orig);
    }

    if keys_result.is_empty() {
        return Err(KeyError::NotFound);
    }

    Ok(keys_result)
}

// ---------------------------------------------------------------------------
// Normalization: free text to bare chord symbols
// ---------------------------------------------------------------------------

/// The Unicode white-space characters, the set `str::split_whitespace`
/// splits on.
pub open spec fn is_space(c: char) -> bool {
    ||| c == '\u{0009}'
    ||| c == '\u{000A}'
    ||| c == '\u{000B}'
    ||| c == '\u{000C}'
    ||| c == '\u{000D}'
    ||| c == ' '
    ||| c == '\u{0085}'
    ||| c == '\u{00A0}'
    ||| c == '\u{1680}'
    ||| c == '\u{2000}'
    ||| c == '\u{2001}'
    ||| c == '\u{2002}'
    ||| c == '\u{2003}'
    ||| c == '\u{2004}'
    ||| c == '\u{2005}'
    ||| c == '\u{2006}'
    ||| c == '\u{2007}'
    ||| c == '\u{2008}'
    ||| c == '\u{2009}'
    ||| c == '\u{200A}'
    ||| c == '\u{2028}'
    ||| c == '\u{2029}'
    ||| c == '\u{202F}'
    ||| c == '\u{205F}'
    ||| c == '\u{3000}'
}

/// Splitting on white-space runs, with the token collected so far in `cur`:
/// a space ends the current token (if any), any other character extends it.
pub open spec fn split_acc(s: Seq<char>, cur: Seq<char>) -> Seq<Seq<char>>
    decreases s.len(),
{
    if s.len() == 0 {
        if cur.len() == 0 {
            Seq::empty()
        } else {
            seq![cur]
        }
    } else if is_space(s[0]) {
        if cur.len() == 0 {
            split_acc(s.drop_first(), cur)
        } else {
            seq![cur] + split_acc(s.drop_first(), Seq::empty())
        }
    } else {
        split_acc(s.drop_first(), cur.push(s[0]))
    }
}

/// The white-space-separated tokens of `s`, in order.
pub open spec fn split_ws(s: Seq<char>) -> Seq<Seq<char>> {
    split_acc(s, Seq::empty())
}

/// Replaces every occurrence of `pat` in `s` by `rep`, leftmost first and
/// without rescanning the replacement, as `str::replace` does.
pub open spec fn replace_all(s: Seq<char>, pat: Seq<char>, rep: Seq<char>) -> Seq<char>
    decreases s.len(),
{
    if pat.len() == 0 || s.len() < pat.len() {
        s
    } else if s.take(pat.len() as int) == pat {
        rep + replace_all(s.skip(pat.len() as int), pat, rep)
    } else {
        seq![s[0]] + replace_all(s.drop_first(), pat, rep)
    }
}

/// Reduces one token to a bare triad symbol: quality markers are removed,
/// compound markers first so their letters are not misread, and a dash is
/// turned into the minor marker.
pub open spec fn normalize_token(t: Seq<char>) -> Seq<char> {
    let t1 = replace_all(t, seq!['m', 'a', 'j', '7'], Seq::empty());
    let t2 = replace_all(t1, seq!['\u{0394}'], Seq::empty());
    let t3 = replace_all(t2, seq!['7'], Seq::empty());
    let t4 = replace_all(t3, seq!['d', 'o', 'm'], Seq::empty());
    let t5 = replace_all(t4, seq!['d', 'i', 'm'], Seq::empty());
    let t6 = replace_all(t5, seq!['o'], Seq::empty());
    let t7 = replace_all(t6, seq!['\u{00F8}'], Seq::empty());
    let t8 = replace_all(t7, seq!['a', 'u', 'g'], Seq::empty());
    let t9 = replace_all(t8, seq!['+'], Seq::empty());
    let t10 = replace_all(t9, seq!['6'], Seq::empty());
    let t11 = replace_all(t10, seq!['9'], Seq::empty());
    let t12 = replace_all(t11, seq!['1', '3'], Seq::empty());
    replace_all(t12, seq!['-'], seq!['m'])
}

/// Normalizes each token of a token list.
pub open spec fn map_normalize(ts: Seq<Seq<char>>) -> Seq<Seq<char>> {
    ts.map_values(|t: Seq<char>| normalize_token(t))
}

/// What [`get_user_chords`] returns: the white-space-separated tokens of the
/// input, each reduced to a bare chord symbol.
pub open spec fn user_chords_of(s: Seq<char>) -> Seq<Seq<char>> {
    map_normalize(split_ws(s))
}

proof fn lemma_map_normalize_push(ts: Seq<Seq<char>>, t: Seq<char>)
    ensures
        map_normalize(ts.push(t)) == map_normalize(ts).push(normalize_token(t)),
{
    assert(map_normalize(ts.push(t)) =~= map_normalize(ts).push(normalize_token(t)));
}

/// Whether `c` is Unicode white space.
fn is_space_char(c: char) -> (r: bool)
    ensures
        r == is_space(c),
{
    c == '\u{0009}' || c == '\u{000A}' || c == '\u{000B}' || c == '\u{000C}' || c == '\u{000D}'
        || c == ' ' || c == '\u{0085}' || c == '\u{00A0}' || c == '\u{1680}' || c == '\u{2000}'
        || c == '\u{2001}' || c == '\u{2002}' || c == '\u{2003}' || c == '\u{2004}'
        || c == '\u{2005}' || c == '\u{2006}' || c == '\u{2007}' || c == '\u{2008}'
        || c == '\u{2009}' || c == '\u{200A}' || c == '\u{2028}' || c == '\u{2029}'
        || c == '\u{202F}' || c == '\u{205F}' || c == '\u{3000}'
}

/// The characters of a string, in order.
fn str_to_chars(s: &str) -> (r: Vec<char>)
    ensures
        r@ == s@,
{
    let n = s.unicode_len();
    let mut out: Vec<char> = Vec::new();
    let mut i: usize = 0;
    while i < n
        invariant
            i <= n,
            n == s@.len(),
            out@ == s@.take(i as int),
        decreases n - i,
    {
        let c = s.get_char(i);
        out.push(c);
        proof {
            assert(out@ =~= s@.take(i as int + 1));
        }
        i += 1;
    }
    proof {
        assert(s@.take(n as int) =~= s@);
    }
    out
}

/// Relies on std's `String::push`: appends the given character to the end of
/// the string.
#[verifier::external_body]
fn push_char(s: &mut String, c: char)
    ensures
        final(s)@ == old(s)@.push(c),
{
    s.push(c);
}

/// Packs a character vector back into a string.
fn chars_to_string(v: &Vec<char>) -> (r: String)
    ensures
        r@ == v@,
{
    let mut out = String::new();
    let mut i: usize = 0;
    while i < v.len()
        invariant
            i <= v@.len(),
            out@ == v@.take(i as int),
        decreases v@.len() - i,
    {
        push_char(&mut out, v[i]);
        proof {
            assert(out@ =~= v@.take(i as int + 1));
        }
        i += 1;
    }
    proof {
        assert(v@.take(v@.len() as int) =~= v@);
    }
    out
}

/// Whether `pat` occurs in `t` starting at position `i`.
fn match_at(t: &Vec<char>, i: usize, pat: &Vec<char>) -> (r: bool)
    requires
        i + pat@.len() <= t@.len(),
    ensures
        r == (t@.subrange(i as int, i as int + pat@.len() as int) == pat@),
{
    let tlen = t.len();
    let mut k: usize = 0;
    while k < pat.len()
        invariant
            k <= pat@.len(),
            tlen == t@.len(),
            i + pat@.len() <= t@.len(),
            forall|q: int| 0 <= q < k ==> t@[i + q] == pat@[q],
        decreases pat@.len() - k,
    {
        if t[i + k] != pat[k] {
            proof {
                assert(t@.subrange(i as int, i as int + pat@.len() as int)[k as int] != pat@[
                    k as int
                ]);
            }
            return false;
        }
        k += 1;
    }
    proof {
        assert(t@.subrange(i as int, i as int + pat@.len() as int) =~= pat@);
    }
    true
}

/// Replaces every occurrence of `pat` in `t` by `rep`, leftmost first.
fn replace_chars(t: &Vec<char>, pat: &Vec<char>, rep: &Vec<char>) -> (r: Vec<char>)
    requires
        pat@.len() > 0,
    ensures
        r@ == replace_all(t@, pat@, rep@),
{
    let mut out: Vec<char> = Vec::new();
    let mut i: usize = 0;
    proof {
        assert(t@.skip(0) =~= t@);
    }
    while i < t.len()
        invariant
            i <= t@.len(),
            pat@.len() > 0,
            replace_all(t@, pat@, rep@) == out@ + replace_all(t@.skip(i as int), pat@, rep@),
        decreases t@.len() - i,
    {
        let mut matched = false;
        if pat.len() <= t.len() - i {
            matched = match_at(t, i, pat);
        }
        if matched {
            proof {
                assert(t@.skip(i as int).take(pat@.len() as int) =~= t@.subrange(
                    i as int,
                    i as int + pat@.len() as int,
                ));
                assert(t@.skip(i as int).skip(pat@.len() as int) =~= t@.skip(
                    i as int + pat@.len() as int,
                ));
            }
            let ghost out_before = out@;
            let mut k: usize = 0;
            while k < rep.len()
                invariant
                    k <= rep@.len(),
                    out@ == out_before + rep@.take(k as int),
                decreases rep@.len() - k,
            {
                out.push(rep[k]);
                proof {
                    assert(out@ =~= out_before + rep@.take(k as int + 1));
                }
                k += 1;
            }
            proof {
                assert(rep@.take(rep@.len() as int) =~= rep@);
                assert((out_before + rep@) + replace_all(
                    t@.skip(i as int + pat@.len() as int),
                    pat@,
                    rep@,
                ) =~= out_before + (rep@ + replace_all(
                    t@.skip(i as int + pat@.len() as int),
                    pat@,
                    rep@,
                )));
            }
            i += pat.len();
        } else {
            proof {
                if pat@.len() <= t@.len() - i {
                    assert(t@.skip(i as int).take(pat@.len() as int) =~= t@.subrange(
                        i as int,
                        i as int + pat@.len() as int,
                    ));
                }
                assert(t@.skip(i as int).drop_first() =~= t@.skip(i as int + 1));
                assert(t@.skip(i as int)[0] == t@[i as int]);
            }
            let ghost out_before = out@;
            out.push(t[i]);
            proof {
                assert(out@ =~= out_before + seq![t@[i as int]]);
                assert((out_before + seq![t@[i as int]]) + replace_all(
                    t@.skip(i as int + 1),
                    pat@,
                    rep@,
                ) =~= out_before + (seq![t@[i as int]] + replace_all(
                    t@.skip(i as int + 1),
                    pat@,
                    rep@,
                )));
            }
            i += 1;
        }
    }
    proof {
        assert(t@.skip(t@.len() as int) =~= Seq::<char>::empty());
    }
    out
}

/// One replacement pass with string patterns.
fn replace_str(t: &Vec<char>, pat: &str, rep: &str) -> (r: Vec<char>)
    requires
        pat@.len() > 0,
    ensures
        r@ == replace_all(t@, pat@, rep@),
{
    let p = str_to_chars(pat);
    let q = str_to_chars(rep);
    replace_chars(t, &p, &q)
}

/// Reduces one token to a bare triad symbol, as [`normalize_token`] says.
fn normalize_token_chars(t: &Vec<char>) -> (r: Vec<char>)
    ensures
        r@ == normalize_token(t@),
{
    proof {
        reveal_strlit("maj7");
        reveal_strlit("\u{0394}");
        reveal_strlit("7");
        reveal_strlit("dom");
        reveal_strlit("dim");
        reveal_strlit("o");
        reveal_strlit("\u{00F8}");
        reveal_strlit("aug");
        reveal_strlit("+");
        reveal_strlit("6");
        reveal_strlit("9");
        reveal_strlit("13");
        reveal_strlit("-");
        reveal_strlit("m");
        reveal_strlit("");
        assert("maj7"@ =~= seq!['m', 'a', 'j', '7']);
        assert("\u{0394}"@ =~= seq!['\u{0394}']);
        assert("7"@ =~= seq!['7']);
        assert("dom"@ =~= seq!['d', 'o', 'm']);
        assert("dim"@ =~= seq!['d', 'i', 'm']);
        assert("o"@ =~= seq!['o']);
        assert("\u{00F8}"@ =~= seq!['\u{00F8}']);
        assert("aug"@ =~= seq!['a', 'u', 'g']);
        assert("+"@ =~= seq!['+']);
        assert("6"@ =~= seq!['6']);
        assert("9"@ =~= seq!['9']);
        assert("13"@ =~= seq!['1', '3']);
        assert("-"@ =~= seq!['-']);
        assert("m"@ =~= seq!['m']);
        assert(""@ =~= Seq::<char>::empty());
    }
    let t1 = replace_str(t, "maj7", "");
    let t2 = replace_str(&t1, "\u{0394}", "");
    let t3 = replace_str(&t2, "7", "");
    let t4 = replace_str(&t3, "dom", "");
    let t5 = replace_str(&t4, "dim", "");
    let t6 = replace_str(&t5, "o", "");
    let t7 = replace_str(&t6, "\u{00F8}", "");
    let t8 = replace_str(&t7, "aug", "");
    let t9 = replace_str(&t8, "+", "");
    let t10 = replace_str(&t9, "6", "");
    let t11 = replace_str(&t10, "9", "");
    let t12 = replace_str(&t11, "13", "");
    replace_str(&t12, "-", "m")
}

/// Splits free text on white space and reduces each token to a bare chord
/// symbol (major or minor), preserving token order.
///
/// For example `"Cmaj7 Dm F G7"` yields `["C", "Dm", "F", "G"]`, and
/// `"C-7"` yields `["Cm"]`.
pub fn get_user_chords(user_input: &str) -> (r: Vec<String>)
    ensures
        r.deep_view() == user_chords_of(user_input@),
{
    let ghost s = user_input@;
    let n = user_input.unicode_len();
    let mut out: Vec<String> = Vec::new();
    let mut cur: Vec<char> = Vec::new();
    let ghost mut done = Seq::<Seq<char>>::empty();
    let mut i: usize = 0;
    proof {
        assert(s.skip(0) =~= s);
        assert(out.deep_view() =~= map_normalize(done));
    }
    while i < n
        invariant
            i <= n,
            n == s.len(),
            s == user_input@,
            split_ws(s) == done + split_acc(s.skip(i as int), cur@),
            out.deep_view() == map_normalize(done),
        decreases n - i,
    {
        let c = user_input.get_char(i);
        proof {
            assert(s.skip(i as int)[0] == s[i as int]);
            assert(s.skip(i as int).drop_first() =~= s.skip(i as int + 1));
        }
        if is_space_char(c) {
            if cur.len() > 0 {
                let ghost token = cur@;
                let norm = normalize_token_chars(&cur);
                let text = chars_to_string(&norm);
                let ghost out_before = out.deep_view();
                out.push(text);
                cur.clear();
                proof {
                    assert(out.deep_view() =~= out_before.push(normalize_token(token)));
                    lemma_map_normalize_push(done, token);
                    done = done.push(token);
                    assert(done + split_acc(s.skip(i as int + 1), Seq::empty())
                        =~= (done.drop_last() + (seq![token] + split_acc(
                        s.skip(i as int + 1),
                        Seq::empty(),
                    ))));
                }
            }
        } else {
            let ghost cur_before = cur@;
            cur.push(c);
            proof {
                assert(cur@ =~= cur_before.push(s[i as int]));
            }
        }
        i += 1;
    }
    proof {
        assert(s.skip(n as int) =~= Seq::<char>::empty());
    }
    if cur.len() > 0 {
        let ghost token = cur@;
        let norm = normalize_token_chars(&cur);
        let text = chars_to_string(&norm);
        let ghost out_before = out.deep_view();
        out.push(text);
        proof {
            assert(out.deep_view() =~= out_before.push(normalize_token(token)));
            lemma_map_normalize_push(done, token);
            done = done.push(token);
        }
    }
    out
}

// ---------------------------------------------------------------------------
// Matcher laws
// ---------------------------------------------------------------------------

/// Subset law: every key the lookup returns covers the whole input chord
/// set — the input chords form a subset of the key's chord list.
pub proof fn law_matches_cover(user: Seq<Seq<char>>, keys: Seq<Key>, k: Key)
    requires
        matching_keys(user, keys).contains(k),
    ensures
        covers(user, k@.chords),
{
    let found = matching_keys(user, keys);
    let i = choose|i: int| 0 <= i < found.len() && found[i] == k;
    keys.filter_lemma(|k: Key| covers(user, k@.chords));
}

/// Whether `pat` occurs in `t` starting at position `i`.
pub open spec fn occurs_at(t: Seq<char>, pat: Seq<char>, i: int) -> bool {
    0 <= i && i + pat.len() <= t.len() && t.subrange(i, i + pat.len()) == pat
}

/// Whether `pat` occurs anywhere in `t`.
pub open spec fn contains_pat(t: Seq<char>, pat: Seq<char>) -> bool {
    exists|i: int| occurs_at(t, pat, i)
}

/// A bare token: one carrying none of the quality markers that
/// normalization strips or rewrites.
pub open spec fn token_is_bare(t: Seq<char>) -> bool {
    &&& forall|i: int|
        0 <= i < t.len() ==> !(t[i] == '7' || t[i] == '\u{0394}' || t[i] == 'o' || t[i]
            == '\u{00F8}' || t[i] == '+' || t[i] == '6' || t[i] == '9' || t[i] == '-')
    &&& !contains_pat(t, seq!['d', 'i', 'm'])
    &&& !contains_pat(t, seq!['a', 'u', 'g'])
    &&& !contains_pat(t, seq!['1', '3'])
}

proof fn lemma_replace_absent(s: Seq<char>, pat: Seq<char>, rep: Seq<char>)
    requires
        pat.len() > 0,
        !contains_pat(s, pat),
    ensures
        replace_all(s, pat, rep) == s,
    decreases s.len(),
{
    if s.len() < pat.len() {
    } else if s.take(pat.len() as int) == pat {
        assert(s.subrange(0, pat.len() as int) == s.take(pat.len() as int));
        assert(occurs_at(s, pat, 0));
    } else {
        assert(!contains_pat(s.drop_first(), pat)) by {
            if contains_pat(s.drop_first(), pat) {
                let i = choose|i: int| occurs_at(s.drop_first(), pat, i);
                assert(s.drop_first().subrange(i, i + pat.len()) =~= s.subrange(
                    i + 1,
                    i + 1 + pat.len(),
                ));
                assert(occurs_at(s, pat, i + 1));
            }
        }
        lemma_replace_absent(s.drop_first(), pat, rep);
        assert(seq![s[0]] + s.drop_first() =~= s);
    }
}

proof fn lemma_char_free_no_pat(s: Seq<char>, pat: Seq<char>, k: int, c: char)
    requires
        0 <= k < pat.len(),
        pat[k] == c,
        forall|i: int| 0 <= i < s.len() ==> s[i] != c,
    ensures
        !contains_pat(s, pat),
{
    if contains_pat(s, pat) {
        let i = choose|i: int| occurs_at(s, pat, i);
        assert(s.subrange(i, i + pat.len())[k] == pat[k]);
        assert(s[i + k] == c);
    }
}

/// A bare token normalizes to itself; in particular, normalization is
/// idempotent on bare tokens — and so on its own output whenever that
/// output is bare, which every well-formed chord symbol is.
pub proof fn law_normalize_bare_token(t: Seq<char>)
    requires
        token_is_bare(t),
    ensures
        normalize_token(t) == t,
        normalize_token(normalize_token(t)) == normalize_token(t),
{
    let empty = Seq::<char>::empty();
    lemma_char_free_no_pat(t, seq!['m', 'a', 'j', '7'], 3, '7');
    lemma_replace_absent(t, seq!['m', 'a', 'j', '7'], empty);
    lemma_char_free_no_pat(t, seq!['\u{0394}'], 0, '\u{0394}');
    lemma_replace_absent(t, seq!['\u{0394}'], empty);
    lemma_char_free_no_pat(t, seq!['7'], 0, '7');
    lemma_replace_absent(t, seq!['7'], empty);
    lemma_char_free_no_pat(t, seq!['d', 'o', 'm'], 1, 'o');
    lemma_replace_absent(t, seq!['d', 'o', 'm'], empty);
    lemma_replace_absent(t, seq!['d', 'i', 'm'], empty);
    lemma_char_free_no_pat(t, seq!['o'], 0, 'o');
    lemma_replace_absent(t, seq!['o'], empty);
    lemma_char_free_no_pat(t, seq!['\u{00F8}'], 0, '\u{00F8}');
    lemma_replace_absent(t, seq!['\u{00F8}'], empty);
    lemma_replace_absent(t, seq!['a', 'u', 'g'], empty);
    lemma_char_free_no_pat(t, seq!['+'], 0, '+');
    lemma_replace_absent(t, seq!['+'], empty);
    lemma_char_free_no_pat(t, seq!['6'], 0, '6');
    lemma_replace_absent(t, seq!['6'], empty);
    lemma_char_free_no_pat(t, seq!['9'], 0, '9');
    lemma_replace_absent(t, seq!['9'], empty);
    lemma_replace_absent(t, seq!['1', '3'], empty);
    lemma_char_free_no_pat(t, seq!['-'], 0, '-');
    lemma_replace_absent(t, seq!['-'], seq!['m']);
}

} // verus!
