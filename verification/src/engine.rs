//! The elimination engine: the per-letter filtering rules applied to the
//! candidate set, and the decision step of the guess/prune loop.

use vstd::prelude::*;
use vstd::string::StrSliceExecFns;
use crate::errors::SolveError;
use crate::feedback::{Word, Character, Color, spec_characters, all_green, green_at, correct_for, is_valid_code};

verus! {

/// True iff the word contains the character `v` anywhere.
pub open spec fn seq_contains_char(w: Seq<char>, v: char) -> bool {
    exists|i: int| 0 <= i < w.len() && w[i] == v
}

/// Whether a candidate word `w` survives the constraint of the guess's
/// letter at position `k`.
///
/// - `Green`: the word must carry the letter's value at that very position.
/// - `Yellow`: the word must contain the value, must not carry it at this
///   position, and the guess must not already pin this position `Green`.
/// - `Red`: a word containing the value survives only if the guess records
///   the same value as `Green` elsewhere (the doubled-letter case);
///   words without the value always survive.
///
/// A word too short for a fixed position is never matched by the positional
/// tests: the position test simply fails for it.
pub open spec fn letter_keeps(cs: Seq<Character>, k: int, w: Seq<char>) -> bool {
    let c = cs[k];
    match c.color {
        Color::Green => c.index < w.len() && w[c.index as int] == c.value,
        Color::Yellow => seq_contains_char(w, c.value)
            && !(c.index < w.len() && w[c.index as int] == c.value)
            && !green_at(cs, c.index as int),
        Color::Red => seq_contains_char(w, c.value) ==> correct_for(cs, c.value),
    }
}

/// Whether a candidate word survives every letter of the guess.
pub open spec fn keeps(cs: Seq<Character>, w: Seq<char>) -> bool {
    forall|k: int| 0 <= k < cs.len() ==> #[trigger] letter_keeps(cs, k, w)
}

/// The candidate words that survive the guess, in their original order.
pub open spec fn filtered(cs: Seq<Character>, words: Seq<String>) -> Seq<String> {
    words.filter(|s: String| keeps(cs, s@))
}

/// True iff the word at position `p` carries the character `v`
/// (false when the word is shorter than `p + 1`).
fn char_at_eq(s: &str, p: usize, v: char) -> (r: bool)
    ensures
        r == (p < s@.len() && s@[p as int] == v),
{
    let n = s.unicode_len();
    if p < n {
        s.get_char(p) == v
    } else {
        false
    }
}

/// True iff the word contains the character `v` anywhere.
fn contains_char(s: &str, v: char) -> (r: bool)
    ensures
        r == seq_contains_char(s@, v),
{
    let n = s.unicode_len();
    let mut i: usize = 0;
    while i < n
        invariant
            n == s@.len(),
            i <= n,
            forall|j: int| 0 <= j < i ==> s@[j] != v,
        decreases n - i,
    {
        if s.get_char(i) == v {
            return true;
        }
        i += 1;
    }
    false
}

/// Whether the candidate word survives the single letter at position `k`
/// of the guess.
fn letter_keep_check(word: &Word, k: usize, s: &str) -> (r: bool)
    requires
        k < 5,
    ensures
        r == letter_keeps(word.characters@, k as int, s@),
{
    let c = word.characters[k];
    match c.color {
        Color::Green => char_at_eq(s, c.index, c.value),
        Color::Yellow => contains_char(s, c.value) && !char_at_eq(s, c.index, c.value)
            && !word.is_green(c.index),
        Color::Red => {
            if contains_char(s, c.value) {
                word.is_before_green(c.value)
            } else {
                true
            }
        },
    }
}

/// Whether the candidate word survives every letter of the guess.
fn word_keeps(word: &Word, s: &String) -> (r: bool)
    ensures
        r == keeps(word.characters@, s@),
{
    let st = s.as_str();
    let mut k: usize = 0;
    while k < 5
        invariant
            k <= 5,
            st@ == s@,
            forall|j: int| 0 <= j < k ==> #[trigger] letter_keeps(word.characters@, j, s@),
        decreases 5 - k,
    {
        if !letter_keep_check(word, k, st) {
            return false;
        }
        k += 1;
    }
    true
}

/// Filtering one guess against the candidate set: exactly the words that
/// survive all five per-letter constraints remain, in their original order.
/// The set never grows.
pub fn remove_items(words: Vec<String>, word: Word) -> (r: Vec<String>)
    ensures
        r@ == filtered(word.characters@, words@),
        r@.len() <= words@.len(),
{
    let mut out: Vec<String> = Vec::new();
    let mut i: usize = 0;
    while i < words.len()
        invariant
            i <= words@.len(),
            out@ == filtered(word.characters@, words@.subrange(0, i as int)),
        decreases words@.len() - i,
    {
        let keep = word_keeps(&word, &words[i]);
        if keep {
            out.push(words[i].clone());
        }
        proof {
            assert(words@.subrange(0, i + 1 as int) =~= words@.subrange(0, i as int).push(
                words@[i as int],
            ));
            lemma_filtered_push(word.characters@, words@.subrange(0, i as int), words@[i as int]);
        }
        i += 1;
    }
    proof {
        assert(words@.subrange(0, words@.len() as int) =~= words@);
        lemma_monotonic_shrink(word.characters@, words@);
    }
    out
}

/// How one more word changes the filtered result: it is appended exactly
/// when it survives the guess.
proof fn lemma_filtered_push(cs: Seq<Character>, pre: Seq<String>, x: String)
    ensures
        filtered(cs, pre.push(x)) == (if keeps(cs, x@) {
            filtered(cs, pre).push(x)
        } else {
            filtered(cs, pre)
        }),
{
    let pred = |s: String| keeps(cs, s@);
    let single = seq![x];
    assert(pre.push(x) =~= pre + single);
    Seq::<String>::filter_distributes_over_add(pre, single, pred);
    reveal_with_fuel(Seq::<String>::filter, 2);
    assert(single.drop_last() =~= Seq::<String>::empty());
    assert(single.filter(pred) == (if pred(x) {
        Seq::<String>::empty().push(x)
    } else {
        Seq::<String>::empty()
    }));
    if keeps(cs, x@) {
        assert(pre.filter(pred) + Seq::<String>::empty().push(x) =~= pre.filter(pred).push(x));
    } else {
        assert(pre.filter(pred) + Seq::<String>::empty() =~= pre.filter(pred));
    }
}

/// Monotonic shrink: filtering a candidate set by a guess never makes it
/// longer, whatever the set and the guess.
pub proof fn lemma_monotonic_shrink(cs: Seq<Character>, words: Seq<String>)
    ensures
        filtered(cs, words).len() <= words.len(),
{
    words.lemma_filter_len(|s: String| keeps(cs, s@));
}

/// Every word that survives filtering satisfies every per-letter constraint
/// of the guess.
pub proof fn lemma_survivor_keeps(cs: Seq<Character>, words: Seq<String>, j: int)
    requires
        0 <= j < filtered(cs, words).len(),
    ensures
        keeps(cs, filtered(cs, words)[j]@),
{
    words.lemma_filter_pred(|s: String| keeps(cs, s@), j);
}

/// Correct-subset: every surviving word matches the guess's word at every
/// `Green` position.
pub proof fn lemma_correct_subset(cs: Seq<Character>, words: Seq<String>, j: int, k: int)
    requires
        0 <= j < filtered(cs, words).len(),
        0 <= k < cs.len(),
        cs[k].color == Color::Green,
    ensures
        cs[k].index < filtered(cs, words)[j]@.len(),
        filtered(cs, words)[j]@[cs[k].index as int] == cs[k].value,
{
    lemma_survivor_keeps(cs, words, j);
    assert(letter_keeps(cs, k, filtered(cs, words)[j]@));
}

/// Present exclusion: no surviving word carries a `Yellow` letter's value at
/// that letter's own position.
pub proof fn lemma_present_exclusion(cs: Seq<Character>, words: Seq<String>, j: int, k: int)
    requires
        0 <= j < filtered(cs, words).len(),
        0 <= k < cs.len(),
        cs[k].color == Color::Yellow,
    ensures
        cs[k].index < filtered(cs, words)[j]@.len() ==> filtered(cs, words)[j]@[cs[k].index as int]
            != cs[k].value,
{
    lemma_survivor_keeps(cs, words, j);
    assert(letter_keeps(cs, k, filtered(cs, words)[j]@));
}

/// Absent exclusion: when a letter is `Red` and no letter of the same value
/// is `Green` anywhere in the guess, no surviving word contains that value.
pub proof fn lemma_absent_exclusion(cs: Seq<Character>, words: Seq<String>, j: int, k: int)
    requires
        0 <= j < filtered(cs, words).len(),
        0 <= k < cs.len(),
        cs[k].color == Color::Red,
        !correct_for(cs, cs[k].value),
    ensures
        !seq_contains_char(filtered(cs, words)[j]@, cs[k].value),
{
    lemma_survivor_keeps(cs, words, j);
    assert(letter_keeps(cs, k, filtered(cs, words)[j]@));
}

/// What one guess/prune step decided: either the guess came back fully
/// correct and is the solved word, or the reduced candidate set to go on
/// with.
#[derive(Debug)]
pub enum SolveOutcome {
    /// The guess was classified `Green` at every position: terminal success.
    Solved(String),
    /// The guess was not fully correct; these candidates survive it.
    Continue(Vec<String>),
}

/// One decision step of the guess/prune loop, after the oracle has answered:
/// build the feedback model for the guessed word from the raw codes, report
/// the solved word when the feedback is fully `Green`, and otherwise reduce
/// the candidate set by filtering.
///
/// Fails with `MalformedFeedback` exactly when the word and the codes do not
/// both have length five with every code recognized.
pub fn solve(words: Vec<String>, guess: &str, codes: &Vec<char>) -> (r: Result<
    SolveOutcome,
    SolveError,
>)
    ensures
        r is Ok <==> (guess@.len() == 5 && codes@.len() == 5 && (forall|i: int|
            0 <= i < 5 ==> is_valid_code(#[trigger] codes@[i]))),
        r is Err ==> r->Err_0 == SolveError::MalformedFeedback,
        r matches Ok(o) ==> (o is Solved <==> all_green(spec_characters(guess@, codes@))),
        r matches Ok(SolveOutcome::Solved(w)) ==> w@ == guess@,
        r matches Ok(SolveOutcome::Continue(ws)) ==> ws@ == filtered(
            spec_characters(guess@, codes@),
            words@,
        ),
{
    let word = match Word::new(guess, codes) {
        Ok(w) => w,
        Err(e) => {
            return Err(e);
        },
    };
    if word.is_solve() {
        Ok(SolveOutcome::Solved(guess.to_owned()))
    } else {
        Ok(SolveOutcome::Continue(remove_items(words, word)))
    }
}

/// Relies on rand::random_range: a draw from the range `0..n` lies within
/// it; the range is non-empty, so the call cannot panic.
#[verifier::external_body]
fn random_index(n: usize) -> (r: usize)
    requires
        n > 0,
    ensures
        r < n,
{
    rand::random_range(0..n)
}

/// Select the next guess from the candidate set, uniformly at random.
/// Fails with `ExhaustedCandidates` exactly when the set is empty.
pub fn choose_rand_world(words: &Vec<String>) -> (r: Result<String, SolveError>)
    ensures
        r is Ok <==> words@.len() > 0,
        r is Ok ==> words@.contains(r->Ok_0),
        r is Err ==> r->Err_0 == SolveError::ExhaustedCandidates,
{
    if words.len() == 0 {
        Err(SolveError::ExhaustedCandidates)
    } else {
        let i = random_index(words.len());
        let s = words[i].clone();
        proof {
            assert(words@.contains(s)) by {
                assert(words@[i as int] == s);
            }
        }
        Ok(s)
    }
}

} // verus!
