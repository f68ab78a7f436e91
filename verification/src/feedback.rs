//! The feedback model: one evaluated guess and its per-letter
//! classifications, as reported by the oracle.

use vstd::prelude::*;
use vstd::string::StrSliceExecFns;
use crate::errors::SolveError;

verus! {

/// Per-letter feedback classification.
#[derive(Debug, Clone, Copy, PartialEq, Eq, Structural)]
pub enum Color {
    /// The letter is not in the secret word (or its occurrences are all
    /// accounted for elsewhere in the guess).
    Red,
    /// The letter is in the secret word, but at a different position.
    Yellow,
    /// The letter is in the secret word at exactly this position.
    Green,
}

/// True of the three feedback codes the oracle may answer with.
pub open spec fn is_valid_code(c: char) -> bool {
    c == 'r' || c == 'g' || c == 'y'
}

/// The classification a valid feedback code stands for.
pub open spec fn color_of_code(c: char) -> Color {
    if c == 'g' {
        Color::Green
    } else if c == 'y' {
        Color::Yellow
    } else {
        Color::Red
    }
}

impl Color {
    /// Decode one feedback code: `'r'`, `'y'` or `'g'`; anything else is
    /// malformed feedback.
    pub fn try_from(value: char) -> (r: Result<Color, SolveError>)
        ensures
            r is Ok <==> is_valid_code(value),
            r is Ok ==> r->Ok_0 == color_of_code(value),
            r is Err ==> r->Err_0 == SolveError::MalformedFeedback,
    {
        match value {
            'r' => Ok(Color::Red),
            'g' => Ok(Color::Green),
            'y' => Ok(Color::Yellow),
            _ => Err(SolveError::MalformedFeedback),
        }
    }
}

/// One position of a guessed word: its index, its character, and the
/// classification the oracle gave it.
#[derive(Debug, Clone, Copy, PartialEq, Eq, Structural)]
pub struct Character {
    pub index: usize,
    pub color: Color,
    pub value: char,
}

/// The character a well-formed guess carries at position `i`, as determined
/// by the guessed word and the oracle's feedback codes: index `i`, the
/// word's `i`-th letter, and the classification its code stands for.
pub open spec fn spec_character_at(word: Seq<char>, codes: Seq<char>, i: int) -> Character {
    Character { index: i as usize, color: color_of_code(codes[i]), value: word[i] }
}

/// The five characters a well-formed guess consists of, one per position.
pub open spec fn spec_characters(word: Seq<char>, codes: Seq<char>) -> Seq<Character> {
    Seq::new(5, |i: int| spec_character_at(word, codes, i))
}

/// True iff every character of the guess was classified `Green`:
/// the guess is the secret word.
pub open spec fn all_green(cs: Seq<Character>) -> bool {
    forall|i: int| 0 <= i < cs.len() ==> (#[trigger] cs[i]).color == Color::Green
}

/// True iff some character of the guess is `Green` and sits at position `p`.
pub open spec fn green_at(cs: Seq<Character>, p: int) -> bool {
    exists|i: int| 0 <= i < cs.len() && (#[trigger] cs[i]).color == Color::Green && cs[i].index == p
}

/// True iff some character of the guess has value `v` and was classified
/// `Green`, at any position.
pub open spec fn correct_for(cs: Seq<Character>, v: char) -> bool {
    exists|i: int| 0 <= i < cs.len() && (#[trigger] cs[i]).value == v && cs[i].color == Color::Green
}

/// A guessed word together with its per-letter classifications, aligned
/// positionally: one evaluated guess.
#[derive(Debug)]
pub struct Word {
    pub characters: [Character; 5],
}

impl Word {
    /// Build the feedback model for a guessed word from the oracle's raw
    /// feedback codes. Fails with `MalformedFeedback` unless the word and
    /// the code list both have length five and every code is recognized.
    pub fn new(word: &str, codes: &Vec<char>) -> (r: Result<Word, SolveError>)
        ensures
            r is Ok <==> (word@.len() == 5 && codes@.len() == 5
                && forall|i: int| 0 <= i < 5 ==> is_valid_code(#[trigger] codes@[i])),
            r is Ok ==> r->Ok_0.characters@ == spec_characters(word@, codes@),
            r is Err ==> r->Err_0 == SolveError::MalformedFeedback,
    {
        if word.unicode_len() != 5 || codes.len() != 5 {
            return Err(SolveError::MalformedFeedback);
        }
        let mut built: Vec<Character> = Vec::new();
        let mut i: usize = 0;
        while i < 5
            invariant
                word@.len() == 5,
                codes@.len() == 5,
                i <= 5,
                built@.len() == i,
                forall|j: int| 0 <= j < i ==> is_valid_code(#[trigger] codes@[j]),
                forall|j: int| 0 <= j < i ==> #[trigger] built@[j] == (Character {
                    index: j as usize,
                    color: color_of_code(codes@[j]),
                    value: word@[j],
                }),
            decreases 5 - i,
        {
            let color = match Color::try_from(codes[i]) {
                Ok(c) => c,
                Err(e) => {
                    return Err(e);
                },
            };
            built.push(Character { index: i, color, value: word.get_char(i) });
            i += 1;
        }
        let mut characters: [Character; 5] = [built[0]; 5];
        let mut k: usize = 1;
        while k < 5
            invariant
                built@.len() == 5,
                1 <= k <= 5,
                characters@.len() == 5,
                forall|j: int| 0 <= j < k ==> characters@[j] == built@[j],
            decreases 5 - k,
        {
            characters[k] = built[k];
            k += 1;
        }
        let w = Word { characters };
        proof {
            assert(w.characters@ =~= spec_characters(word@, codes@));
        }
        Ok(w)
    }

    /// True iff the whole guess came back `Green`: the loop's termination
    /// predicate.
    pub fn is_solve(&self) -> (r: bool)
        ensures
            r == all_green(self.characters@),
    {
        let mut i: usize = 0;
        while i < 5
            invariant
                i <= 5,
                forall|j: int| 0 <= j < i ==> (#[trigger] self.characters@[j]).color == Color::Green,
            decreases 5 - i,
        {
            if !(self.characters[i].color == Color::Green) {
                return false;
            }
            i += 1;
        }
        true
    }

    /// True iff some letter of this guess is `Green` at the given position.
    pub fn is_green(&self, index: usize) -> (r: bool)
        ensures
            r == green_at(self.characters@, index as int),
    {
        let mut i: usize = 0;
        while i < 5
            invariant
                i <= 5,
                forall|j: int| 0 <= j < i ==> !((#[trigger] self.characters@[j]).color == Color::Green
                    && self.characters@[j].index == index),
            decreases 5 - i,
        {
            let c = self.characters[i];
            if c.color == Color::Green && c.index == index {
                return true;
            }
            i += 1;
        }
        false
    }

    /// True iff some letter of this guess has the given character value and
    /// was classified `Green`, at any position.
    pub fn is_before_green(&self, value: char) -> (r: bool)
        ensures
            r == correct_for(self.characters@, value),
    {
        let mut i: usize = 0;
        while i < 5
            invariant
                i <= 5,
                forall|j: int| 0 <= j < i ==> !((#[trigger] self.characters@[j]).value == value
                    && self.characters@[j].color == Color::Green),
            decreases 5 - i,
        {
            let c = self.characters[i];
            if c.value == value && c.color == Color::Green {
                return true;
            }
            i += 1;
        }
        false
    }
}

/// The oracle's reply to one guess: whether the dictionary rejected the
/// word, and the five per-letter feedback codes, aligned with the guess.
#[derive(Debug, Clone, Copy)]
pub struct VaagoorResponse {
    pub error: bool,
    pub matchs: [char; 5],
}

impl VaagoorResponse {
    /// The five feedback codes as a list, in position order.
    pub fn codes(&self) -> (r: Vec<char>)
        ensures
            r@ == self.matchs@,
    {
        let mut v: Vec<char> = Vec::new();
        let mut i: usize = 0;
        while i < 5
            invariant
                i <= 5,
                v@ == self.matchs@.subrange(0, i as int),
            decreases 5 - i,
        {
            v.push(self.matchs[i]);
            proof {
                assert(self.matchs@.subrange(0, i + 1 as int) =~= self.matchs@.subrange(
                    0,
                    i as int,
                ).push(self.matchs@[i as int]));
            }
            i += 1;
        }
        proof {
            assert(self.matchs@.subrange(0, 5) =~= self.matchs@);
        }
        v
    }
}

} // verus!
