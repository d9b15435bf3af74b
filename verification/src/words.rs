//! The word bank: the answer pool the secret word is drawn from and the
//! larger valid-guess set.

use rand::Rng;
use vstd::prelude::*;

verus! {

/// Whether some word of `ws` spells `w`.
pub open spec fn contains_word(ws: Seq<String>, w: Seq<char>) -> bool {
    exists|i: int| 0 <= i < ws.len() && ws[i]@ == w
}

/// Struct for holding dictionary data, choosing an answer,
/// and validating user guesses.
///
/// The two collections are fixed for the lifetime of one bank: the answer
/// pool holds the candidates for the secret word, and the valid-guess set
/// is their union with the extra dictionary words that are accepted as
/// guesses but never chosen as the answer.
#[derive(Clone, Debug, PartialEq)]
pub struct Words {
    pub answers: Vec<String>,
    pub valid_guesses: Vec<String>,
}

impl Words {
    /// A usable bank: the answer pool is non-empty, its words are five
    /// letters long, and every one of them is also a valid guess.
    pub open spec fn wf(self) -> bool {
        &&& self.answers@.len() > 0
        &&& forall|i: int| 0 <= i < self.answers@.len() ==> self.answers@[i]@.len() == 5
        &&& forall|i: int|
            0 <= i < self.answers@.len() ==> contains_word(
                self.valid_guesses@,
                self.answers@[i]@,
            )
    }

    /// Build a bank from the answer pool and the extra dictionary words.
    /// The valid-guess set is the union of the two lists.
    pub fn new(answer_words: Vec<String>, extra_words: Vec<String>) -> (r: Words)
        requires
            answer_words@.len() > 0,
            forall|i: int| 0 <= i < answer_words@.len() ==> answer_words@[i]@.len() == 5,
        ensures
            r.wf(),
            r.answers == answer_words,
            r.valid_guesses@ == answer_words@ + extra_words@,
    {
        let mut valid_guesses: Vec<String> = Vec::new();
        let n = answer_words.len();
        let mut j: usize = 0;
        while j < n
            invariant
                j <= n,
                n == answer_words@.len(),
                valid_guesses@.len() == j,
                forall|k: int| 0 <= k < j ==> valid_guesses@[k] == answer_words@[k],
            decreases n - j,
        {
            valid_guesses.push(answer_words[j].clone());
            j = j + 1;
        }
        proof {
            assert(valid_guesses@ =~= answer_words@);
        }
        let mut extra = extra_words;
        valid_guesses.append(&mut extra);
        let r = Words { answers: answer_words, valid_guesses };
        proof {
            assert forall|i: int| 0 <= i < r.answers@.len() implies contains_word(
                r.valid_guesses@,
                r.answers@[i]@,
            ) by {
                assert(r.valid_guesses@[i]@ == r.answers@[i]@);
            }
        }
        r
    }

    /// Choose an answer from the possible answer dictionary.
    pub fn get_answer(&self) -> (r: String)
        requires
            self.answers@.len() > 0,
        ensures
            exists|i: int| 0 <= i < self.answers@.len() && r == self.answers@[i],
    {
        let i = random_index(self.answers.len());
        self.answers[i].clone()
    }

    /// Check if a word is a valid guess.
    pub fn valid_guess(&self, word: &str) -> (r: bool)
        ensures
            r == contains_word(self.valid_guesses@, word@),
    {
        let w = word.to_owned();
        let n = self.valid_guesses.len();
        let mut j: usize = 0;
        while j < n
            invariant
                j <= n,
                n == self.valid_guesses@.len(),
                w@ == word@,
                forall|k: int| 0 <= k < j ==> self.valid_guesses@[k]@ != word@,
            decreases n - j,
        {
            if self.valid_guesses[j] == w {
                return true;
            }
            j = j + 1;
        }
        false
    }
}

/// Relies on rand::Rng::gen_range (on rand::thread_rng): returns a value
/// drawn uniformly at random from `0..n`; panics only on an empty range.
#[verifier::external_body]
fn random_index(n: usize) -> (r: usize)
    requires
        n > 0,
    ensures
        r < n,
{
    rand::thread_rng().gen_range(0..n)
}

} // verus!
