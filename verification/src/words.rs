//! The word supply: a fixed dictionary of lowercase words, from which a
//! random one is drawn whenever a new target or preview word is needed. The
//! dictionary's contents come from the embedding layer (it owns the word
//! list asset); the draw itself happens here.

use vstd::prelude::*;
use rand::Rng;

verus! {

/// A word usable as a typing target: non-empty, ASCII lowercase letters
/// only.
pub open spec fn is_valid_word(w: Seq<char>) -> bool {
    &&& w.len() > 0
    &&& forall|i: int| 0 <= i < w.len() ==> 'a' <= #[trigger] w[i] <= 'z'
}

/// The fixed dictionary that words are drawn from.
pub struct WordList {
    pub words: Vec<Vec<char>>,
}

/// Relies on rand's `Rng::gen_range` over `thread_rng()`: returns a value
/// drawn uniformly from the range `0..n`; it panics only on an empty range,
/// which `n > 0` rules out.
#[verifier::external_body]
fn random_index(n: usize) -> (r: usize)
    requires
        n > 0,
    ensures
        r < n,
{
    rand::thread_rng().gen_range(0..n)
}

/// An owned copy of a word.
fn copy_word(w: &Vec<char>) -> (r: Vec<char>)
    ensures
        r@ == w@,
{
    let mut r: Vec<char> = Vec::new();
    let mut i: usize = 0;
    while i < w.len()
        invariant
            0 <= i <= w@.len(),
            r@ =~= w@.subrange(0, i as int),
        decreases w@.len() - i,
    {
        r.push(w[i]);
        i = i + 1;
    }
    assert(r@ =~= w@);
    r
}

impl WordList {
    /// The dictionary is non-empty and holds only valid words. An empty
    /// dictionary is a caller configuration error, excluded up front.
    pub open spec fn wf(self) -> bool {
        &&& self.words@.len() > 0
        &&& forall|i: int|
            0 <= i < self.words@.len() ==> is_valid_word(#[trigger] self.words@[i]@)
    }

    pub fn new(words: Vec<Vec<char>>) -> (l: WordList)
        requires
            words@.len() > 0,
            forall|i: int| 0 <= i < words@.len() ==> is_valid_word(#[trigger] words@[i]@),
        ensures
            l.words@ == words@,
            l.wf(),
    {
        WordList { words }
    }

    /// Draw a word at random: the result is some entry of the dictionary,
    /// hence a non-empty lowercase word. Which entry comes back is up to
    /// the random source.
    pub fn get_random_word(&self) -> (w: Vec<char>)
        requires
            self.wf(),
        ensures
            exists|i: int| 0 <= i < self.words@.len() && w@ == self.words@[i]@,
            is_valid_word(w@),
    {
        let random_idx = random_index(self.words.len());
        copy_word(&self.words[random_idx])
    }
}

} // verus!
