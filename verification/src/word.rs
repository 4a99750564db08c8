//! The word-progress state machine: the target word being typed, the queued
//! preview word, and how many leading characters have been confirmed
//! correct. Matching is strict and forward-only: a keystroke either matches
//! the next expected character and advances the count, or does nothing.

use vstd::prelude::*;
use crate::keys::Key;
use crate::keys::key_char;
use crate::keys::key_code_to_char;

verus! {

/// Progress through the current target word.
pub struct WordProgress {
    /// The word being typed now.
    pub current: Vec<char>,
    /// The word shown as a preview, promoted when `current` is finished.
    pub next: Vec<char>,
    /// How many leading characters of `current` were typed correctly.
    pub typed: usize,
}

/// The typed count after one keystroke of letter `c` against word `w` at
/// count `t`: it advances exactly when `c` is the next expected character.
pub open spec fn step_typed(w: Seq<char>, t: int, c: char) -> int {
    if 0 <= t < w.len() && w[t] == c {
        t + 1
    } else {
        t
    }
}

/// The typed count after a sequence of letters, applied in order.
pub open spec fn typed_after(w: Seq<char>, t: int, cs: Seq<char>) -> int
    decreases cs.len(),
{
    if cs.len() == 0 {
        t
    } else {
        typed_after(w, step_typed(w, t, cs[0]), cs.drop_first())
    }
}

/// The typed count after a batch of key events, applied in order; keys that
/// carry no letter leave the count alone.
pub open spec fn typed_after_keys(w: Seq<char>, t: int, ks: Seq<Key>) -> int
    decreases ks.len(),
{
    if ks.len() == 0 {
        t
    } else {
        let stepped = match key_char(ks[0]) {
            Some(c) => step_typed(w, t, c),
            None => t,
        };
        typed_after_keys(w, stepped, ks.drop_first())
    }
}

/// Whether `input` has `char_to_compare` at position `n`; false when `n` is
/// past the end.
pub fn is_char_equal(char_to_compare: char, input: &Vec<char>, n: usize) -> (r: bool)
    ensures
        r == (n < input@.len() && input@[n as int] == char_to_compare),
{
    if n < input.len() {
        input[n] == char_to_compare
    } else {
        false
    }
}

impl WordProgress {
    /// The typed count never runs past the end of the current word.
    pub open spec fn wf(self) -> bool {
        self.typed <= self.current@.len()
    }

    /// Start on `current` with `next` queued and nothing typed yet.
    pub fn new(current: Vec<char>, next: Vec<char>) -> (p: WordProgress)
        ensures
            p.current@ == current@,
            p.next@ == next@,
            p.typed == 0,
            p.wf(),
    {
        WordProgress { current, next, typed: 0 }
    }

    /// Process one letter: advance the typed count exactly when the letter
    /// is the next expected character of the current word; any other letter
    /// is silently ignored and changes nothing.
    pub fn on_key_press(&mut self, c: char)
        requires
            old(self).wf(),
        ensures
            final(self).typed == step_typed(old(self).current@, old(self).typed as int, c),
            final(self).current@ == old(self).current@,
            final(self).next@ == old(self).next@,
            final(self).wf(),
            old(self).typed < old(self).current@.len()
                && c != old(self).current@[old(self).typed as int]
                ==> final(self).typed == old(self).typed,
    {
        if is_char_equal(c, &self.current, self.typed) {
            // A match means the count sits strictly inside the word, so the
            // increment cannot overflow.
            assert(self.typed < self.current.len());
            self.typed = self.typed + 1;
        }
    }

    /// Drain one frame's batch of key events into the state machine, in
    /// order: each letter key is matched forward-only, every other key is a
    /// no-op.
    pub fn typing(&mut self, events: &Vec<Key>)
        requires
            old(self).wf(),
        ensures
            final(self).typed as int == typed_after_keys(
                old(self).current@,
                old(self).typed as int,
                events@,
            ),
            final(self).current@ == old(self).current@,
            final(self).next@ == old(self).next@,
            final(self).wf(),
    {
        let ghost w = self.current@;
        let ghost goal = typed_after_keys(w, self.typed as int, events@);
        let mut i: usize = 0;
        assert(events@.skip(0) =~= events@);
        while i < events.len()
            invariant
                0 <= i <= events@.len(),
                self.wf(),
                self.current@ == w,
                self.next@ == old(self).next@,
                typed_after_keys(w, self.typed as int, events@.skip(i as int)) == goal,
            decreases events@.len() - i,
        {
            assert(events@.skip(i as int)[0] == events@[i as int]);
            assert(events@.skip(i as int).drop_first() =~= events@.skip(i as int + 1));
            if let Some(c) = key_code_to_char(events[i]) {
                self.on_key_press(c);
            }
            i = i + 1;
        }
        assert(events@.skip(events@.len() as int) =~= Seq::<Key>::empty());
    }

    /// True exactly when the whole current word has been typed.
    pub fn is_word_complete(&self) -> (r: bool)
        ensures
            r <==> self.typed == self.current@.len(),
    {
        self.typed == self.current.len()
    }

    /// Rotate to the next word, valid only once the current word is fully
    /// typed: the preview becomes the target, `fresh` becomes the preview,
    /// and the typed count resets to zero.
    pub fn advance_word(&mut self, fresh: Vec<char>)
        requires
            old(self).typed == old(self).current@.len(),
        ensures
            final(self).current@ == old(self).next@,
            final(self).next@ == fresh@,
            final(self).typed == 0,
            final(self).wf(),
    {
        let mut promoted = fresh;
        core::mem::swap(&mut self.next, &mut promoted);
        self.current = promoted;
        self.typed = 0;
    }

    /// The two text runs the renderer draws for the current word: the
    /// correctly typed prefix and the untyped remainder.
    pub fn rendered_split(&self) -> (r: (Vec<char>, Vec<char>))
        requires
            self.wf(),
        ensures
            r.0@ == self.current@.subrange(0, self.typed as int),
            r.1@ == self.current@.subrange(self.typed as int, self.current@.len() as int),
    {
        let mut typed_part: Vec<char> = Vec::new();
        let mut remaining_part: Vec<char> = Vec::new();
        let mut i: usize = 0;
        while i < self.typed
            invariant
                self.wf(),
                0 <= i <= self.typed,
                typed_part@ =~= self.current@.subrange(0, i as int),
            decreases self.typed - i,
        {
            typed_part.push(self.current[i]);
            i = i + 1;
        }
        let mut j: usize = self.typed;
        while j < self.current.len()
            invariant
                self.wf(),
                self.typed <= j <= self.current@.len(),
                remaining_part@ =~= self.current@.subrange(self.typed as int, j as int),
            decreases self.current@.len() - j,
        {
            remaining_part.push(self.current[j]);
            j = j + 1;
        }
        (typed_part, remaining_part)
    }
}

proof fn lemma_typed_after_matching(w: Seq<char>, t: int, p: Seq<char>)
    requires
        0 <= t,
        t + p.len() <= w.len(),
        forall|i: int| 0 <= i < p.len() ==> p[i] == w[t + i],
    ensures
        typed_after(w, t, p) == t + p.len(),
    decreases p.len(),
{
    if p.len() > 0 {
        assert(p[0] == w[t + 0]);
        assert(forall|i: int|
            0 <= i < p.drop_first().len() ==> p.drop_first()[i] == w[(t + 1) + i]);
        lemma_typed_after_matching(w, t + 1, p.drop_first());
    }
}

/// Typing any prefix `p` of a word `w` in order, starting from a fresh
/// word, confirms exactly `p`: the typed count lands on `p`'s length, the
/// typed run of the rendered split is `p` itself, and the remaining run is
/// the rest of `w`.
pub proof fn lemma_prefix_typing(w: Seq<char>, p: Seq<char>)
    requires
        p.len() <= w.len(),
        p == w.subrange(0, p.len() as int),
    ensures
        typed_after(w, 0, p) == p.len(),
        w.subrange(0, typed_after(w, 0, p)) == p,
        w.subrange(typed_after(w, 0, p), w.len() as int) == w.skip(p.len() as int),
{
    assert(forall|i: int| 0 <= i < p.len() ==> p[i] == w[0 + i]);
    lemma_typed_after_matching(w, 0, p);
    assert(w.subrange(typed_after(w, 0, p), w.len() as int) =~= w.skip(p.len() as int));
}

} // verus!
