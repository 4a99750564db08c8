//! One frame of the game, in the order the scheduler drives it: drain the
//! frame's key events into the word state, run the animator's decay step,
//! and — in the very frame the current word is observed complete — fire the
//! growth pulse and rotate in the next word.

use vstd::prelude::*;
use crate::growth::GrowthAnimator;
use crate::growth::grown;
use crate::growth::shrunk;
use crate::keys::Key;
use crate::word::WordProgress;
use crate::word::typed_after_keys;
use crate::words::WordList;

verus! {

/// Advance both components by one frame: `events` is the batch of key
/// presses since the previous frame, `dt_ms` the frame delta in
/// milliseconds, `words` the dictionary that supplies a fresh preview word
/// on completion. A word-completing keystroke takes effect in this same
/// frame: the pulse fires and the words rotate before the frame ends.
pub fn frame_tick(
    progress: &mut WordProgress,
    animator: &mut GrowthAnimator,
    events: &Vec<Key>,
    dt_ms: u32,
    words: &WordList,
)
    requires
        old(progress).wf(),
        old(animator).wf(),
        words.wf(),
    ensures
        final(progress).wf(),
        final(animator).wf(),
        ({
            let t = typed_after_keys(old(progress).current@, old(progress).typed as int, events@);
            if t == old(progress).current@.len() {
                &&& final(progress).typed == 0
                &&& final(progress).current@ == old(progress).next@
                &&& exists|i: int|
                    0 <= i < words.words@.len() && final(progress).next@ == words.words@[i]@
                &&& final(animator).size as int == grown(
                    shrunk(old(animator).size as int, dt_ms as int),
                    dt_ms as int,
                )
            } else {
                &&& final(progress).typed as int == t
                &&& final(progress).current@ == old(progress).current@
                &&& final(progress).next@ == old(progress).next@
                &&& final(animator).size as int == shrunk(old(animator).size as int, dt_ms as int)
            }
        }),
{
    progress.typing(events);
    animator.shrink_step(dt_ms);
    if progress.is_word_complete() {
        animator.growth_step(dt_ms);
        let fresh = words.get_random_word();
        progress.advance_word(fresh);
    }
}

} // verus!
