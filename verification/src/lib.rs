//! Core of a typing-practice mini-game: a word-progress state machine that
//! consumes keystrokes and advances through randomly supplied target words,
//! paired with a growth animator whose scalar size pulses on each completed
//! word and relaxes back toward a floor over time.
//!
//! Sizes and frame deltas are kept as fixed-point integers: sizes in
//! thousandths of a display unit, deltas in milliseconds. A rendering layer
//! owns windows, fonts and sprites; it hands this crate plain values (key
//! events, frame deltas, a word list) and reads back the text split and the
//! shape size to draw.

mod frame;
mod growth;
mod keys;
mod word;
mod words;

pub use growth::FLOOR_SIZE;
pub use growth::GROWTH_RATE;
pub use growth::GrowthAnimator;
pub use growth::SHRINK_RATE;
pub use growth::grown;
pub use growth::lemma_pulse_additive_in_frame;
pub use growth::lemma_shrink_never_below_floor;
pub use growth::shrunk;
pub use growth::shrunk_all;
pub use keys::Key;
pub use keys::key_char;
pub use keys::key_code_to_char;
pub use word::WordProgress;
pub use word::is_char_equal;
pub use word::lemma_prefix_typing;
pub use word::step_typed;
pub use word::typed_after;
pub use word::typed_after_keys;
pub use words::WordList;
pub use words::is_valid_word;
pub use frame::frame_tick;
