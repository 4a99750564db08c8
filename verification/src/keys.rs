//! Key events as this crate sees them: the input layer maps whatever the
//! window system reports onto `Key`, which carries exactly what the typing
//! logic reads — which letter was pressed, or that the key was not a letter.

use vstd::prelude::*;

verus! {

/// One logical key press: one of the 26 letters, backspace, or any other
/// key. Backspace gets its own variant to record that the forward-only
/// matching model treats it as a no-op like every other non-letter.
#[derive(Clone, Copy)]
pub enum Key {
    A,
    B,
    C,
    D,
    E,
    F,
    G,
    H,
    I,
    J,
    K,
    L,
    M,
    N,
    O,
    P,
    Q,
    R,
    S,
    T,
    U,
    V,
    W,
    X,
    Y,
    Z,
    Back,
    Other,
}

/// The lowercase letter a key stands for, or `None` for a non-letter key.
pub open spec fn key_char(key_code: Key) -> Option<char> {
    match key_code {
        Key::A => Some('a'),
        Key::B => Some('b'),
        Key::C => Some('c'),
        Key::D => Some('d'),
        Key::E => Some('e'),
        Key::F => Some('f'),
        Key::G => Some('g'),
        Key::H => Some('h'),
        Key::I => Some('i'),
        Key::J => Some('j'),
        Key::K => Some('k'),
        Key::L => Some('l'),
        Key::M => Some('m'),
        Key::N => Some('n'),
        Key::O => Some('o'),
        Key::P => Some('p'),
        Key::Q => Some('q'),
        Key::R => Some('r'),
        Key::S => Some('s'),
        Key::T => Some('t'),
        Key::U => Some('u'),
        Key::V => Some('v'),
        Key::W => Some('w'),
        Key::X => Some('x'),
        Key::Y => Some('y'),
        Key::Z => Some('z'),
        Key::Back => None,
        Key::Other => None,
    }
}

/// Map a key press to the lowercase letter it types, covering exactly the
/// 26 letters; every other key (backspace included) maps to `None`.
pub fn key_code_to_char(key_code: Key) -> (r: Option<char>)
    ensures
        r == key_char(key_code),
{
    match key_code {
        Key::A => Some('a'),
        Key::B => Some('b'),
        Key::C => Some('c'),
        Key::D => Some('d'),
        Key::E => Some('e'),
        Key::F => Some('f'),
        Key::G => Some('g'),
        Key::H => Some('h'),
        Key::I => Some('i'),
        Key::J => Some('j'),
        Key::K => Some('k'),
        Key::L => Some('l'),
        Key::M => Some('m'),
        Key::N => Some('n'),
        Key::O => Some('o'),
        Key::P => Some('p'),
        Key::Q => Some('q'),
        Key::R => Some('r'),
        Key::S => Some('s'),
        Key::T => Some('t'),
        Key::U => Some('u'),
        Key::V => Some('v'),
        Key::W => Some('w'),
        Key::X => Some('x'),
        Key::Y => Some('y'),
        Key::Z => Some('z'),
        Key::Back => None,
        Key::Other => None,
    }
}

} // verus!
