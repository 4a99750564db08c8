use typing_game::Key;
use typing_game::WordList;
use typing_game::WordProgress;
use typing_game::is_char_equal;
use typing_game::key_code_to_char;

fn word(s: &str) -> Vec<char> {
    s.chars().collect()
}

#[test]
fn typing_cat_in_order_counts_up() {
    let mut p = WordProgress::new(word("cat"), word("dog"));
    assert_eq!(p.typed, 0);
    p.on_key_press('c');
    assert_eq!(p.typed, 1);
    assert!(!p.is_word_complete());
    p.on_key_press('a');
    assert_eq!(p.typed, 2);
    assert!(!p.is_word_complete());
    p.on_key_press('t');
    assert_eq!(p.typed, 3);
    assert!(p.is_word_complete());
}

#[test]
fn wrong_letter_is_ignored() {
    let mut p = WordProgress::new(word("cat"), word("dog"));
    p.on_key_press('c');
    assert_eq!(p.typed, 1);
    p.on_key_press('x');
    assert_eq!(p.typed, 1);
    p.on_key_press('a');
    assert_eq!(p.typed, 2);
    p.on_key_press('t');
    assert_eq!(p.typed, 3);
    assert!(p.is_word_complete());
}

#[test]
fn mismatch_at_start_changes_nothing() {
    let mut p = WordProgress::new(word("cat"), word("dog"));
    p.on_key_press('t');
    p.on_key_press('z');
    assert_eq!(p.typed, 0);
    assert_eq!(p.current, word("cat"));
    assert_eq!(p.next, word("dog"));
}

#[test]
fn prefix_gives_rendered_split() {
    let mut p = WordProgress::new(word("cat"), word("dog"));
    p.on_key_press('c');
    p.on_key_press('a');
    let (typed_run, remaining_run) = p.rendered_split();
    assert_eq!(typed_run, word("ca"));
    assert_eq!(remaining_run, word("t"));
}

#[test]
fn rendered_split_of_fresh_word_is_all_remaining() {
    let p = WordProgress::new(word("cat"), word("dog"));
    let (typed_run, remaining_run) = p.rendered_split();
    assert_eq!(typed_run, word(""));
    assert_eq!(remaining_run, word("cat"));
}

#[test]
fn advance_word_promotes_next_and_resets() {
    let mut p = WordProgress::new(word("cat"), word("dog"));
    p.on_key_press('c');
    p.on_key_press('a');
    p.on_key_press('t');
    assert!(p.is_word_complete());
    p.advance_word(word("hen"));
    assert_eq!(p.typed, 0);
    assert_eq!(p.current, word("dog"));
    assert_eq!(p.next, word("hen"));
}

#[test]
fn typing_drains_a_batch_in_order() {
    let mut p = WordProgress::new(word("cat"), word("dog"));
    let events = vec![Key::C, Key::Back, Key::X, Key::A, Key::Other, Key::T];
    p.typing(&events);
    assert_eq!(p.typed, 3);
    assert!(p.is_word_complete());
}

#[test]
fn typing_stops_at_first_mismatch_in_batch() {
    let mut p = WordProgress::new(word("cat"), word("dog"));
    let events = vec![Key::A, Key::T, Key::C];
    p.typing(&events);
    assert_eq!(p.typed, 1);
}

#[test]
fn key_code_to_char_covers_all_letters() {
    let keys = vec![
        Key::A,
        Key::B,
        Key::C,
        Key::D,
        Key::E,
        Key::F,
        Key::G,
        Key::H,
        Key::I,
        Key::J,
        Key::K,
        Key::L,
        Key::M,
        Key::N,
        Key::O,
        Key::P,
        Key::Q,
        Key::R,
        Key::S,
        Key::T,
        Key::U,
        Key::V,
        Key::W,
        Key::X,
        Key::Y,
        Key::Z,
    ];
    let letters = "abcdefghijklmnopqrstuvwxyz";
    for (k, c) in keys.into_iter().zip(letters.chars()) {
        assert_eq!(key_code_to_char(k), Some(c));
    }
}

#[test]
fn non_letter_keys_map_to_none() {
    assert_eq!(key_code_to_char(Key::Back), None);
    assert_eq!(key_code_to_char(Key::Other), None);
}

#[test]
fn is_char_equal_checks_position() {
    let w = word("cat");
    assert!(is_char_equal('c', &w, 0));
    assert!(is_char_equal('a', &w, 1));
    assert!(!is_char_equal('c', &w, 1));
    assert!(!is_char_equal('t', &w, 3));
}

#[test]
fn get_random_word_draws_from_the_list() {
    let list = WordList::new(vec![word("cat")]);
    let w = list.get_random_word();
    assert_eq!(w, word("cat"));
}

#[test]
fn get_random_word_is_always_a_member() {
    let entries = vec![word("cat"), word("dog"), word("hen")];
    let list = WordList::new(entries.clone());
    for _ in 0..20 {
        let w = list.get_random_word();
        assert!(entries.contains(&w));
    }
}
