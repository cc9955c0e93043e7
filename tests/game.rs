use guessing_game::game::{
    compare_tries, draw_secret, strip_trailing_newline, wants_to_play, HumanGuess, Verdict,
    Winner,
};

#[test]
fn strips_crlf() {
    assert_eq!(strip_trailing_newline("Conan\r\n"), "Conan");
}

#[test]
fn strips_lf() {
    assert_eq!(strip_trailing_newline("Conan\n"), "Conan");
}

#[test]
fn keeps_line_without_ending() {
    assert_eq!(strip_trailing_newline("Conan"), "Conan");
    assert_eq!(strip_trailing_newline(""), "");
    assert_eq!(strip_trailing_newline("Conan\r"), "Conan\r");
}

#[test]
fn strips_only_one_ending() {
    assert_eq!(strip_trailing_newline("Conan\n\n"), "Conan\n");
}

#[test]
fn skip_and_empty_names_do_not_play() {
    assert!(!wants_to_play("skip"));
    assert!(!wants_to_play(""));
    assert!(wants_to_play("Conan"));
    assert!(wants_to_play("skip "));
    assert!(wants_to_play("skit"));
}

#[test]
fn new_player_has_no_tries() {
    let h = HumanGuess::new();
    assert_eq!(h, HumanGuess { guess: 0, high: 100, low: 0, tries: 0 });
}

#[test]
fn small_guess_raises_low_bound() {
    let mut h = HumanGuess::new();
    assert_eq!(h.take_guess(42, "  17 \n"), Verdict::TooSmall);
    assert_eq!(h, HumanGuess { guess: 17, high: 100, low: 17, tries: 1 });
}

#[test]
fn big_guess_keeps_low_bound() {
    let mut h = HumanGuess::new();
    assert_eq!(h.take_guess(42, "90\n"), Verdict::TooBig);
    assert_eq!(h, HumanGuess { guess: 90, high: 100, low: 0, tries: 1 });
}

#[test]
fn right_guess_is_correct() {
    let mut h = HumanGuess::new();
    assert_eq!(h.take_guess(42, "+42\r\n"), Verdict::Correct);
    assert_eq!(h.guess, 42);
}

#[test]
fn invalid_lines_still_count_as_tries() {
    let mut h = HumanGuess::new();
    assert_eq!(h.take_guess(42, "forty\n"), Verdict::Invalid);
    assert_eq!(h.take_guess(42, "-3\n"), Verdict::Invalid);
    assert_eq!(h.take_guess(42, "4294967296\n"), Verdict::Invalid);
    assert_eq!(h.take_guess(42, "\n"), Verdict::Invalid);
    assert_eq!(h, HumanGuess { guess: 0, high: 100, low: 0, tries: 4 });
    assert_eq!(h.take_guess(42, "4294967295"), Verdict::TooBig);
    assert_eq!(h.tries, 5);
}

#[test]
fn fewer_tries_win() {
    assert_eq!(compare_tries(8, 5), Winner::Computer);
    assert_eq!(compare_tries(3, 5), Winner::Human);
    assert_eq!(compare_tries(5, 5), Winner::Nobody);
    assert_eq!(compare_tries(0, 5), Winner::Nobody);
}

#[test]
fn secret_is_in_range() {
    for _ in 0..200 {
        let s = draw_secret();
        assert!(s >= 1 && s <= 100);
    }
}
