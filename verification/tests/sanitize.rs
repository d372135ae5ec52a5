use guessing_games::sanitize_word;

#[test]
fn sanitize_trims_trailing_space() {
    let r = sanitize_word("apple ").expect("five letters remain");
    assert_eq!(r, "APPLE");
    assert_eq!(r.len(), 5);
}

#[test]
fn sanitize_drops_digit() {
    let r = sanitize_word("ap9ple").expect("digit is dropped");
    assert_eq!(r, "APPLE");
}

#[test]
fn sanitize_rejects_short_word() {
    let e = sanitize_word("hi").expect_err("two letters are not enough");
    assert_eq!(e.message(), "the word must contain exactly 5 letters");
}

#[test]
fn sanitize_rejects_empty_word() {
    assert!(sanitize_word("").is_err());
}

#[test]
fn sanitize_rejects_long_word() {
    assert!(sanitize_word("apples").is_err());
}

#[test]
fn sanitize_drops_interior_whitespace() {
    let r = sanitize_word(" a p p L e ").expect("letters remain");
    assert_eq!(r, "APPLE");
}

#[test]
fn sanitize_drops_non_ascii() {
    assert!(sanitize_word("\u{e4}pple").is_err());
    let r = sanitize_word("\u{e4}apple").expect("five ASCII letters remain");
    assert_eq!(r, "APPLE");
}

#[test]
fn sanitize_uppercases_before_filtering() {
    // U+017F (long s) uppercases to the ASCII letter S, so it survives
    // sanitization: the input is uppercased first, filtered second.
    let r = sanitize_word("\u{17f}tage").expect("five letters after uppercasing");
    assert_eq!(r, "STAGE");
}

#[test]
fn sanitize_counts_expanded_uppercase() {
    // U+00DF (sharp s) uppercases to the two letters SS, giving STRASSE:
    // seven letters, so the word is rejected.
    assert!(sanitize_word("stra\u{df}e").is_err());
}

#[test]
fn sanitize_is_idempotent_on_samples() {
    for raw in ["apple ", "ap9ple", " gRaPe!", "CRANE"] {
        let once = sanitize_word(raw).expect("five letters remain");
        let twice = sanitize_word(once.as_str()).expect("still five letters");
        assert_eq!(once, twice);
    }
}
