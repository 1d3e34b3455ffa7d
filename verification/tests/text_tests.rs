use mop::rendering::render;
use mop::text::{contains_char, decimal_text, number_or_zero, text_or};

#[test]
fn decimal_of_small_numbers() {
    assert_eq!(decimal_text(0), "0");
    assert_eq!(decimal_text(7), "7");
    assert_eq!(decimal_text(9), "9");
    assert_eq!(decimal_text(10), "10");
    assert_eq!(decimal_text(1990), "1990");
    assert_eq!(decimal_text(100200), "100200");
}

#[test]
fn decimal_agrees_with_the_standard_library() {
    let numbers: [usize; 8] = [0, 1, 19, 99, 100, 1801, 1234567890, usize::MAX];
    for n in numbers {
        assert_eq!(decimal_text(n), n.to_string());
    }
}

#[test]
fn contains_char_finds_what_is_there() {
    assert!(contains_char("(3)Pop", '('));
    assert!(contains_char("(3)Pop", ')'));
    assert!(contains_char("Pop", 'p'));
    assert!(contains_char("caf\u{e9}", '\u{e9}'));
}

#[test]
fn contains_char_misses_what_is_not_there() {
    assert!(!contains_char("", '('));
    assert!(!contains_char("Pop", '('));
    assert!(!contains_char("Pop", 'O'));
    assert!(!contains_char("caf\u{e9}", 'e'));
}

#[test]
fn missing_text_gives_the_fallback() {
    assert_eq!(text_or(None, "not available"), "not available");
    assert_eq!(text_or(Some("Pop"), "not available"), "Pop");
    assert_eq!(text_or(Some(""), "not available"), "");
}

#[test]
fn missing_number_gives_zero() {
    assert_eq!(number_or_zero(None), 0);
    assert_eq!(number_or_zero(Some(1990)), 1990);
}

#[test]
fn render_with_every_field() {
    let text = render(
        Some("T"),
        Some("A"),
        Some("X"),
        Some("Pop"),
        Some(1990),
        "music/song.mp3",
    );
    assert_eq!(
        text,
        "\nTitle: T\nArtist: A\nAlbum: X\nGenre: Pop\nYear: 1990\nPath:music/song.mp3"
    );
}

#[test]
fn render_without_any_field() {
    let text = render(None, None, None, None, None, "");
    assert_eq!(text, "\nTitle: not available\nArtist: not available\nAlbum: not available\nGenre: not available\nYear: 0\nPath:");
}

#[test]
fn render_keeps_empty_texts() {
    let text = render(Some(""), None, Some(""), None, Some(0), "a.mp3");
    assert_eq!(text, "\nTitle: \nArtist: not available\nAlbum: \nGenre: not available\nYear: 0\nPath:a.mp3");
}
