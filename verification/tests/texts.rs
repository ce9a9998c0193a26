use better_derive::emit::write_integer;
use better_derive::text::copy_texts;
use better_derive::text::indent;
use better_derive::text::join;
use better_derive::text::render_decimal;
use better_derive::text::same_text;

#[test]
fn numbers_are_written_in_decimal() {
    assert_eq!(render_decimal(0), "0");
    assert_eq!(render_decimal(7), "7");
    assert_eq!(render_decimal(10), "10");
    assert_eq!(render_decimal(1234567890), "1234567890");
    assert_eq!(render_decimal(usize::MAX), usize::MAX.to_string());
}

#[test]
fn integers_are_written_with_their_sign() {
    assert_eq!(write_integer(0), "0");
    assert_eq!(write_integer(42), "42");
    assert_eq!(write_integer(-1), "-1");
    assert_eq!(write_integer(-120), "-120");
    assert_eq!(write_integer(i64::MAX), i64::MAX.to_string());
    assert_eq!(write_integer(i64::MIN), i64::MIN.to_string());
}

#[test]
fn texts_are_joined_with_the_separator_between_them() {
    let items = vec!["a".to_string(), "".to_string(), "c".to_string()];
    assert_eq!(join(&items, ", "), "a, , c");
    assert_eq!(join(&items, ""), "ac");
    assert_eq!(join(&vec!["only".to_string()], ", "), "only");
    assert_eq!(join(&vec![], ", "), "");
}

#[test]
fn line_breaks_are_followed_by_four_blanks() {
    assert_eq!(indent(""), "");
    assert_eq!(indent("one line"), "one line");
    assert_eq!(indent("a\nb"), "a\n    b");
    assert_eq!(indent("{\n    x,\n}"), "{\n        x,\n    }");
    assert_eq!(indent("\n"), "\n    ");
    assert_eq!(indent("é\nü"), "é\n    ü");
}

#[test]
fn texts_are_compared_by_their_characters() {
    assert!(same_text("skip", "skip"));
    assert!(!same_text("skip", "skipp"));
    assert!(!same_text("", " "));
    assert_eq!(copy_texts(&vec!["x".to_string(), "y".to_string()]), vec!["x".to_string(), "y".to_string()]);
}
