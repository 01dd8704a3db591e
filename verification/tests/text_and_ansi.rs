use mini_ci::ansi::{format_log_line, labelled_line, strip_ansi, AnsiStripper};
use mini_ci::text::{
    chars_of, concat2, contains_char, ends_with, i64_to_decimal, replace_char, string_from_chars,
    trim, u64_to_decimal, white_space,
};

#[test]
fn trim_removes_unicode_white_space_at_both_ends() {
    assert_eq!(trim("  build.sh \n"), "build.sh");
    assert_eq!(trim("\u{3000}x y\u{85}\u{2028}"), "x y");
    assert_eq!(trim(" \t\r\n "), "");
    assert_eq!(trim(""), "");
    assert_eq!(trim("\u{200b}a"), "\u{200b}a");
}

#[test]
fn white_space_follows_the_unicode_property() {
    assert!(white_space(' '));
    assert!(white_space('\u{a0}'));
    assert!(white_space('\u{205f}'));
    assert!(!white_space('a'));
    assert!(!white_space('\u{200b}'));
}

#[test]
fn character_helpers() {
    assert_eq!(chars_of("hé!"), vec!['h', 'é', '!']);
    assert_eq!(string_from_chars(&vec!['o', 'k']), "ok");
    assert_eq!(concat2("ab", "cd"), "abcd");
    assert!(contains_char("a/b", '/'));
    assert!(!contains_char("ab", '/'));
    assert!(ends_with("build.sh", ".sh"));
    assert!(ends_with(".sh", ".sh"));
    assert!(!ends_with("sh", ".sh"));
    assert!(!ends_with("build.shx", ".sh"));
    assert_eq!(replace_char("My Cool App", ' ', '-'), "My-Cool-App");
}

#[test]
fn decimal_numbers() {
    assert_eq!(i64_to_decimal(0), "0");
    assert_eq!(i64_to_decimal(-42), "-42");
    assert_eq!(i64_to_decimal(1234567890), "1234567890");
    assert_eq!(i64_to_decimal(i64::MIN), "-9223372036854775808");
    assert_eq!(u64_to_decimal(u64::MAX), "18446744073709551615");
}

#[test]
fn strip_ansi_removes_color_codes() {
    assert_eq!(strip_ansi("\x1b[31mred\x1b[0m"), "red");
    assert_eq!(strip_ansi("\x1b[1;32mok\x1b[m done"), "ok done");
}

#[test]
fn strip_ansi_removes_titles_up_to_bel() {
    assert_eq!(strip_ansi("\x1b]0;title\x07text"), "text");
    assert_eq!(strip_ansi("a\x1b]0;x\x07b\x07c"), "ab\x07c");
}

#[test]
fn strip_ansi_keeps_unfinished_sequences() {
    assert_eq!(strip_ansi("\x1b[12;"), "\x1b[12;");
    assert_eq!(strip_ansi("\x1b]0;ti\ntle\x07x"), "\x1b]0;ti\ntle\x07x");
    assert_eq!(strip_ansi("\x1b[1-m"), "\x1b[1-m");
}

#[test]
fn strip_ansi_removes_carriage_returns() {
    assert_eq!(strip_ansi("a\r\nb\r"), "a\nb");
    assert!(!strip_ansi("\r\r\x1b[2K\rprogress 50%\r").contains('\r'));
}

#[test]
fn strip_ansi_keeps_plain_text() {
    assert_eq!(strip_ansi("plain text, 100% [ok]"), "plain text, 100% [ok]");
    assert_eq!(strip_ansi(""), "");
}

#[test]
fn strip_ansi_is_not_longer() {
    let s = "\x1b[0m\x1b]2;t\x07xy\r";
    assert!(strip_ansi(s).chars().count() <= s.chars().count());
    assert_eq!(strip_ansi(s), "xy");
}

#[test]
fn log_lines_are_labelled_and_stripped() {
    let st = AnsiStripper::new();
    assert_eq!(format_log_line(&st, "stdout", "\x1b[1mhi"), "[stdout] hi\n");
    assert_eq!(format_log_line(&st, "stderr", "warn\r"), "[stderr] warn\n");
    assert_eq!(st.strip("\x1b[4mu\x1b[24m"), "u");
}

#[test]
fn labelled_lines_keep_their_text() {
    assert_eq!(labelled_line("stdout", "\x1b[1mhi"), "[stdout] \x1b[1mhi\n");
    assert_eq!(labelled_line("", ""), "[] \n");
}
