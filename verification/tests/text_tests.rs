use feofetch::text::{
    find_char, join_with, pad_right, spaces, split_lines, str_ends_with, str_eq, str_starts_with,
    trim_end_ws, u64_to_string,
};
use feofetch::width::display_width;

#[test]
fn split_lines_empty() {
    let r = split_lines("");
    assert!(r.is_empty());
}

#[test]
fn split_lines_single() {
    assert_eq!(split_lines("abc"), vec!["abc".to_string()]);
}

#[test]
fn split_lines_trailing_newline() {
    assert_eq!(split_lines("abc\n"), vec!["abc".to_string()]);
}

#[test]
fn split_lines_inner_empty() {
    assert_eq!(
        split_lines("a\n\nb"),
        vec!["a".to_string(), "".to_string(), "b".to_string()]
    );
}

#[test]
fn split_lines_carriage_return() {
    assert_eq!(split_lines("a\r\nb\r\n"), vec!["a".to_string(), "b".to_string()]);
}

#[test]
fn split_lines_only_newline() {
    assert_eq!(split_lines("\n"), vec!["".to_string()]);
}

#[test]
fn trim_end_whitespace() {
    assert_eq!(trim_end_ws("art  \n\t\r\n"), "art");
    assert_eq!(trim_end_ws("  lead kept  "), "  lead kept");
    assert_eq!(trim_end_ws("\n\n"), "");
    assert_eq!(trim_end_ws(""), "");
}

#[test]
fn pad_right_pads_and_never_truncates() {
    assert_eq!(pad_right("ab", 5), "ab   ");
    assert_eq!(pad_right("abcdef", 3), "abcdef");
    assert_eq!(pad_right("", 2), "  ");
    assert_eq!(pad_right("xy", 2), "xy");
}

#[test]
fn spaces_builds_runs() {
    assert_eq!(spaces(0), "");
    assert_eq!(spaces(4), "    ");
}

#[test]
fn decimal_formatting() {
    assert_eq!(u64_to_string(0), "0");
    assert_eq!(u64_to_string(7), "7");
    assert_eq!(u64_to_string(10), "10");
    assert_eq!(u64_to_string(12345), "12345");
    assert_eq!(u64_to_string(u64::MAX), "18446744073709551615");
}

#[test]
fn string_predicates() {
    assert!(str_eq("abc", "abc"));
    assert!(!str_eq("abc", "abd"));
    assert!(!str_eq("abc", "ab"));
    assert!(str_starts_with("Name: i3", "Name: "));
    assert!(!str_starts_with("name: i3", "Name: "));
    assert!(str_ends_with("iTerm.app", ".app"));
    assert!(!str_ends_with("app", ".app"));
}

#[test]
fn find_first_char() {
    assert_eq!(find_char("6.1.0-13-amd64", '-'), 5);
    assert_eq!(find_char("nodash", '-'), 6);
    assert_eq!(find_char("", '-'), 0);
}

#[test]
fn join_with_separator() {
    let parts: Vec<String> = vec![];
    assert_eq!(join_with(&parts, ", "), "");
    let parts = vec!["pacman".to_string()];
    assert_eq!(join_with(&parts, ", "), "pacman");
    let parts = vec!["pacman".to_string(), "dpkg".to_string(), "homebrew".to_string()];
    assert_eq!(join_with(&parts, ", "), "pacman, dpkg, homebrew");
}

#[test]
fn width_counts_characters() {
    assert_eq!(display_width(""), 0);
    assert_eq!(display_width("packages"), 8);
    // one character per Unicode scalar, independent of byte length
    assert_eq!(display_width("\u{e9}\u{3b1}"), 2);
}
