use devenv::text::split;
use devenv::text::Separator;

fn texts(items: &[&str]) -> Vec<String> {
    items.iter().map(|s| s.to_string()).collect()
}

#[test]
fn split_on_whitespace_drops_empty_runs() {
    assert_eq!(split("  proc \t /proc  proc\trw ", Separator::Whitespace), texts(&["proc", "/proc", "proc", "rw"]));
}

#[test]
fn split_of_blank_text_is_empty() {
    assert_eq!(split("", Separator::Whitespace), texts(&[]));
    assert_eq!(split(" \t\r", Separator::Whitespace), texts(&[]));
    assert_eq!(split("\n\n", Separator::Newline), texts(&[]));
}

#[test]
fn split_on_newline_keeps_spaces() {
    assert_eq!(split("a b\n\nc d\n", Separator::Newline), texts(&["a b", "c d"]));
}

#[test]
fn split_without_separator_is_the_text() {
    assert_eq!(split("overlay", Separator::Whitespace), texts(&["overlay"]));
}

#[test]
fn unicode_white_space_separates() {
    assert_eq!(split("a\u{a0}b\u{2003}c\u{3000}d", Separator::Whitespace), texts(&["a", "b", "c", "d"]));
    assert_eq!(split("a\u{200b}b", Separator::Whitespace), texts(&["a\u{200b}b"]));
}

#[test]
fn is_separator_agrees_with_the_standard_library() {
    let mut code: u32 = 0;
    while code < 0x3100 {
        if let Some(c) = char::from_u32(code) {
            assert_eq!(Separator::Whitespace.is_separator(c), c.is_whitespace());
            assert_eq!(Separator::Newline.is_separator(c), c == '\n');
        }
        code += 1;
    }
}
