use imgsorter::utils::{
    indent_string, ColoredString, RightPadding, FILE_TREE_ENTRY, FILE_TREE_INDENT,
    SEPARATOR_COPY_MOVE, SEPARATOR_DRY_RUN, SEPARATOR_STATUS,
};

#[test]
fn colored_strings_wrap_in_ansi_codes() {
    assert_eq!(ColoredString::magenta("m"), "\x1b[95mm\x1b[0m");
    assert_eq!(ColoredString::blue("b"), "\x1b[94mb\x1b[0m");
    assert_eq!(ColoredString::cyan("c"), "\x1b[96mc\x1b[0m");
    assert_eq!(ColoredString::green("ok"), "\x1b[92mok\x1b[0m");
    assert_eq!(ColoredString::red("err"), "\x1b[91merr\x1b[0m");
    assert_eq!(ColoredString::no_color("n"), "\x1b[0mn\x1b[0m");
    assert_eq!(ColoredString::orange("o"), "\x1b[93mo\x1b[0m");
    assert_eq!(ColoredString::bold_white("w"), "\x1b[1mw\x1b[0m");
    assert_eq!(ColoredString::underline("u"), "\x1b[4mu\x1b[0m");
}

#[test]
fn warn_arrow_is_an_orange_arrow() {
    assert_eq!(ColoredString::warn_arrow(), "\x1b[93m>\x1b[0m");
}

#[test]
fn right_padding_fills_to_width() {
    assert_eq!(RightPadding::space(String::from("ab"), 5), "ab   ");
    assert_eq!(RightPadding::dot(String::from("ab"), 4), "ab..");
    assert_eq!(RightPadding::dash(String::from("ab"), 3), "ab-");
    assert_eq!(RightPadding::em_dash(String::from("x"), 3), "x──");
    assert_eq!(RightPadding::middle_dot(String::from("x"), 2), "x·");
}

#[test]
fn right_padding_leaves_long_strings_alone() {
    assert_eq!(RightPadding::space(String::from("abc"), 2), "abc");
    assert_eq!(RightPadding::dot(String::from("abc"), 3), "abc");
}

#[test]
fn right_padding_counts_characters_not_bytes() {
    // two characters, six bytes: still padded by one
    assert_eq!(RightPadding::space(String::from("──"), 3), "── ");
}

#[test]
fn indent_string_repeats_the_indent_column() {
    assert_eq!(indent_string(0, String::from("f.jpg")), " └── f.jpg");
    assert_eq!(indent_string(2, String::from("f.jpg")), " |    |    └── f.jpg");
    assert_eq!(
        indent_string(1, String::from("x")),
        format!("{}{}x", FILE_TREE_INDENT, FILE_TREE_ENTRY)
    );
}

#[test]
fn separators_are_fixed() {
    assert_eq!(SEPARATOR_STATUS, "...");
    assert_eq!(SEPARATOR_DRY_RUN, "--->");
    assert_eq!(SEPARATOR_COPY_MOVE, "──>");
}
