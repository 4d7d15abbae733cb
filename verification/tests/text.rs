use jsi_daemon::text::{blank, same_text, split_first_word, trim, trim_end, trim_start};

#[test]
fn blanks_are_space_tab_and_line_ends() {
    assert!(blank(' '));
    assert!(blank('\t'));
    assert!(blank('\n'));
    assert!(blank('\r'));
    assert!(!blank('a'));
    assert!(!blank('\u{a0}'));
    assert!(!blank('\u{b}'));
    assert!(!blank('\0'));
}

#[test]
fn trim_start_drops_leading_blanks_only() {
    assert_eq!(trim_start("  a b "), "a b ");
    assert_eq!(trim_start("a"), "a");
    assert_eq!(trim_start(" \t\n"), "");
    assert_eq!(trim_start(""), "");
    assert_eq!(trim_start(" é "), "é ");
}

#[test]
fn trim_end_drops_trailing_blanks_only() {
    assert_eq!(trim_end("  a b \r\n"), "  a b");
    assert_eq!(trim_end("a"), "a");
    assert_eq!(trim_end(" \t\n"), "");
    assert_eq!(trim_end(""), "");
    assert_eq!(trim_end(" é \u{a0} "), " é \u{a0}");
}

#[test]
fn trim_drops_blanks_at_both_ends() {
    assert_eq!(trim(" \ta  b\n"), "a  b");
    assert_eq!(trim("   "), "");
    assert_eq!(trim("日本 語 "), "日本 語");
}

#[test]
fn split_first_word_cuts_before_the_first_blank() {
    assert_eq!(split_first_word("load  a b"), ("load", "  a b"));
    assert_eq!(split_first_word("ping"), ("ping", ""));
    assert_eq!(split_first_word(" ping"), ("", " ping"));
    assert_eq!(split_first_word(""), ("", ""));
    assert_eq!(split_first_word("é\tü"), ("é", "\tü"));
}

#[test]
fn same_text_compares_characters() {
    assert!(same_text("ping", "ping"));
    assert!(same_text("", ""));
    assert!(!same_text("ping", "pong"));
    assert!(!same_text("ping", "pin"));
    assert!(!same_text("é", "e"));
}
