use goose_cli::decimal::decimal;
use goose_cli::spacing::{spacing, ContentType};
use goose_cli::text::{
    contains_char, join, last_piece, repeat, same_text, split_pieces, truncate,
};
use goose_cli::theme::{
    eq_ignore_ascii_case, Theme, DEFAULT_CLI_DARK_THEME, DEFAULT_CLI_LIGHT_THEME,
};

const KINDS: [ContentType; 8] = [
    ContentType::Empty,
    ContentType::Text,
    ContentType::ToolCall,
    ContentType::ToolResponse,
    ContentType::System,
    ContentType::Prompt,
    ContentType::Header,
    ContentType::Error,
];

#[test]
fn truncate_keeps_a_text_that_fits() {
    assert_eq!(truncate("hello", 5), "hello");
    assert_eq!(truncate("hello", 6), "hello");
    assert_eq!(truncate("hello", usize::MAX), "hello");
    assert_eq!(truncate("", 0), "");
    assert_eq!(truncate("", 3), "");
}

#[test]
fn truncate_cuts_to_the_width_and_adds_nothing() {
    assert_eq!(truncate("hello world", 5), "hello");
    assert_eq!(truncate("hello", 4), "hell");
    assert_eq!(truncate("hello", 1), "h");
    assert_eq!(truncate("hello", 0), "");
}

#[test]
fn truncate_counts_characters_and_keeps_them_whole() {
    let text = "h\u{e9}llo \u{1fabf} w\u{f6}rld";
    assert_eq!(text.chars().count(), 13);
    assert_eq!(truncate(text, 13), text);
    assert_eq!(truncate(text, 2), "h\u{e9}");
    assert_eq!(truncate(text, 7), "h\u{e9}llo \u{1fabf}");
    for width in 0..16usize {
        let cut = truncate(text, width);
        assert_eq!(cut.chars().count(), width.min(13));
        assert!(text.starts_with(&cut));
        assert!(text.is_char_boundary(cut.len()));
    }
}

#[test]
fn repeat_writes_the_unit_that_many_times() {
    assert_eq!(repeat("  ", 0), "");
    assert_eq!(repeat("  ", 1), "  ");
    assert_eq!(repeat("ab", 3), "ababab");
    assert_eq!(repeat("", 5), "");
    assert_eq!(repeat("\u{2501}", 4), "\u{2501}\u{2501}\u{2501}\u{2501}");
}

#[test]
fn join_puts_the_separator_between_neighbours() {
    assert_eq!(join(&Vec::new(), ", "), "");
    assert_eq!(join(&vec!["a".to_string()], ", "), "a");
    assert_eq!(join(&vec!["a".to_string(), "b".to_string(), "c".to_string()], ", "), "a, b, c");
    assert_eq!(join(&vec!["".to_string(), "".to_string()], "/"), "/");
}

#[test]
fn split_pieces_keeps_empty_pieces() {
    assert_eq!(split_pieces("", '/'), vec![""]);
    assert_eq!(split_pieces("abc", '/'), vec!["abc"]);
    assert_eq!(split_pieces("/a//b/", '/'), vec!["", "a", "", "b", ""]);
    assert_eq!(split_pieces("a_b_c", '_'), vec!["a", "b", "c"]);
    assert_eq!(split_pieces("\u{e9}/\u{1fabf}", '/'), vec!["\u{e9}", "\u{1fabf}"]);
}

#[test]
fn last_piece_stands_behind_the_last_separator() {
    assert_eq!(last_piece("subagent_task_42", '_'), "42");
    assert_eq!(last_piece("plain", '_'), "plain");
    assert_eq!(last_piece("ends_", '_'), "");
    assert_eq!(last_piece("", '_'), "");
}

#[test]
fn contains_char_finds_a_character() {
    assert!(contains_char("a,b", ','));
    assert!(contains_char(",", ','));
    assert!(!contains_char("ab", ','));
    assert!(!contains_char("", ','));
    assert!(contains_char("x\u{1fabf}", '\u{1fabf}'));
}

#[test]
fn same_text_compares_whole_texts() {
    assert!(same_text("delegate", "delegate"));
    assert!(!same_text("delegate", "delegates"));
    assert!(!same_text("Delegate", "delegate"));
    assert!(same_text("", ""));
}

#[test]
fn decimal_writes_digits_without_leading_zeros() {
    assert_eq!(decimal(0), "0");
    assert_eq!(decimal(7), "7");
    assert_eq!(decimal(10), "10");
    assert_eq!(decimal(1203), "1203");
    assert_eq!(decimal(18446744073709551615), "18446744073709551615");
    assert_eq!(decimal(18446744073709551616), "18446744073709551616");
    assert_eq!(decimal(u128::MAX), u128::MAX.to_string());
}

#[test]
fn spacing_follows_the_table() {
    for prev in KINDS {
        for next in KINDS {
            let expected = if prev == ContentType::Empty {
                false
            } else if prev == ContentType::Header || next == ContentType::Header {
                true
            } else {
                !(prev == ContentType::ToolCall && next == ContentType::ToolResponse)
            };
            assert_eq!(spacing(prev, next), (expected, next));
        }
    }
}

#[test]
fn spacing_at_the_start_emits_nothing() {
    for next in KINDS {
        assert_eq!(spacing(ContentType::Empty, next), (false, next));
    }
}

#[test]
fn spacing_keeps_a_response_next_to_its_call() {
    assert_eq!(spacing(ContentType::ToolCall, ContentType::ToolResponse), (false, ContentType::ToolResponse));
    assert_eq!(spacing(ContentType::ToolResponse, ContentType::ToolCall), (true, ContentType::ToolCall));
    assert_eq!(spacing(ContentType::ToolCall, ContentType::ToolCall), (true, ContentType::ToolCall));
}

#[test]
fn spacing_sets_a_header_apart() {
    for kind in KINDS {
        assert_eq!(spacing(ContentType::Header, kind), (true, kind));
        if kind != ContentType::Empty {
            assert_eq!(spacing(kind, ContentType::Header), (true, ContentType::Header));
        }
    }
    assert_eq!(spacing(ContentType::Empty, ContentType::Header), (false, ContentType::Header));
}

#[test]
fn theme_of_a_configured_value() {
    assert_eq!(Theme::from_config_str("light"), Theme::Light);
    assert_eq!(Theme::from_config_str("LIGHT"), Theme::Light);
    assert_eq!(Theme::from_config_str("LiGhT"), Theme::Light);
    assert_eq!(Theme::from_config_str("ansi"), Theme::Ansi);
    assert_eq!(Theme::from_config_str("Ansi"), Theme::Ansi);
    assert_eq!(Theme::from_config_str("dark"), Theme::Dark);
    assert_eq!(Theme::from_config_str(""), Theme::Dark);
    assert_eq!(Theme::from_config_str("light "), Theme::Dark);
    assert_eq!(Theme::from_config_str("l\u{131}ght"), Theme::Dark);
    assert_eq!(Theme::from_config_str("solarized"), Theme::Dark);
}

#[test]
fn theme_round_trips_through_its_configured_value() {
    assert_eq!(Theme::Light.as_config_string(), "light");
    assert_eq!(Theme::Dark.as_config_string(), "dark");
    assert_eq!(Theme::Ansi.as_config_string(), "ansi");
    for theme in [Theme::Light, Theme::Dark, Theme::Ansi] {
        assert_eq!(Theme::from_config_str(&theme.as_config_string()), theme);
    }
}

#[test]
fn syntax_theme_is_the_configured_one_or_the_default() {
    assert_eq!(DEFAULT_CLI_LIGHT_THEME, "GitHub");
    assert_eq!(DEFAULT_CLI_DARK_THEME, "zenburn");
    assert_eq!(Theme::Light.as_str(None, None), "GitHub");
    assert_eq!(Theme::Dark.as_str(None, None), "zenburn");
    assert_eq!(Theme::Ansi.as_str(None, None), "base16");
    assert_eq!(Theme::Light.as_str(Some("Solarized (light)"), Some("Nord")), "Solarized (light)");
    assert_eq!(Theme::Dark.as_str(Some("Solarized (light)"), Some("Nord")), "Nord");
    assert_eq!(Theme::Ansi.as_str(Some("Solarized (light)"), Some("Nord")), "base16");
}

#[test]
fn ascii_case_is_ignored_and_no_other() {
    assert!(eq_ignore_ascii_case("Hello World", "hELLO wORLD"));
    assert!(eq_ignore_ascii_case("", ""));
    assert!(!eq_ignore_ascii_case("a", "ab"));
    assert!(!eq_ignore_ascii_case("\u{e9}", "\u{c9}"));
    assert!(!eq_ignore_ascii_case("@", "`"));
    assert!(!eq_ignore_ascii_case("[", "{"));
    assert_eq!(eq_ignore_ascii_case("Stra\u{df}e", "STRA\u{df}E"), "Stra\u{df}e".eq_ignore_ascii_case("STRA\u{df}E"));
}
