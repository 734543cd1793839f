use goose_cli::streaming_buffer::MarkdownBuffer;

#[test]
fn test_basic_buffering() {
    let mut buf = MarkdownBuffer::new();
    assert_eq!(buf.push("Paragraph 1\n"), None);
    assert_eq!(buf.push("\nParagraph 2"), Some("Paragraph 1\n\n".to_string()));
    assert_eq!(buf.flush(), "Paragraph 2".to_string());
}

#[test]
fn test_multiple_empty_lines() {
    let mut buf = MarkdownBuffer::new();
    let output = buf.push("Para 1\n\nPara 2\n\nPara 3");
    assert_eq!(output, Some("Para 1\n\nPara 2\n\n".to_string()));
    assert_eq!(buf.flush(), "Para 3".to_string());
}

#[test]
fn test_no_empty_line() {
    let mut buf = MarkdownBuffer::new();
    assert_eq!(buf.push("Just some text"), None);
    assert_eq!(buf.push(" without empty lines"), None);
    assert_eq!(buf.flush(), "Just some text without empty lines".to_string());
}

#[test]
fn flush_of_an_empty_buffer_is_empty() {
    let mut buf = MarkdownBuffer::new();
    assert_eq!(buf.flush(), String::new());
}

#[test]
fn second_flush_in_a_row_is_empty() {
    let mut buf = MarkdownBuffer::new();
    assert_eq!(buf.push("tail"), None);
    assert_eq!(buf.flush(), "tail".to_string());
    assert_eq!(buf.flush(), String::new());
}

#[test]
fn empty_fragment_changes_nothing() {
    let mut buf = MarkdownBuffer::new();
    assert_eq!(buf.push("line\n"), None);
    assert_eq!(buf.push(""), None);
    assert_eq!(buf.flush(), "line\n".to_string());
}

#[test]
fn whitespace_fragment_completes_a_boundary() {
    let mut buf = MarkdownBuffer::new();
    assert_eq!(buf.push("line\n"), None);
    assert_eq!(buf.push("\n"), Some("line\n\n".to_string()));
    assert_eq!(buf.flush(), String::new());
}

#[test]
fn three_line_breaks_leave_with_the_paragraph() {
    let mut buf = MarkdownBuffer::new();
    assert_eq!(buf.push("a\n\n\nb"), Some("a\n\n\n".to_string()));
    assert_eq!(buf.flush(), "b".to_string());
}

#[test]
fn boundary_split_over_two_pushes_flushes_everything_before_it() {
    let mut buf = MarkdownBuffer::new();
    assert_eq!(buf.push("one\n\ntwo\n"), Some("one\n\n".to_string()));
    assert_eq!(buf.push("\nthree"), Some("two\n\n".to_string()));
    assert_eq!(buf.flush(), "three".to_string());
}

#[test]
fn characters_of_several_bytes_stay_whole() {
    let mut buf = MarkdownBuffer::new();
    assert_eq!(buf.push("h\u{e9}llo \u{1fabf}\n\nw\u{f6}rld"), Some("h\u{e9}llo \u{1fabf}\n\n".to_string()));
    assert_eq!(buf.flush(), "w\u{f6}rld".to_string());
}

#[test]
fn pushes_and_flush_give_back_all_that_came_in() {
    let chunks = ["# Title\n", "\nSome ", "text\n\n\n", "- a\n- b\n", "\n", "end"];
    let mut buf = MarkdownBuffer::new();
    let mut seen = String::new();
    for chunk in chunks {
        if let Some(flushed) = buf.push(chunk) {
            assert!(flushed.ends_with("\n\n"));
            seen.push_str(&flushed);
        }
    }
    seen.push_str(&buf.flush());
    assert_eq!(seen, chunks.concat());
}

#[test]
fn long_text_is_searched_in_one_pass() {
    let mut text = String::new();
    for _ in 0..200_000 {
        text.push_str("word ");
    }
    let mut buf = MarkdownBuffer::new();
    assert_eq!(buf.push(&text), None);
    assert_eq!(buf.push("\n\n"), Some(format!("{}\n\n", text)));
    assert_eq!(buf.flush(), String::new());
}
