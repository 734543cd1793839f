use goose_cli::lines::{Color, Line, Span, Style};
use goose_cli::output::{extend_outputs, extend_with_lines, line_of, nothing, push_output, Output};
use goose_cli::render::{permission_for, sanitize, Permission};
use goose_cli::session::{SessionOutput, ThinkingIndicator};
use goose_cli::spacing::ContentType;
use goose_cli::theme::Theme;

fn span(style: Style, text: &str) -> Span {
    Span { style, text: text.to_string() }
}

fn plain(text: &str) -> Span {
    span(Style::plain(), text)
}

fn line(spans: Vec<Span>) -> Output {
    Output::Line(Line { spans })
}

fn blank() -> Output {
    Output::Line(Line { spans: Vec::new() })
}

fn session() -> SessionOutput {
    SessionOutput::new(None, None, None)
}

fn after(kind: ContentType) -> SessionOutput {
    let mut out = session();
    out.handle_spacing(kind);
    out
}

#[test]
fn test_toggle_full_tool_output() {
    let mut output = SessionOutput::new(None, None, None);
    let initial = output.get_show_full_tool_output();

    let after_first_toggle = output.toggle_full_tool_output();
    assert_eq!(after_first_toggle, !initial);
    assert_eq!(output.get_show_full_tool_output(), after_first_toggle);

    let after_second_toggle = output.toggle_full_tool_output();
    assert_eq!(after_second_toggle, initial);
    assert_eq!(output.get_show_full_tool_output(), initial);
}

#[test]
fn new_session_starts_empty() {
    let output = session();
    assert_eq!(output.get_theme(), Theme::Ansi);
    assert!(!output.get_show_full_tool_output());
    assert_eq!(output.last_rendered, ContentType::Empty);
    assert!(!output.is_showing_thinking());
    assert!(!output.quiet);
    assert_eq!(output.text_messages, "");
}

#[test]
fn new_session_takes_the_configured_theme_before_that_of_the_environment() {
    assert_eq!(SessionOutput::new(Some("light"), Some("dark"), None).get_theme(), Theme::Light);
    assert_eq!(SessionOutput::new(Some("nonsense"), Some("light"), None).get_theme(), Theme::Dark);
    assert_eq!(SessionOutput::new(None, Some("LIGHT"), None).get_theme(), Theme::Light);
    assert_eq!(SessionOutput::new(None, Some("ansi"), None).get_theme(), Theme::Ansi);
    assert_eq!(SessionOutput::new(None, Some("other"), None).get_theme(), Theme::Dark);
    assert_eq!(SessionOutput::new(None, None, None).get_theme(), Theme::Ansi);
}

#[test]
fn new_session_takes_the_configured_toggle() {
    assert!(SessionOutput::new(None, None, Some(true)).get_show_full_tool_output());
    assert!(!SessionOutput::new(None, None, Some(false)).get_show_full_tool_output());
}

#[test]
fn with_quiet_and_set_theme_change_one_field() {
    let mut output = session().with_quiet(true);
    assert!(output.quiet);
    assert_eq!(output.get_theme(), Theme::Ansi);
    output.set_theme(Theme::Light);
    assert_eq!(output.get_theme(), Theme::Light);
    assert!(output.quiet);
    let output = output.with_quiet(false);
    assert!(!output.quiet);
    assert_eq!(output.get_theme(), Theme::Light);
}

#[test]
fn handle_spacing_puts_out_the_separator_and_moves_on() {
    let mut output = session();
    assert_eq!(output.handle_spacing(ContentType::Text), Vec::new());
    assert_eq!(output.last_rendered, ContentType::Text);
    assert_eq!(output.handle_spacing(ContentType::ToolCall), vec![blank()]);
    assert_eq!(output.handle_spacing(ContentType::ToolResponse), Vec::new());
    assert_eq!(output.last_rendered, ContentType::ToolResponse);
    assert_eq!(output.handle_spacing(ContentType::Header), vec![blank()]);
    assert_eq!(output.handle_spacing(ContentType::Empty), vec![blank()]);
    assert_eq!(output.handle_spacing(ContentType::Header), Vec::new());
    assert_eq!(output.last_rendered, ContentType::Header);
}

#[test]
fn thinking_indicator_starts_and_stops_once() {
    let mut indicator = ThinkingIndicator::new();
    assert!(!indicator.is_shown());
    assert_eq!(indicator.dismiss(), None);
    assert_eq!(indicator.show(), Some(Output::StartThinking("Thinking...".to_string())));
    assert!(indicator.is_shown());
    assert_eq!(indicator.show(), None);
    assert!(indicator.is_shown());
    assert_eq!(indicator.dismiss(), Some(Output::StopThinking("Thinking...".to_string())));
    assert!(!indicator.is_shown());
    assert_eq!(indicator.dismiss(), None);
}

#[test]
fn thinking_is_shown_on_a_terminal_only() {
    let mut output = session();
    assert_eq!(output.show_thinking(false), Vec::new());
    assert!(!output.is_showing_thinking());
    assert_eq!(output.set_thinking_message("working", true), Vec::new());
    assert_eq!(output.show_thinking(true), vec![Output::StartThinking("Thinking...".to_string())]);
    assert!(output.is_showing_thinking());
    assert_eq!(output.show_thinking(true), Vec::new());
    assert_eq!(output.set_thinking_message("working", true), vec![Output::ThinkingMessage("working".to_string())]);
    assert_eq!(output.set_thinking_message("working", false), Vec::new());
    assert_eq!(output.hide_thinking(false), Vec::new());
    assert!(output.is_showing_thinking());
    assert_eq!(output.hide_thinking(true), vec![Output::StopThinking("Thinking...".to_string())]);
    assert!(!output.is_showing_thinking());
    assert_eq!(output.hide_thinking(true), Vec::new());
}

#[test]
fn markdown_goes_to_the_highlighter_on_a_terminal() {
    let mut output = session();
    output.set_theme(Theme::Dark);
    assert_eq!(output.print_markdown("# Title", true), vec![Output::Markdown("# Title".to_string(), Theme::Dark)]);
    assert_eq!(output.print_markdown("# Title", false), vec![line(vec![plain("# Title")])]);
    let quiet = output.with_quiet(true);
    assert_eq!(quiet.print_markdown("# Title", true), Vec::new());
    assert_eq!(quiet.print_markdown("# Title", false), Vec::new());
}

#[test]
fn finish_renders_the_kept_text_and_forgets_it() {
    let mut output = after(ContentType::ToolResponse);
    output.buffer_text_message("Hello ");
    output.buffer_text_message("world");
    assert_eq!(output.text_messages, "Hello world");
    assert_eq!(
        output.finish(true),
        vec![blank(), Output::Markdown("Hello world".to_string(), Theme::Ansi)]
    );
    assert_eq!(output.text_messages, "");
    assert_eq!(output.last_rendered, ContentType::Text);
    assert_eq!(output.finish(false), vec![blank(), line(vec![plain("")])]);
}

#[test]
fn finish_in_a_quiet_session_keeps_the_text() {
    let mut output = session().with_quiet(true);
    output.buffer_text_message("kept");
    assert_eq!(output.finish(true), Vec::new());
    assert_eq!(output.text_messages, "kept");
    assert_eq!(output.last_rendered, ContentType::Empty);
}

#[test]
fn raw_text_is_green_unless_a_colour_is_given() {
    let output = session();
    assert_eq!(
        output.render_text_raw("hi", None, false, true),
        vec![Output::Inline(Line { spans: vec![span(Style::plain().fg(Color::Green), "hi")] })]
    );
    assert_eq!(
        output.render_text_raw("hi", Some(Color::Magenta), true, true),
        vec![Output::Inline(Line { spans: vec![span(Style::plain().dim().fg(Color::Magenta), "hi")] })]
    );
    assert_eq!(
        output.render_text_raw("hi", None, true, true),
        vec![Output::Inline(Line { spans: vec![span(Style::plain().dim().fg(Color::Green), "hi")] })]
    );
    assert_eq!(output.render_text_raw("hi", Some(Color::Magenta), true, false), vec![line(vec![plain("hi")])]);
    assert_eq!(session().with_quiet(true).render_text_raw("hi", None, false, true), Vec::new());
}

#[test]
fn render_text_is_a_text_block() {
    let mut output = after(ContentType::System);
    assert_eq!(
        output.render_text("hi", Some(Color::Cyan), false, true),
        vec![blank(), Output::Inline(Line { spans: vec![span(Style::plain().fg(Color::Cyan), "hi")] })]
    );
    assert_eq!(output.last_rendered, ContentType::Text);
    let mut quiet = after(ContentType::System).with_quiet(true);
    assert_eq!(quiet.render_text("hi", None, false, true), Vec::new());
    assert_eq!(quiet.last_rendered, ContentType::System);
}

#[test]
fn render_block_puts_the_separator_before_the_content() {
    let mut output = after(ContentType::Text);
    let content = vec![line(vec![plain("a")]), line(vec![plain("b")])];
    assert_eq!(
        output.render_block(ContentType::Prompt, content),
        vec![blank(), line(vec![plain("a")]), line(vec![plain("b")])]
    );
    assert_eq!(output.last_rendered, ContentType::Prompt);
}

#[test]
fn outputs_are_added_at_the_end() {
    let mut outputs = nothing();
    assert_eq!(outputs, Vec::new());
    push_output(&mut outputs, Output::Flush);
    extend_outputs(&mut outputs, vec![Output::ThinkingMessage("m".to_string()), Output::Flush]);
    extend_with_lines(
        &mut outputs,
        vec![line_of(Style::plain(), "1"), line_of(Style::plain().bold(), "2"), line_of(Style::plain(), "3")],
    );
    extend_with_lines(&mut outputs, Vec::new());
    assert_eq!(
        outputs,
        vec![
            Output::Flush,
            Output::ThinkingMessage("m".to_string()),
            Output::Flush,
            line(vec![plain("1")]),
            line(vec![span(Style::plain().bold(), "2")]),
            line(vec![plain("3")]),
        ]
    );
}

#[test]
fn sanitize_leaves_control_characters_out() {
    assert_eq!(sanitize("project"), "project");
    assert_eq!(sanitize("a\u{1b}]0;evil\u{7}b"), "a]0;evilb");
    assert_eq!(sanitize("\u{0}\u{1f}\u{7f}\u{80}\u{9f}"), "");
    assert_eq!(sanitize(" \u{a0}~\u{1fabf}"), " \u{a0}~\u{1fabf}");
    assert_eq!(sanitize(""), "");
    let mixed = "t\tab\nline\r\u{85}x";
    let expected: String = mixed.chars().filter(|c| !c.is_control()).collect();
    assert_eq!(sanitize(mixed), expected);
}

#[test]
fn confirmation_allows_once_or_cancels() {
    assert_eq!(permission_for(true), Permission::AllowOnce);
    assert_eq!(permission_for(false), Permission::Cancel);
}
