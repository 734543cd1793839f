use goose_cli::lines::{Color, Line, Span, Style};
use goose_cli::message::{MessageContent, NotificationKind, Priority, ResponseContent};
use goose_cli::output::Output;
use goose_cli::prompts::{PromptArgument, PromptInfo};
use goose_cli::session::SessionOutput;
use goose_cli::spacing::ContentType;
use goose_cli::status::ContextUsage;
use goose_cli::theme::Theme;
use goose_cli::tool_call::{Environment, ToolCall};
use goose_cli::value::StructuredValue;
use goose_cli::width::RenderBudget;

fn span(style: Style, text: &str) -> Span {
    Span { style, text: text.to_string() }
}

fn plain(text: &str) -> Span {
    span(Style::plain(), text)
}

fn dim(text: &str) -> Span {
    span(Style::plain().dim(), text)
}

fn fg(color: Color, text: &str) -> Span {
    span(Style::plain().fg(color), text)
}

fn line(spans: Vec<Span>) -> Output {
    Output::Line(Line { spans })
}

fn blank() -> Output {
    Output::Line(Line { spans: Vec::new() })
}

fn markdown(text: &str) -> Output {
    Output::Markdown(text.to_string(), Theme::Ansi)
}

fn session() -> SessionOutput {
    SessionOutput::new(None, None, None)
}

fn environment() -> Environment {
    Environment { is_terminal: true, budget: RenderBudget::unknown(), home: None, show_thinking: false }
}

fn piece(for_user: bool, priority: Priority, text: Option<&str>) -> ResponseContent {
    ResponseContent {
        for_user,
        priority,
        text: text.map(|t| t.to_string()),
        debug_form: format!("Debug({:?})", text),
    }
}

fn thinking_label() -> Output {
    line(vec![span(Style::plain().dim().italic(), "Thinking:")])
}

#[test]
fn response_shows_the_pieces_for_the_user_with_enough_priority() {
    let response = Ok(vec![
        piece(true, Priority::Sufficient, Some("shown")),
        piece(false, Priority::Sufficient, Some("for the assistant")),
        piece(true, Priority::BelowMinimum, Some("too low")),
        piece(true, Priority::Unset, Some("no priority")),
        piece(true, Priority::Sufficient, None),
        piece(true, Priority::Sufficient, Some("also shown")),
    ]);
    assert_eq!(session().render_tool_response(&response, false, true), vec![markdown("shown"), markdown("also shown")]);
    assert_eq!(
        session().render_tool_response(&response, false, false),
        vec![line(vec![plain("shown")]), line(vec![plain("also shown")])]
    );
}

#[test]
fn response_in_debug_shows_debug_forms_and_pieces_without_priority() {
    let response = Ok(vec![
        piece(true, Priority::Sufficient, Some("shown")),
        piece(false, Priority::Unset, Some("for the assistant")),
        piece(true, Priority::BelowMinimum, Some("too low")),
        piece(true, Priority::Unset, Some("no priority")),
        piece(true, Priority::Sufficient, None),
    ]);
    assert_eq!(
        session().render_tool_response(&response, true, true),
        vec![
            line(vec![plain("Debug(Some(\"shown\"))")]),
            line(vec![plain("Debug(Some(\"no priority\"))")]),
            line(vec![plain("Debug(None)")]),
        ]
    );
}

#[test]
fn response_that_failed_is_rendered_as_markdown() {
    let response: Result<Vec<ResponseContent>, String> = Err("tool crashed".to_string());
    assert_eq!(session().render_tool_response(&response, false, true), vec![markdown("tool crashed")]);
    assert_eq!(session().with_quiet(true).render_tool_response(&response, false, true), Vec::new());
    assert_eq!(session().render_tool_response(&Ok(Vec::new()), false, true), Vec::new());
}

#[test]
fn message_keeps_texts_and_renders_calls_next_to_their_responses() {
    let contents = vec![
        MessageContent::Text("I will list ".to_string()),
        MessageContent::ToolRequest(Ok(ToolCall {
            name: "developer__shell".to_string(),
            arguments: Some(vec![("command".to_string(), StructuredValue::Text("ls".to_string()))]),
        })),
        MessageContent::ToolResponse(Ok(vec![piece(true, Priority::Sufficient, Some("a.txt"))])),
        MessageContent::Text("the files.".to_string()),
        MessageContent::ActionRequired,
    ];
    let mut output = session();
    output.handle_spacing(ContentType::Text);
    assert_eq!(
        output.render_message(&contents, false, &environment()),
        vec![
            blank(),
            line(vec![plain("  "), dim("\u{25b8}"), plain(" "), dim("developer__shell")]),
            line(vec![plain("  "), dim("command"), plain(": "), fg(Color::Green, "ls")]),
            markdown("a.txt"),
            Output::Flush,
        ]
    );
    assert_eq!(output.text_messages, "I will list the files.");
    assert_eq!(output.last_rendered, ContentType::ToolResponse);
    assert_eq!(
        output.finish(true),
        vec![blank(), markdown("I will list the files.")]
    );
}

#[test]
fn message_in_a_quiet_session_changes_nothing() {
    let contents = vec![MessageContent::Text("kept?".to_string()), MessageContent::Other];
    let mut output = session().with_quiet(true);
    assert_eq!(output.render_message(&contents, false, &environment()), Vec::new());
    assert_eq!(output.text_messages, "");
    assert_eq!(output.last_rendered, ContentType::Empty);
}

#[test]
fn empty_message_flushes() {
    let mut output = session();
    assert_eq!(output.render_message(&Vec::new(), false, &environment()), vec![Output::Flush]);
    assert_eq!(output.last_rendered, ContentType::Empty);
}

#[test]
fn image_is_a_text_block() {
    let mut output = session();
    output.handle_spacing(ContentType::System);
    assert_eq!(
        output.render_content(&MessageContent::Image("aGVsbG8=".to_string(), "image/png".to_string()), false, &environment()),
        vec![
            blank(),
            line(vec![plain("Image: [data: "), plain("aGVsbG8="), plain(", type: "), plain("image/png"), plain("]")]),
        ]
    );
    assert_eq!(output.last_rendered, ContentType::Text);
}

#[test]
fn thoughts_are_shown_on_a_terminal_where_asked_for() {
    let content = MessageContent::Thinking("hmm".to_string());
    let mut output = session();
    assert_eq!(output.render_content(&content, false, &environment()), Vec::new());
    assert_eq!(output.last_rendered, ContentType::Empty);
    let piped = Environment { is_terminal: false, show_thinking: true, ..environment() };
    assert_eq!(output.render_content(&content, false, &piped), Vec::new());
    let shown = Environment { show_thinking: true, ..environment() };
    assert_eq!(output.render_content(&content, false, &shown), vec![thinking_label(), markdown("hmm")]);
    assert_eq!(output.last_rendered, ContentType::System);
}

#[test]
fn redacted_thoughts_are_always_announced() {
    let mut output = session();
    output.handle_spacing(ContentType::Text);
    assert_eq!(
        output.render_content(&MessageContent::RedactedThinking, false, &environment()),
        vec![blank(), thinking_label(), markdown("Thinking was redacted")]
    );
    let piped = Environment { is_terminal: false, ..environment() };
    assert_eq!(
        output.render_content(&MessageContent::RedactedThinking, false, &piped),
        vec![blank(), thinking_label(), line(vec![plain("Thinking was redacted")])]
    );
}

#[test]
fn notifications_drive_the_progress_indicator() {
    let thinking = MessageContent::SystemNotification(NotificationKind::ThinkingMessage, "compacting".to_string());
    let inline = MessageContent::SystemNotification(NotificationKind::InlineMessage, "compacted".to_string());
    let mut output = session();
    output.handle_spacing(ContentType::Text);
    assert_eq!(
        output.render_content(&thinking, false, &environment()),
        vec![Output::StartThinking("Thinking...".to_string()), Output::ThinkingMessage("compacting".to_string())]
    );
    assert!(output.is_showing_thinking());
    assert_eq!(output.last_rendered, ContentType::Text);
    assert_eq!(
        output.render_content(&thinking, false, &environment()),
        vec![Output::ThinkingMessage("compacting".to_string())]
    );
    assert_eq!(
        output.render_content(&inline, false, &environment()),
        vec![Output::StopThinking("Thinking...".to_string()), blank(), line(vec![fg(Color::Yellow, "compacted")])]
    );
    assert!(!output.is_showing_thinking());
    assert_eq!(output.last_rendered, ContentType::System);
    let piped = Environment { is_terminal: false, ..environment() };
    assert_eq!(output.render_content(&thinking, false, &piped), Vec::new());
    assert!(!output.is_showing_thinking());
    assert_eq!(output.render_content(&inline, false, &piped), vec![blank(), line(vec![fg(Color::Yellow, "compacted")])]);
}

#[test]
fn unknown_content_is_a_warning() {
    let mut output = session();
    assert_eq!(
        output.render_content(&MessageContent::Other, false, &environment()),
        vec![line(vec![plain("WARNING: Message content type could not be rendered")])]
    );
    assert_eq!(output.last_rendered, ContentType::Error);
}

#[test]
fn failed_request_in_a_message_is_a_tool_call_block() {
    let contents = vec![MessageContent::ToolRequest(Err("bad call".to_string())), MessageContent::ToolResponse(Err("bad response".to_string()))];
    let mut output = session();
    output.handle_spacing(ContentType::Header);
    assert_eq!(
        output.render_message(&contents, true, &environment()),
        vec![blank(), markdown("bad call"), markdown("bad response"), Output::Flush]
    );
}

#[test]
fn prompts_are_listed_by_extension() {
    let prompts = vec![
        ("developer".to_string(), vec!["review".to_string(), "plan".to_string()]),
        ("empty".to_string(), Vec::new()),
        ("memory".to_string(), vec!["recall".to_string()]),
    ];
    let mut output = session();
    output.handle_spacing(ContentType::Text);
    assert_eq!(
        output.render_prompts(&prompts),
        vec![
            blank(),
            line(vec![plain(" "), fg(Color::Green, "developer")]),
            line(vec![plain("  - "), fg(Color::Cyan, "review")]),
            line(vec![plain("  - "), fg(Color::Cyan, "plan")]),
            line(vec![plain(" "), fg(Color::Green, "empty")]),
            line(vec![plain(" "), fg(Color::Green, "memory")]),
            line(vec![plain("  - "), fg(Color::Cyan, "recall")]),
        ]
    );
    assert_eq!(output.last_rendered, ContentType::Prompt);
    assert_eq!(output.render_prompts(&Vec::new()), vec![blank()]);
    assert_eq!(session().with_quiet(true).render_prompts(&prompts), Vec::new());
}

#[test]
fn prompt_info_shows_what_is_known() {
    let info = PromptInfo {
        name: "review".to_string(),
        description: Some("Reviews a change".to_string()),
        arguments: Some(vec![
            PromptArgument { name: "path".to_string(), description: Some("what to review".to_string()), required: Some(true) },
            PromptArgument { name: "depth".to_string(), description: None, required: Some(false) },
            PromptArgument { name: "style".to_string(), description: Some("".to_string()), required: None },
        ]),
        extension: Some("developer".to_string()),
    };
    let arguments = vec![
        line(vec![plain("\n Arguments:")]),
        line(vec![plain("  "), fg(Color::Yellow, "path"), plain(" "), fg(Color::Red, "(required)"), plain(" "), plain("what to review")]),
        line(vec![plain("  "), fg(Color::Yellow, "depth"), plain(" "), dim("(optional)"), plain(" "), plain("")]),
        line(vec![plain("  "), fg(Color::Yellow, "style"), plain(" "), dim("(optional)"), plain(" "), plain("")]),
    ];
    let mut expected = vec![
        line(vec![plain(" "), fg(Color::Green, "Extension"), plain(": "), plain("developer")]),
        line(vec![plain(" Prompt: "), span(Style::plain().fg(Color::Cyan).bold(), "review")]),
        line(vec![plain("\n "), plain("Reviews a change")]),
    ];
    expected.extend(arguments.clone());
    let mut output = session();
    assert_eq!(output.render_prompt_info(&info), expected);
    assert_eq!(output.last_rendered, ContentType::Prompt);
    assert_eq!(output.render_arguments(&info), arguments);
    assert_eq!(session().with_quiet(true).render_prompt_info(&info), Vec::new());
    assert_eq!(session().with_quiet(true).render_arguments(&info), Vec::new());
}

#[test]
fn prompt_info_with_a_name_only() {
    let info = PromptInfo { name: "bare".to_string(), description: None, arguments: None, extension: None };
    let mut output = session();
    output.handle_spacing(ContentType::Prompt);
    assert_eq!(
        output.render_prompt_info(&info),
        vec![blank(), line(vec![plain(" Prompt: "), span(Style::plain().fg(Color::Cyan).bold(), "bare")])]
    );
    assert_eq!(output.render_arguments(&info), Vec::new());
    let no_arguments = PromptInfo { arguments: Some(Vec::new()), ..info };
    assert_eq!(output.render_arguments(&no_arguments), vec![line(vec![plain("\n Arguments:")])]);
}

#[test]
fn session_info_says_how_the_session_came_about() {
    let first = |status: &str, model: &str| {
        line(vec![
            plain("  "),
            fg(Color::Green, "\u{25cf}"),
            plain(" "),
            dim(status),
            plain(" "),
            dim("\u{b7}"),
            plain(" "),
            dim("anthropic"),
            plain(" "),
            fg(Color::Cyan, model),
        ])
    };
    let id = Some("20261028_1".to_string());
    let mut output = session();
    assert_eq!(
        output.display_session_info(true, "anthropic", "opus", &id, None, Some("/work")),
        vec![
            first("resuming", "opus"),
            line(vec![plain("  "), dim(" "), plain(" "), dim("20261028_1"), plain(" "), dim("\u{b7} /work")]),
        ]
    );
    assert_eq!(output.last_rendered, ContentType::System);
    assert_eq!(
        output.display_session_info(false, "anthropic", "opus", &id, Some(("lead", "worker")), None),
        vec![
            blank(),
            first("new session", "lead \u{2192} worker"),
            line(vec![plain("  "), dim(" "), plain(" "), dim("20261028_1"), plain(" "), dim("\u{b7} unknown")]),
        ]
    );
    assert_eq!(
        output.display_session_info(false, "anthropic", "opus", &None, None, Some("/work")),
        vec![blank(), first("ephemeral", "opus"), line(vec![plain("  "), dim(" "), plain(" "), dim("  /work")])]
    );
    assert_eq!(
        output.display_session_info(true, "anthropic", "opus", &None, None, Some("/work"))[1],
        first("resuming", "opus")
    );
    assert_eq!(
        session().with_quiet(true).display_session_info(true, "anthropic", "opus", &id, None, Some("/work")),
        Vec::new()
    );
}

#[test]
fn context_usage_bar_has_twenty_cells() {
    let usage = |percentage: usize, filled: usize| {
        Some(ContextUsage { percentage, filled, used: "12k".to_string(), limit: "200k".to_string() })
    };
    let bar = |style: Style, filled: usize, share: &str| {
        line(vec![
            plain("  "),
            span(style, &format!("{}{}", "\u{2501}".repeat(filled), "\u{254c}".repeat(20 - filled))),
            plain(" "),
            dim(share),
            plain(" "),
            dim("12k/200k"),
        ])
    };
    let output = session();
    assert_eq!(output.display_context_usage(&usage(6, 1)), vec![bar(Style::plain().fg(Color::Green).dim(), 1, "6%")]);
    assert_eq!(output.display_context_usage(&usage(0, 0)), vec![bar(Style::plain().fg(Color::Green).dim(), 0, "0%")]);
    assert_eq!(output.display_context_usage(&usage(49, 10)), vec![bar(Style::plain().fg(Color::Green).dim(), 10, "49%")]);
    assert_eq!(output.display_context_usage(&usage(50, 10)), vec![bar(Style::plain().fg(Color::Yellow), 10, "50%")]);
    assert_eq!(output.display_context_usage(&usage(84, 17)), vec![bar(Style::plain().fg(Color::Yellow), 17, "84%")]);
    assert_eq!(output.display_context_usage(&usage(85, 17)), vec![bar(Style::plain().fg(Color::Red), 17, "85%")]);
    assert_eq!(output.display_context_usage(&usage(100, 20)), vec![bar(Style::plain().fg(Color::Red), 20, "100%")]);
    assert_eq!(
        output.display_context_usage(&None),
        vec![line(vec![plain("  "), dim("context usage unavailable (context limit is 0)")])]
    );
    assert_eq!(session().with_quiet(true).display_context_usage(&usage(6, 1)), Vec::new());
    assert_eq!(session().with_quiet(true).display_context_usage(&None), Vec::new());
}

#[test]
fn cost_goes_to_standard_error() {
    let output = session();
    assert_eq!(
        output.display_cost_usage(Some("$0.0123"), 1200, 34),
        vec![Output::ErrorLine(Line {
            spans: vec![
                plain("Cost: "),
                fg(Color::Cyan, "$0.0123"),
                plain(" USD ("),
                plain("1234"),
                plain(" tokens: in "),
                plain("1200"),
                plain(", out "),
                plain("34"),
                plain(")"),
            ],
        })]
    );
    assert_eq!(output.display_cost_usage(None, 1200, 34), Vec::new());
    assert_eq!(session().with_quiet(true).display_cost_usage(Some("$0.0123"), 1200, 34), Vec::new());
    let sum = output.display_cost_usage(Some("$1"), usize::MAX, usize::MAX);
    assert_eq!(sum.len(), 1);
}
