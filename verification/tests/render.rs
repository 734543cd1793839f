use goose_cli::lines::{Color, Line, Span, Style};
use goose_cli::output::Output;
use goose_cli::session::SessionOutput;
use goose_cli::spacing::ContentType;

fn span(style: Style, text: &str) -> Span {
    Span { style, text: text.to_string() }
}

fn plain(text: &str) -> Span {
    span(Style::plain(), text)
}

fn dim(text: &str) -> Span {
    span(Style::plain().dim(), text)
}

fn fg(color: Color, text: &str) -> Span {
    span(Style::plain().fg(color), text)
}

fn line(spans: Vec<Span>) -> Output {
    Output::Line(Line { spans })
}

fn blank() -> Output {
    Output::Line(Line { spans: Vec::new() })
}

fn after(kind: ContentType) -> SessionOutput {
    let mut out = SessionOutput::new(None, None, None);
    out.handle_spacing(kind);
    out
}

fn quiet_after(kind: ContentType) -> SessionOutput {
    after(kind).with_quiet(true)
}

#[test]
fn tool_header_names_the_tool() {
    let output = after(ContentType::Text);
    assert_eq!(
        output.print_tool_header("developer__shell"),
        vec![line(vec![plain("  "), dim("\u{25b8}"), plain(" "), dim("developer__shell")])]
    );
    assert_eq!(quiet_after(ContentType::Text).print_tool_header("developer__shell"), Vec::new());
}

#[test]
fn subagent_message_names_the_short_identifier() {
    let output = after(ContentType::Empty);
    assert_eq!(output.format_subagent_tool_call_message("subagent_task_42", "shell"), "[subagent:42] shell");
    assert_eq!(output.format_subagent_tool_call_message("solo", "shell"), "[subagent:solo] shell");
    assert_eq!(output.format_subagent_tool_call_message("trailing_", ""), "[subagent:] ");
}

#[test]
fn confirmation_prompt_with_and_without_a_warning() {
    let output = after(ContentType::Empty);
    let (shown, question) = output.prompt_tool_confirmation(&None);
    assert_eq!(shown, Vec::new());
    assert_eq!(question, "Goose would like to call the above tool, do you allow?");
    let (shown, question) = output.prompt_tool_confirmation(&Some("This call deletes files.".to_string()));
    assert_eq!(shown, vec![line(vec![plain("\n"), plain("This call deletes files.")])]);
    assert_eq!(question, "Do you allow this tool call?");
}

#[test]
fn error_is_rendered_in_a_quiet_session_too() {
    let expected = vec![
        blank(),
        line(vec![plain("  "), span(Style::plain().fg(Color::Red).bold(), "error:"), plain(" "), plain("it broke")]),
    ];
    let mut output = after(ContentType::Text);
    assert_eq!(output.render_error("it broke"), expected);
    assert_eq!(output.last_rendered, ContentType::Error);
    let mut quiet = quiet_after(ContentType::Text);
    assert_eq!(quiet.render_error("it broke"), expected);
    assert_eq!(quiet.last_rendered, ContentType::Error);
}

#[test]
fn header_is_bold_and_set_apart() {
    let mut output = after(ContentType::ToolCall);
    assert_eq!(output.render_header("Title"), vec![blank(), line(vec![span(Style::plain().bold(), "Title")])]);
    assert_eq!(output.last_rendered, ContentType::Header);
    assert_eq!(output.render_header("Next"), vec![blank(), line(vec![span(Style::plain().bold(), "Next")])]);
    let mut first = after(ContentType::Empty);
    assert_eq!(first.render_header("Title"), vec![line(vec![span(Style::plain().bold(), "Title")])]);
    let mut quiet = quiet_after(ContentType::ToolCall);
    assert_eq!(quiet.render_header("Title"), Vec::new());
    assert_eq!(quiet.last_rendered, ContentType::ToolCall);
}

#[test]
fn plan_mode_notices() {
    let mut output = after(ContentType::Empty);
    assert_eq!(
        output.render_enter_plan_mode(),
        vec![line(vec![
            span(Style::plain().fg(Color::Green).bold(), "Entering plan mode."),
            plain(" "),
            span(
                Style::plain().fg(Color::Green).dim(),
                "You can provide instructions to create a plan and then act on it. To exit early, type /endplan"
            ),
        ])]
    );
    assert_eq!(output.last_rendered, ContentType::System);
    assert_eq!(
        output.render_act_on_plan(),
        vec![
            blank(),
            line(vec![span(Style::plain().fg(Color::Green).bold(), "Exiting plan mode and acting on the above plan")]),
        ]
    );
    assert_eq!(
        output.render_exit_plan_mode(),
        vec![blank(), line(vec![span(Style::plain().fg(Color::Green).bold(), "Exiting plan mode.")])]
    );
    let mut quiet = quiet_after(ContentType::Text);
    assert_eq!(quiet.render_enter_plan_mode(), Vec::new());
    assert_eq!(quiet.render_act_on_plan(), Vec::new());
    assert_eq!(quiet.render_exit_plan_mode(), Vec::new());
    assert_eq!(quiet.last_rendered, ContentType::Text);
}

#[test]
fn mode_message_is_yellow() {
    let mut output = after(ContentType::System);
    assert_eq!(output.goose_mode_message("auto"), vec![blank(), line(vec![fg(Color::Yellow, "auto")])]);
    assert_eq!(quiet_after(ContentType::System).goose_mode_message("auto"), Vec::new());
}

#[test]
fn extension_success_and_error() {
    let mut output = after(ContentType::Text);
    assert_eq!(
        output.render_extension_success("memory"),
        vec![
            blank(),
            line(vec![plain("  "), fg(Color::Green, "added"), plain(" extension `"), fg(Color::Cyan, "memory"), plain("`")]),
        ]
    );
    assert_eq!(output.last_rendered, ContentType::System);
    assert_eq!(
        output.render_extension_error("memory", "no such file"),
        vec![
            blank(),
            line(vec![plain("  "), fg(Color::Red, "failed"), plain(" to add extension "), fg(Color::Red, "memory")]),
            line(vec![dim("no such file")]),
        ]
    );
    assert_eq!(output.last_rendered, ContentType::Error);
    let mut quiet = quiet_after(ContentType::Empty);
    assert_eq!(quiet.render_extension_success("memory"), Vec::new());
    assert_eq!(
        quiet.render_extension_error("memory", "no such file"),
        vec![
            line(vec![plain("  "), fg(Color::Red, "failed"), plain(" to add extension "), fg(Color::Red, "memory")]),
            line(vec![dim("no such file")]),
        ]
    );
}

#[test]
fn builtins_are_several_where_a_comma_stands_between_them() {
    let mut output = after(ContentType::Empty);
    assert_eq!(
        output.render_builtin_success("developer"),
        vec![line(vec![
            plain("  "),
            fg(Color::Green, "added"),
            plain(" builtin"),
            plain(""),
            plain(": "),
            fg(Color::Cyan, "developer"),
        ])]
    );
    assert_eq!(
        output.render_builtin_success("developer,memory"),
        vec![
            blank(),
            line(vec![
                plain("  "),
                fg(Color::Green, "added"),
                plain(" builtin"),
                plain("s"),
                plain(": "),
                fg(Color::Cyan, "developer,memory"),
            ]),
        ]
    );
    assert_eq!(
        output.render_builtin_error("a,b", "boom"),
        vec![
            blank(),
            line(vec![
                plain("  "),
                fg(Color::Red, "failed"),
                plain(" to add builtin"),
                plain("s"),
                plain(": "),
                fg(Color::Red, "a,b"),
            ]),
            line(vec![dim("boom")]),
        ]
    );
    assert_eq!(
        output.render_builtin_error("a", "boom"),
        vec![
            blank(),
            line(vec![
                plain("  "),
                fg(Color::Red, "failed"),
                plain(" to add builtin"),
                plain(""),
                plain(": "),
                fg(Color::Red, "a"),
            ]),
            line(vec![dim("boom")]),
        ]
    );
    assert_eq!(quiet_after(ContentType::Empty).render_builtin_success("developer"), Vec::new());
}

#[test]
fn terminal_title_names_the_directory() {
    let output = after(ContentType::Empty);
    assert_eq!(
        output.set_terminal_title(Some("proj\u{7}ect"), true),
        vec![Output::Inline(Line { spans: vec![plain("\u{1b}]0;\u{1fabf} project\u{7}")] })]
    );
    assert_eq!(
        output.set_terminal_title(None, true),
        vec![Output::Inline(Line { spans: vec![plain("\u{1b}]0;\u{1fabf} \u{7}")] })]
    );
    assert_eq!(output.set_terminal_title(Some("project"), false), Vec::new());
    assert_eq!(quiet_after(ContentType::Empty).set_terminal_title(Some("project"), true), Vec::new());
}

#[test]
fn greeting_sets_the_title_and_says_ready() {
    let greeting = line(vec![
        span(Style::plain().bold(), "\u{1fabf} goose"),
        plain(" "),
        dim("ready \u{2014} type a message to get started"),
    ]);
    let mut output = after(ContentType::Empty);
    assert_eq!(
        output.display_greeting(Some("work"), true),
        vec![Output::Inline(Line { spans: vec![plain("\u{1b}]0;\u{1fabf} work\u{7}")] }), greeting.clone()]
    );
    assert_eq!(output.last_rendered, ContentType::System);
    assert_eq!(output.display_greeting(Some("work"), false), vec![blank(), greeting]);
    let mut quiet = quiet_after(ContentType::Empty);
    assert_eq!(quiet.display_greeting(Some("work"), true), Vec::new());
    assert_eq!(quiet.last_rendered, ContentType::Empty);
}
