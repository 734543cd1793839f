use crate::lines::{Color, Line, SpanView, Style};
use crate::output::{
    extend_outputs, line_of, nothing, push_output, styled, Output, OutputView,
};
use crate::session::SessionOutput;
use crate::spacing::ContentType;
use crate::text::{contains_char, has_char, last_piece, split_on};
use vstd::prelude::*;

verus! {

/// The answer to a request to call a tool.
#[derive(Debug, Clone, Copy, PartialEq, Eq, Structural)]
pub enum Permission {
    AllowOnce,
    Cancel,
}

/// The line of an error.
pub open spec fn error_line(message: Seq<char>) -> Seq<SpanView> {
    seq![
        styled(Style::plain(), "  "@),
        styled(Style::plain().fg(Color::Red).bold(), "error:"@),
        styled(Style::plain(), " "@),
        styled(Style::plain(), message),
    ]
}

/// The line of a header.
pub open spec fn header_text_line(text: Seq<char>) -> Seq<SpanView> {
    seq![styled(Style::plain().bold(), text)]
}

/// The notice that plan mode begins.
pub open spec fn enter_plan_mode_line() -> Seq<SpanView> {
    seq![
        styled(Style::plain().fg(Color::Green).bold(), "Entering plan mode."@),
        styled(Style::plain(), " "@),
        styled(
            Style::plain().fg(Color::Green).dim(),
            "You can provide instructions to create a plan and then act on it. To exit early, type /endplan"@,
        ),
    ]
}

/// The notice that plan mode ends and the plan is acted on.
pub open spec fn act_on_plan_line() -> Seq<SpanView> {
    seq![
        styled(
            Style::plain().fg(Color::Green).bold(),
            "Exiting plan mode and acting on the above plan"@,
        ),
    ]
}

/// The notice that plan mode ends.
pub open spec fn exit_plan_mode_line() -> Seq<SpanView> {
    seq![styled(Style::plain().fg(Color::Green).bold(), "Exiting plan mode."@)]
}

/// The line of a notice of the mode.
pub open spec fn mode_message_line(text: Seq<char>) -> Seq<SpanView> {
    seq![styled(Style::plain().fg(Color::Yellow), text)]
}

/// The notice that an extension was added.
pub open spec fn extension_success_line(name: Seq<char>) -> Seq<SpanView> {
    seq![
        styled(Style::plain(), "  "@),
        styled(Style::plain().fg(Color::Green), "added"@),
        styled(Style::plain(), " extension `"@),
        styled(Style::plain().fg(Color::Cyan), name),
        styled(Style::plain(), "`"@),
    ]
}

/// The notice that an extension could not be added.
pub open spec fn extension_error_line(name: Seq<char>) -> Seq<SpanView> {
    seq![
        styled(Style::plain(), "  "@),
        styled(Style::plain().fg(Color::Red), "failed"@),
        styled(Style::plain(), " to add extension "@),
        styled(Style::plain().fg(Color::Red), name),
    ]
}

/// A line of dimmed text.
pub open spec fn dim_line(text: Seq<char>) -> Seq<SpanView> {
    seq![styled(Style::plain().dim(), text)]
}

/// The ending of a word that stands for one name or for several: names are
/// several where a comma stands between them.
pub open spec fn plural_of_names(names: Seq<char>) -> Seq<char> {
    if has_char(names, ',') {
        "s"@
    } else {
        ""@
    }
}

/// The notice that builtins were added.
pub open spec fn builtin_success_line(names: Seq<char>) -> Seq<SpanView> {
    seq![
        styled(Style::plain(), "  "@),
        styled(Style::plain().fg(Color::Green), "added"@),
        styled(Style::plain(), " builtin"@),
        styled(Style::plain(), plural_of_names(names)),
        styled(Style::plain(), ": "@),
        styled(Style::plain().fg(Color::Cyan), names),
    ]
}

/// The notice that builtins could not be added.
pub open spec fn builtin_error_line(names: Seq<char>) -> Seq<SpanView> {
    seq![
        styled(Style::plain(), "  "@),
        styled(Style::plain().fg(Color::Red), "failed"@),
        styled(Style::plain(), " to add builtin"@),
        styled(Style::plain(), plural_of_names(names)),
        styled(Style::plain(), ": "@),
        styled(Style::plain().fg(Color::Red), names),
    ]
}

/// The line that names the tool of a call.
pub open spec fn tool_header_line(name: Seq<char>) -> Seq<SpanView> {
    seq![
        styled(Style::plain(), "  "@),
        styled(Style::plain().dim(), "\u{25b8}"@),
        styled(Style::plain(), " "@),
        styled(Style::plain().dim(), name),
    ]
}

/// The line that says that the session is ready.
pub open spec fn greeting_line() -> Seq<SpanView> {
    seq![
        styled(Style::plain().bold(), "\u{1fabf} goose"@),
        styled(Style::plain(), " "@),
        styled(Style::plain().dim(), "ready \u{2014} type a message to get started"@),
    ]
}

/// A control character: one of the codes 0 to 31 and 127 to 159.
pub open spec fn is_control(c: char) -> bool {
    c <= '\u{1f}' || ('\u{7f}' <= c && c <= '\u{9f}')
}

/// `text` without its control characters.
pub open spec fn without_controls(text: Seq<char>) -> Seq<char>
    decreases text.len(),
{
    if text.len() == 0 {
        Seq::empty()
    } else {
        let before = without_controls(text.drop_last());
        if is_control(text.last()) {
            before
        } else {
            before.push(text.last())
        }
    }
}

/// The escape sequence that sets the title of the terminal's window to the
/// name of a directory, control characters left out of the name.
pub open spec fn title_sequence(dir_name: Seq<char>) -> Seq<char> {
    "\x1b]0;\u{1fabf} "@ + without_controls(dir_name) + "\x07"@
}

/// What sets the title of the terminal's window: nothing in a quiet session
/// or where the output is no terminal.
pub open spec fn title_outputs(
    quiet: bool,
    dir_name: Option<Seq<char>>,
    is_terminal: bool,
) -> Seq<OutputView> {
    if quiet || !is_terminal {
        Seq::empty()
    } else {
        seq![
            OutputView::Inline(
                seq![
                    styled(
                        Style::plain(),
                        title_sequence(
                            match dir_name {
                                Some(name) => name,
                                None => Seq::empty(),
                            },
                        ),
                    ),
                ],
            ),
        ]
    }
}

/// The name by which a subagent's call of a tool is shown: what stands
/// behind the last underscore of the subagent's identifier, and the tool's
/// name.
pub open spec fn subagent_message(subagent_id: Seq<char>, tool_name: Seq<char>) -> Seq<char> {
    "[subagent:"@ + split_on(subagent_id, '_').last() + "] "@ + tool_name
}

/// The question that asks for leave to call a tool.
pub open spec fn confirmation_question(with_warning: bool) -> Seq<char> {
    if with_warning {
        "Do you allow this tool call?"@
    } else {
        "Goose would like to call the above tool, do you allow?"@
    }
}

/// Leaves the control characters out of `text`.
pub fn sanitize(text: &str) -> (out: String)
    ensures
        out@ == without_controls(text@),
{
    let length = text.unicode_len();
    let mut out = String::new();
    let mut position: usize = 0;
    assert(text@.subrange(0, 0) =~= Seq::<char>::empty());
    for c in it: text.chars()
        invariant
            length == text@.len(),
            it.seq() == text@,
            position == it.index(),
            position <= length,
            out@ == without_controls(text@.subrange(0, position as int)),
    {
        assert(text@.subrange(0, position + 1).drop_last() =~= text@.subrange(0, position as int));
        assert(text@.subrange(0, position + 1).last() == c);
        if !(c <= '\u{1f}' || ('\u{7f}' <= c && c <= '\u{9f}')) {
            let ghost before = out@;
            out.append(text.substring_char(position, position + 1));
            assert(text@.subrange(position as int, position + 1) =~= seq![c]);
            assert(out@ =~= before.push(c));
        }
        position = position + 1;
    }
    assert(text@.subrange(0, position as int) =~= text@);
    out
}

/// The answer that a confirmation gives: leave for this one call, or none.
pub fn permission_for(confirmed: bool) -> (out: Permission)
    ensures
        out == if confirmed {
            Permission::AllowOnce
        } else {
            Permission::Cancel
        },
{
    if confirmed {
        Permission::AllowOnce
    } else {
        Permission::Cancel
    }
}

fn plural_for(names: &str) -> (out: &'static str)
    ensures
        out@ == plural_of_names(names@),
{
    if contains_char(names, ',') {
        "s"
    } else {
        ""
    }
}

fn single_line(line: Line) -> (out: Vec<Output>)
    ensures
        out.deep_view() == seq![OutputView::Line(line.deep_view())],
{
    let mut out = nothing();
    push_output(&mut out, Output::Line(line));
    out
}

impl SessionOutput {
    /// The line that names the tool of a call. A quiet session shows none.
    pub fn print_tool_header(&self, name: &str) -> (out: Vec<Output>)
        ensures
            out.deep_view() == if self@.quiet {
                Seq::empty()
            } else {
                seq![OutputView::Line(tool_header_line(name@))]
            },
    {
        if self.quiet {
            return nothing();
        }
        let mut line = Line::new();
        line.push(Style::plain(), "  ".to_owned());
        line.push(Style::plain().dim(), "\u{25b8}".to_owned());
        line.push(Style::plain(), " ".to_owned());
        line.push(Style::plain().dim(), name.to_owned());
        assert(line.deep_view() == tool_header_line(name@));
        single_line(line)
    }

    /// The name by which a subagent's call of a tool is shown.
    pub fn format_subagent_tool_call_message(&self, subagent_id: &str, tool_name: &str) -> (out:
        String)
        ensures
            out@ == subagent_message(subagent_id@, tool_name@),
    {
        let short_id = last_piece(subagent_id, '_');
        let mut out = "[subagent:".to_owned();
        out.append(short_id.as_str());
        out.append("] ");
        out.append(tool_name);
        out
    }

    /// What is shown before the user is asked for leave to call a tool, and
    /// the question: a warning, where there is one, stands on a line of its
    /// own behind a blank line, and the question then speaks of this call.
    pub fn prompt_tool_confirmation(&self, security_prompt: &Option<String>) -> (out: (
        Vec<Output>,
        String,
    ))
        ensures
            out.1@ == confirmation_question(security_prompt is Some),
            out.0.deep_view() == match security_prompt {
                Some(message) => seq![
                    OutputView::Line(
                        seq![styled(Style::plain(), "\n"@), styled(Style::plain(), message@)],
                    ),
                ],
                None => Seq::empty(),
            },
    {
        match security_prompt {
            Some(message) => {
                let mut line = Line::new();
                line.push(Style::plain(), "\n".to_owned());
                line.push(Style::plain(), message.clone());
                assert(line.deep_view() == seq![
                    styled(Style::plain(), "\n"@),
                    styled(Style::plain(), message@),
                ]);
                (single_line(line), "Do you allow this tool call?".to_owned())
            },
            None => (
                nothing(),
                "Goose would like to call the above tool, do you allow?".to_owned(),
            ),
        }
    }

    /// Renders an error, in a quiet session too.
    pub fn render_error(&mut self, message: &str) -> (out: Vec<Output>)
        ensures
            final(self)@ == old(self)@.after(ContentType::Error),
            out.deep_view() == old(self)@.block(
                ContentType::Error,
                seq![OutputView::Line(error_line(message@))],
            ),
    {
        let mut line = Line::new();
        line.push(Style::plain(), "  ".to_owned());
        line.push(Style::plain().fg(Color::Red).bold(), "error:".to_owned());
        line.push(Style::plain(), " ".to_owned());
        line.push(Style::plain(), message.to_owned());
        assert(line.deep_view() == error_line(message@));
        self.render_block(ContentType::Error, single_line(line))
    }

    /// Renders a header in bold.
    pub fn render_header(&mut self, text: &str) -> (out: Vec<Output>)
        ensures
            (final(self)@, out.deep_view()) == old(self)@.unless_quiet(
                ContentType::Header,
                seq![OutputView::Line(header_text_line(text@))],
            ),
    {
        if self.quiet {
            return nothing();
        }
        let line = line_of(Style::plain().bold(), text);
        self.render_block(ContentType::Header, single_line(line))
    }

    /// Renders the notice that plan mode begins.
    pub fn render_enter_plan_mode(&mut self) -> (out: Vec<Output>)
        ensures
            (final(self)@, out.deep_view()) == old(self)@.unless_quiet(
                ContentType::System,
                seq![OutputView::Line(enter_plan_mode_line())],
            ),
    {
        if self.quiet {
            return nothing();
        }
        let mut line = Line::new();
        line.push(Style::plain().fg(Color::Green).bold(), "Entering plan mode.".to_owned());
        line.push(Style::plain(), " ".to_owned());
        line.push(
            Style::plain().fg(Color::Green).dim(),
            "You can provide instructions to create a plan and then act on it. To exit early, type /endplan".to_owned(),
        );
        assert(line.deep_view() == enter_plan_mode_line());
        self.render_block(ContentType::System, single_line(line))
    }

    /// Renders the notice that plan mode ends and the plan is acted on.
    pub fn render_act_on_plan(&mut self) -> (out: Vec<Output>)
        ensures
            (final(self)@, out.deep_view()) == old(self)@.unless_quiet(
                ContentType::System,
                seq![OutputView::Line(act_on_plan_line())],
            ),
    {
        if self.quiet {
            return nothing();
        }
        let line = line_of(
            Style::plain().fg(Color::Green).bold(),
            "Exiting plan mode and acting on the above plan",
        );
        self.render_block(ContentType::System, single_line(line))
    }

    /// Renders the notice that plan mode ends.
    pub fn render_exit_plan_mode(&mut self) -> (out: Vec<Output>)
        ensures
            (final(self)@, out.deep_view()) == old(self)@.unless_quiet(
                ContentType::System,
                seq![OutputView::Line(exit_plan_mode_line())],
            ),
    {
        if self.quiet {
            return nothing();
        }
        let line = line_of(Style::plain().fg(Color::Green).bold(), "Exiting plan mode.");
        self.render_block(ContentType::System, single_line(line))
    }

    /// Renders a notice of the mode in yellow.
    pub fn goose_mode_message(&mut self, text: &str) -> (out: Vec<Output>)
        ensures
            (final(self)@, out.deep_view()) == old(self)@.unless_quiet(
                ContentType::System,
                seq![OutputView::Line(mode_message_line(text@))],
            ),
    {
        if self.quiet {
            return nothing();
        }
        let line = line_of(Style::plain().fg(Color::Yellow), text);
        self.render_block(ContentType::System, single_line(line))
    }

    /// Renders the notice that an extension was added.
    pub fn render_extension_success(&mut self, name: &str) -> (out: Vec<Output>)
        ensures
            (final(self)@, out.deep_view()) == old(self)@.unless_quiet(
                ContentType::System,
                seq![OutputView::Line(extension_success_line(name@))],
            ),
    {
        if self.quiet {
            return nothing();
        }
        let mut line = Line::new();
        line.push(Style::plain(), "  ".to_owned());
        line.push(Style::plain().fg(Color::Green), "added".to_owned());
        line.push(Style::plain(), " extension `".to_owned());
        line.push(Style::plain().fg(Color::Cyan), name.to_owned());
        line.push(Style::plain(), "`".to_owned());
        assert(line.deep_view() == extension_success_line(name@));
        self.render_block(ContentType::System, single_line(line))
    }

    /// Renders the failure to add an extension, in a quiet session too.
    pub fn render_extension_error(&mut self, name: &str, error: &str) -> (out: Vec<Output>)
        ensures
            final(self)@ == old(self)@.after(ContentType::Error),
            out.deep_view() == old(self)@.block(
                ContentType::Error,
                seq![
                    OutputView::Line(extension_error_line(name@)),
                    OutputView::Line(dim_line(error@)),
                ],
            ),
    {
        let mut line = Line::new();
        line.push(Style::plain(), "  ".to_owned());
        line.push(Style::plain().fg(Color::Red), "failed".to_owned());
        line.push(Style::plain(), " to add extension ".to_owned());
        line.push(Style::plain().fg(Color::Red), name.to_owned());
        assert(line.deep_view() == extension_error_line(name@));
        let mut content = single_line(line);
        push_output(&mut content, Output::Line(line_of(Style::plain().dim(), error)));
        self.render_block(ContentType::Error, content)
    }

    /// Renders the notice that builtins were added.
    pub fn render_builtin_success(&mut self, names: &str) -> (out: Vec<Output>)
        ensures
            (final(self)@, out.deep_view()) == old(self)@.unless_quiet(
                ContentType::System,
                seq![OutputView::Line(builtin_success_line(names@))],
            ),
    {
        if self.quiet {
            return nothing();
        }
        let mut line = Line::new();
        line.push(Style::plain(), "  ".to_owned());
        line.push(Style::plain().fg(Color::Green), "added".to_owned());
        line.push(Style::plain(), " builtin".to_owned());
        line.push(Style::plain(), plural_for(names).to_owned());
        line.push(Style::plain(), ": ".to_owned());
        line.push(Style::plain().fg(Color::Cyan), names.to_owned());
        assert(line.deep_view() == builtin_success_line(names@));
        self.render_block(ContentType::System, single_line(line))
    }

    /// Renders the failure to add builtins, in a quiet session too.
    pub fn render_builtin_error(&mut self, names: &str, error: &str) -> (out: Vec<Output>)
        ensures
            final(self)@ == old(self)@.after(ContentType::Error),
            out.deep_view() == old(self)@.block(
                ContentType::Error,
                seq![
                    OutputView::Line(builtin_error_line(names@)),
                    OutputView::Line(dim_line(error@)),
                ],
            ),
    {
        let mut line = Line::new();
        line.push(Style::plain(), "  ".to_owned());
        line.push(Style::plain().fg(Color::Red), "failed".to_owned());
        line.push(Style::plain(), " to add builtin".to_owned());
        line.push(Style::plain(), plural_for(names).to_owned());
        line.push(Style::plain(), ": ".to_owned());
        line.push(Style::plain().fg(Color::Red), names.to_owned());
        assert(line.deep_view() == builtin_error_line(names@));
        let mut content = single_line(line);
        push_output(&mut content, Output::Line(line_of(Style::plain().dim(), error)));
        self.render_block(ContentType::Error, content)
    }

    /// Sets the title of the terminal's window to the name of the working
    /// directory, control characters left out. Nothing is put out in a
    /// quiet session or where the output is no terminal.
    pub fn set_terminal_title(&self, dir_name: Option<&str>, is_terminal: bool) -> (out: Vec<
        Output,
    >)
        ensures
            out.deep_view() == title_outputs(self@.quiet, dir_name.deep_view(), is_terminal),
    {
        let mut out = nothing();
        if self.quiet || !is_terminal {
            return out;
        }
        let sanitized = match dir_name {
            Some(name) => sanitize(name),
            None => {
                proof {
                    reveal_with_fuel(without_controls, 1);
                }
                String::new()
            },
        };
        let mut text = "\x1b]0;\u{1fabf} ".to_owned();
        text.append(sanitized.as_str());
        text.append("\x07");
        push_output(&mut out, Output::Inline(line_of(Style::plain(), text.as_str())));
        out
    }

    /// Greets the user: the title of the terminal's window is set, and a
    /// line says that the session is ready.
    pub fn display_greeting(&mut self, dir_name: Option<&str>, is_terminal: bool) -> (out: Vec<
        Output,
    >)
        ensures
            old(self)@.quiet ==> final(self)@ == old(self)@ && out.deep_view() == Seq::<
                OutputView,
            >::empty(),
            !old(self)@.quiet ==> {
                &&& final(self)@ == old(self)@.after(ContentType::System)
                &&& out.deep_view() == title_outputs(false, dir_name.deep_view(), is_terminal)
                    + old(self)@.block(
                    ContentType::System,
                    seq![OutputView::Line(greeting_line())],
                )
            },
    {
        if self.quiet {
            return nothing();
        }
        let mut out = self.set_terminal_title(dir_name, is_terminal);
        let mut line = Line::new();
        line.push(Style::plain().bold(), "\u{1fabf} goose".to_owned());
        line.push(Style::plain(), " ".to_owned());
        line.push(
            Style::plain().dim(),
            "ready \u{2014} type a message to get started".to_owned(),
        );
        assert(line.deep_view() == greeting_line());
        let block = self.render_block(ContentType::System, single_line(line));
        extend_outputs(&mut out, block);
        out
    }
}

} // verus!
