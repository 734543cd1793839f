use crate::lines::{Color, Line, Style};
use crate::output::{extend_outputs, line_of, nothing, push_output, styled, Output, OutputView};
use crate::spacing::{needs_separator, spacing, ContentType};
use crate::theme::{theme_of, Theme};
use vstd::prelude::*;

verus! {

/// What the progress indicator shows while nothing else is known.
pub open spec fn thinking_text() -> Seq<char> {
    "Thinking..."@
}

/// Whether a progress indicator is on the screen.
#[derive(Debug, Clone, Copy, PartialEq, Eq)]
pub struct ThinkingIndicator {
    shown: bool,
}

impl Default for ThinkingIndicator {
    /// An indicator that is not on the screen.
    fn default() -> (out: ThinkingIndicator)
        ensures
            !out.shown(),
    {
        ThinkingIndicator { shown: false }
    }
}

impl ThinkingIndicator {
    /// The indicator is on the screen.
    pub closed spec fn shown(&self) -> bool {
        self.shown
    }

    /// An indicator that is not on the screen.
    pub fn new() -> (out: ThinkingIndicator)
        ensures
            !out.shown(),
    {
        ThinkingIndicator { shown: false }
    }

    /// Puts the indicator on the screen, unless it is there. The result is
    /// the step that starts it, where it was not there.
    pub fn show(&mut self) -> (out: Option<Output>)
        ensures
            final(self).shown(),
            old(self).shown() ==> out is None,
            !old(self).shown() ==> out.deep_view() == Some(
                OutputView::StartThinking(thinking_text()),
            ),
    {
        if self.shown {
            None
        } else {
            self.shown = true;
            Some(Output::StartThinking("Thinking...".to_owned()))
        }
    }

    /// Takes the indicator off the screen, if it is there. The result is
    /// the step that stops it, where it was there.
    pub fn dismiss(&mut self) -> (out: Option<Output>)
        ensures
            !final(self).shown(),
            !old(self).shown() ==> out is None,
            old(self).shown() ==> out.deep_view() == Some(
                OutputView::StopThinking(thinking_text()),
            ),
    {
        if self.shown {
            self.shown = false;
            Some(Output::StopThinking("Thinking...".to_owned()))
        } else {
            None
        }
    }

    /// Whether the indicator is on the screen.
    pub fn is_shown(&self) -> (out: bool)
        ensures
            out == self.shown(),
    {
        self.shown
    }
}

/// The state of a session's output.
pub struct SessionOutput {
    pub theme: Theme,
    pub show_full_tool_output: bool,
    pub last_rendered: ContentType,
    pub thinking: ThinkingIndicator,
    pub quiet: bool,
    pub text_messages: String,
}

/// The mathematical model of a [`SessionOutput`].
pub ghost struct SessionView {
    pub theme: Theme,
    pub show_full_tool_output: bool,
    pub last_rendered: ContentType,
    pub thinking: bool,
    pub quiet: bool,
    pub text_messages: Seq<char>,
}

impl View for SessionOutput {
    type V = SessionView;

    open spec fn view(&self) -> SessionView {
        SessionView {
            theme: self.theme,
            show_full_tool_output: self.show_full_tool_output,
            last_rendered: self.last_rendered,
            thinking: self.thinking.shown(),
            quiet: self.quiet,
            text_messages: self.text_messages@,
        }
    }
}

/// The blank line between two blocks, where one stands between them.
pub open spec fn separator(prev: ContentType, next: ContentType) -> Seq<OutputView> {
    if needs_separator(prev, next) {
        seq![OutputView::Line(Seq::empty())]
    } else {
        Seq::empty()
    }
}

/// The theme of a new session: the one that the configuration names;
/// without one, the one that the environment names; without either, the
/// ANSI theme.
pub open spec fn initial_theme(configured: Option<Seq<char>>, environment: Option<Seq<char>>) -> Theme {
    match configured {
        Some(value) => theme_of(value),
        None => match environment {
            Some(value) => theme_of(value),
            None => Theme::Ansi,
        },
    }
}

/// A line of plain text.
pub open spec fn plain_line(text: Seq<char>) -> OutputView {
    OutputView::Line(seq![styled(Style::plain(), text)])
}

/// What a markdown text gives rise to: nothing in a quiet session, the text
/// as it is where the output is no terminal, and the text for the
/// highlighter in the session's theme otherwise.
pub open spec fn markdown_outputs(
    quiet: bool,
    theme: Theme,
    text: Seq<char>,
    is_terminal: bool,
) -> Seq<OutputView> {
    if quiet {
        Seq::empty()
    } else if !is_terminal {
        seq![plain_line(text)]
    } else {
        seq![OutputView::Markdown(text, theme)]
    }
}

/// The style of raw text: dimmed where asked for, in the given colour or,
/// without one, in green.
pub open spec fn raw_style(color: Option<Color>, dim: bool) -> Style {
    let base = if dim {
        Style::plain().dim()
    } else {
        Style::plain()
    };
    match color {
        Some(color) => base.fg(color),
        None => base.fg(Color::Green),
    }
}

/// What raw text gives rise to where the session is not quiet: a plain line
/// where the output is no terminal, the styled text without a line break
/// otherwise.
pub open spec fn raw_text_outputs(
    text: Seq<char>,
    color: Option<Color>,
    dim: bool,
    is_terminal: bool,
) -> Seq<OutputView> {
    if !is_terminal {
        seq![plain_line(text)]
    } else {
        seq![OutputView::Inline(seq![styled(raw_style(color, dim), text)])]
    }
}

impl SessionView {
    /// This state after a block of kind `kind` was rendered.
    pub open spec fn after(self, kind: ContentType) -> SessionView {
        SessionView { last_rendered: kind, ..self }
    }

    /// A block of kind `kind` that is rendered in this state: the separator
    /// before it, where one is due, and then its content.
    pub open spec fn block(self, kind: ContentType, content: Seq<OutputView>) -> Seq<OutputView> {
        separator(self.last_rendered, kind) + content
    }

    /// The state and the output after a block that a quiet session leaves
    /// out: nothing changes and nothing is put out where the session is
    /// quiet.
    pub open spec fn unless_quiet(self, kind: ContentType, content: Seq<OutputView>) -> (
        SessionView,
        Seq<OutputView>,
    ) {
        if self.quiet {
            (self, Seq::empty())
        } else {
            (self.after(kind), self.block(kind, content))
        }
    }
}

impl SessionOutput {
    /// A session's output at its start, from what the configuration and the
    /// environment say.
    pub fn new(
        configured_theme: Option<&str>,
        environment_theme: Option<&str>,
        show_full_tool_output: Option<bool>,
    ) -> (out: SessionOutput)
        ensures
            out@ == (SessionView {
                theme: initial_theme(configured_theme.deep_view(), environment_theme.deep_view()),
                show_full_tool_output: show_full_tool_output == Some(true),
                last_rendered: ContentType::Empty,
                thinking: false,
                quiet: false,
                text_messages: Seq::empty(),
            }),
    {
        let theme = match configured_theme {
            Some(value) => Theme::from_config_str(value),
            None => match environment_theme {
                Some(value) => Theme::from_config_str(value),
                None => Theme::Ansi,
            },
        };
        let show_full_tool_output = match show_full_tool_output {
            Some(value) => value,
            None => false,
        };
        SessionOutput {
            theme: theme,
            show_full_tool_output: show_full_tool_output,
            last_rendered: ContentType::Empty,
            thinking: ThinkingIndicator::new(),
            quiet: false,
            text_messages: String::new(),
        }
    }

    /// This session's output, quiet or not.
    pub fn with_quiet(self, quiet: bool) -> (out: SessionOutput)
        ensures
            out@ == (SessionView { quiet: quiet, ..self@ }),
    {
        let mut out = self;
        out.quiet = quiet;
        out
    }

    /// Takes `theme` as the session's theme. The value to keep in the
    /// configuration is that of `Theme::as_config_string`.
    pub fn set_theme(&mut self, theme: Theme)
        ensures
            final(self)@ == (SessionView { theme: theme, ..old(self)@ }),
    {
        self.theme = theme;
    }

    /// The theme of the session.
    pub fn get_theme(&self) -> (out: Theme)
        ensures
            out == self@.theme,
    {
        self.theme
    }

    /// Turns the full output of tools on where it is off, and off where it
    /// is on. The result is the new setting, for the caller to keep in the
    /// configuration.
    pub fn toggle_full_tool_output(&mut self) -> (out: bool)
        ensures
            out == !old(self)@.show_full_tool_output,
            final(self)@ == (SessionView { show_full_tool_output: out, ..old(self)@ }),
    {
        self.show_full_tool_output = !self.show_full_tool_output;
        self.show_full_tool_output
    }

    /// Whether the output of tools is shown in full.
    pub fn get_show_full_tool_output(&self) -> (out: bool)
        ensures
            out == self@.show_full_tool_output,
    {
        self.show_full_tool_output
    }

    /// Starts the progress indicator where the output is a terminal and the
    /// indicator is not on the screen.
    pub fn show_thinking(&mut self, is_terminal: bool) -> (out: Vec<Output>)
        ensures
            final(self)@ == (SessionView {
                thinking: is_terminal || old(self)@.thinking,
                ..old(self)@
            }),
            out.deep_view() == if is_terminal && !old(self)@.thinking {
                seq![OutputView::StartThinking(thinking_text())]
            } else {
                Seq::empty()
            },
    {
        let mut out = nothing();
        if is_terminal {
            match self.thinking.show() {
                Some(step) => {
                    push_output(&mut out, step);
                },
                None => {},
            }
        }
        out
    }

    /// Stops the progress indicator where the output is a terminal and the
    /// indicator is on the screen.
    pub fn hide_thinking(&mut self, is_terminal: bool) -> (out: Vec<Output>)
        ensures
            final(self)@ == (SessionView {
                thinking: !is_terminal && old(self)@.thinking,
                ..old(self)@
            }),
            out.deep_view() == if is_terminal && old(self)@.thinking {
                seq![OutputView::StopThinking(thinking_text())]
            } else {
                Seq::empty()
            },
    {
        let mut out = nothing();
        if is_terminal {
            match self.thinking.dismiss() {
                Some(step) => {
                    push_output(&mut out, step);
                },
                None => {},
            }
        }
        out
    }

    /// Whether the progress indicator is on the screen.
    pub fn is_showing_thinking(&self) -> (out: bool)
        ensures
            out == self@.thinking,
    {
        self.thinking.is_shown()
    }

    /// Lets the progress indicator show `message`, where the output is a
    /// terminal and the indicator is on the screen.
    pub fn set_thinking_message(&self, message: &str, is_terminal: bool) -> (out: Vec<Output>)
        ensures
            out.deep_view() == if is_terminal && self@.thinking {
                seq![OutputView::ThinkingMessage(message@)]
            } else {
                Seq::empty()
            },
    {
        let mut out = nothing();
        if is_terminal && self.thinking.is_shown() {
            push_output(&mut out, Output::ThinkingMessage(message.to_owned()));
        }
        out
    }

    /// Puts out the separator that is due before a block of kind `next`
    /// and takes `next` as the kind of the last block.
    pub fn handle_spacing(&mut self, next: ContentType) -> (out: Vec<Output>)
        ensures
            final(self)@ == old(self)@.after(next),
            out.deep_view() == separator(old(self)@.last_rendered, next),
    {
        let (blank, state) = spacing(self.last_rendered, next);
        self.last_rendered = state;
        let mut out = nothing();
        if blank {
            push_output(&mut out, Output::Line(Line::new()));
        }
        out
    }

    /// Renders a block of kind `kind` with the given content.
    pub fn render_block(&mut self, kind: ContentType, content: Vec<Output>) -> (out: Vec<Output>)
        ensures
            final(self)@ == old(self)@.after(kind),
            out.deep_view() == old(self)@.block(kind, content.deep_view()),
    {
        let mut out = self.handle_spacing(kind);
        extend_outputs(&mut out, content);
        out
    }

    /// What a markdown text gives rise to in this session.
    pub fn print_markdown(&self, text: &str, is_terminal: bool) -> (out: Vec<Output>)
        ensures
            out.deep_view() == markdown_outputs(self@.quiet, self@.theme, text@, is_terminal),
    {
        let mut out = nothing();
        if self.quiet {
            return out;
        }
        if !is_terminal {
            push_output(&mut out, Output::Line(line_of(Style::plain(), text)));
        } else {
            push_output(&mut out, Output::Markdown(text.to_owned(), self.theme));
        }
        out
    }

    /// Keeps `message` for the text block that `finish` renders.
    pub fn buffer_text_message(&mut self, message: &str)
        ensures
            final(self)@ == (SessionView {
                text_messages: old(self)@.text_messages + message@,
                ..old(self)@
            }),
    {
        self.text_messages.append(message);
    }

    /// Renders the text that was kept as one markdown block and forgets it.
    /// A quiet session renders nothing and keeps the text.
    pub fn finish(&mut self, is_terminal: bool) -> (out: Vec<Output>)
        ensures
            old(self)@.quiet ==> final(self)@ == old(self)@ && out.deep_view() == Seq::<
                OutputView,
            >::empty(),
            !old(self)@.quiet ==> {
                &&& final(self)@ == (SessionView {
                    text_messages: Seq::empty(),
                    ..old(self)@.after(ContentType::Text)
                })
                &&& out.deep_view() == old(self)@.block(
                    ContentType::Text,
                    markdown_outputs(
                        false,
                        old(self)@.theme,
                        old(self)@.text_messages,
                        is_terminal,
                    ),
                )
            },
    {
        if self.quiet {
            return nothing();
        }
        let content = self.print_markdown(self.text_messages.as_str(), is_terminal);
        let out = self.render_block(ContentType::Text, content);
        self.text_messages = String::new();
        out
    }

    /// Renders `text` as a text block: the separator that is due, then the
    /// raw text.
    pub fn render_text(&mut self, text: &str, color: Option<Color>, dim: bool, is_terminal: bool) -> (out:
        Vec<Output>)
        ensures
            (final(self)@, out.deep_view()) == old(self)@.unless_quiet(
                ContentType::Text,
                raw_text_outputs(text@, color, dim, is_terminal),
            ),
    {
        if self.quiet {
            return nothing();
        }
        let content = self.render_text_raw(text, color, dim, is_terminal);
        self.render_block(ContentType::Text, content)
    }

    /// Renders `text` without a separator before it and without a line
    /// break behind it, dimmed where asked for and in the given colour, or
    /// in green without one. Where the output is no terminal the text is a
    /// plain line.
    pub fn render_text_raw(&self, text: &str, color: Option<Color>, dim: bool, is_terminal: bool) -> (out:
        Vec<Output>)
        ensures
            out.deep_view() == if self@.quiet {
                Seq::empty()
            } else {
                raw_text_outputs(text@, color, dim, is_terminal)
            },
    {
        let mut out = nothing();
        if self.quiet {
            return out;
        }
        if !is_terminal {
            push_output(&mut out, Output::Line(line_of(Style::plain(), text)));
            return out;
        }
        let mut style = Style::plain();
        if dim {
            style = style.dim();
        }
        style = match color {
            Some(color) => style.fg(color),
            None => style.fg(Color::Green),
        };
        push_output(&mut out, Output::Inline(line_of(style, text)));
        out
    }
}

} // verus!
