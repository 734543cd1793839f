use crate::lines::{Color, Line, SpanView, Style};
use crate::output::{extend_outputs, line_of, nothing, push_output, styled, Output, OutputView};
use crate::session::{markdown_outputs, plain_line, thinking_text, SessionOutput, SessionView};
use crate::spacing::ContentType;
use crate::tool_call::{
    request_view, tool_request, Environment, EnvironmentView, ToolCall, ToolCallView,
};
use vstd::prelude::*;

verus! {

/// How the priority of a piece of a tool's response stands to the least
/// priority that is shown.
#[derive(Debug, Clone, Copy, PartialEq, Eq, Structural)]
pub enum Priority {
    /// The piece has no priority.
    Unset,
    /// The priority of the piece is below the least that is shown.
    BelowMinimum,
    /// The priority of the piece is the least that is shown, or above it.
    Sufficient,
}

/// One piece of a tool's response.
#[derive(Debug, Clone, PartialEq, Eq)]
pub struct ResponseContent {
    /// The piece is meant for the user: it names no audience, or the user
    /// is among its audience.
    pub for_user: bool,
    pub priority: Priority,
    /// The text of the piece, where it is text.
    pub text: Option<String>,
    /// The piece in its debug form.
    pub debug_form: String,
}

/// The mathematical model of a [`ResponseContent`].
pub ghost struct ResponseContentView {
    pub for_user: bool,
    pub priority: Priority,
    pub text: Option<Seq<char>>,
    pub debug_form: Seq<char>,
}

impl DeepView for ResponseContent {
    type V = ResponseContentView;

    open spec fn deep_view(&self) -> ResponseContentView {
        ResponseContentView {
            for_user: self.for_user,
            priority: self.priority,
            text: match self.text {
                Some(text) => Some(text@),
                None => None,
            },
            debug_form: self.debug_form@,
        }
    }
}

/// The kind of a notification of the system.
#[derive(Debug, Clone, Copy, PartialEq, Eq, Structural)]
pub enum NotificationKind {
    /// A message for the progress indicator.
    ThinkingMessage,
    /// A message for a line of its own.
    InlineMessage,
}

/// One part of a message of the conversation.
#[derive(Debug, PartialEq, Eq)]
pub enum MessageContent {
    Text(String),
    /// A request to call a tool, or the reason why there is no call.
    ToolRequest(Result<ToolCall, String>),
    /// The pieces of a tool's response, or the reason why there is none.
    ToolResponse(Result<Vec<ResponseContent>, String>),
    /// An image: its data and the type of the data.
    Image(String, String),
    Thinking(String),
    RedactedThinking,
    SystemNotification(NotificationKind, String),
    /// Something that the user is asked for elsewhere.
    ActionRequired,
    /// A part of any other kind.
    Other,
}

/// The mathematical model of a [`MessageContent`].
pub ghost enum ContentView {
    Text(Seq<char>),
    ToolRequest(Result<ToolCallView, Seq<char>>),
    ToolResponse(Result<Seq<ResponseContentView>, Seq<char>>),
    Image(Seq<char>, Seq<char>),
    Thinking(Seq<char>),
    RedactedThinking,
    SystemNotification(NotificationKind, Seq<char>),
    ActionRequired,
    Other,
}

/// The models of the pieces of a response, in order.
pub open spec fn pieces_view(pieces: Seq<ResponseContent>) -> Seq<ResponseContentView> {
    Seq::new(pieces.len(), |i: int| pieces[i].deep_view())
}

/// The model of a tool's response.
pub open spec fn response_view(response: Result<Vec<ResponseContent>, String>) -> Result<
    Seq<ResponseContentView>,
    Seq<char>,
> {
    match response {
        Ok(pieces) => Ok(pieces_view(pieces@)),
        Err(reason) => Err(reason@),
    }
}

impl DeepView for MessageContent {
    type V = ContentView;

    open spec fn deep_view(&self) -> ContentView {
        match self {
            MessageContent::Text(text) => ContentView::Text(text@),
            MessageContent::ToolRequest(request) => ContentView::ToolRequest(
                request_view(*request),
            ),
            MessageContent::ToolResponse(response) => ContentView::ToolResponse(
                response_view(*response),
            ),
            MessageContent::Image(data, mime_type) => ContentView::Image(data@, mime_type@),
            MessageContent::Thinking(text) => ContentView::Thinking(text@),
            MessageContent::RedactedThinking => ContentView::RedactedThinking,
            MessageContent::SystemNotification(kind, message) => ContentView::SystemNotification(
                *kind,
                message@,
            ),
            MessageContent::ActionRequired => ContentView::ActionRequired,
            MessageContent::Other => ContentView::Other,
        }
    }
}

/// The models of the parts of a message, in order.
pub open spec fn contents_view(contents: Seq<MessageContent>) -> Seq<ContentView> {
    Seq::new(contents.len(), |i: int| contents[i].deep_view())
}

/// A piece of a response is shown where it is meant for the user and its
/// priority is not below the least that is shown; a piece without a
/// priority is shown with `debug` set only.
pub open spec fn piece_is_shown(piece: ResponseContentView, debug: bool) -> bool {
    piece.for_user && piece.priority != Priority::BelowMinimum && (piece.priority
        != Priority::Unset || debug)
}

/// What one piece of a response gives rise to: nothing where it is not
/// shown; with `debug` set its debug form on a line; otherwise its text as
/// markdown, where it is text.
pub open spec fn piece_outputs(
    session: SessionView,
    piece: ResponseContentView,
    debug: bool,
    is_terminal: bool,
) -> Seq<OutputView> {
    if !piece_is_shown(piece, debug) {
        Seq::empty()
    } else if debug {
        seq![plain_line(piece.debug_form)]
    } else {
        match piece.text {
            Some(text) => markdown_outputs(session.quiet, session.theme, text, is_terminal),
            None => Seq::empty(),
        }
    }
}

/// What the first `count` pieces of a response give rise to, in order.
pub open spec fn pieces_outputs(
    session: SessionView,
    pieces: Seq<ResponseContentView>,
    count: nat,
    debug: bool,
    is_terminal: bool,
) -> Seq<OutputView>
    decreases count,
{
    if count == 0 || count > pieces.len() {
        Seq::empty()
    } else {
        pieces_outputs(session, pieces, (count - 1) as nat, debug, is_terminal) + piece_outputs(
            session,
            pieces[count - 1],
            debug,
            is_terminal,
        )
    }
}

/// What a tool's response gives rise to: its pieces in order, or the
/// reason why there is none, as markdown.
pub open spec fn tool_response(
    session: SessionView,
    response: Result<Seq<ResponseContentView>, Seq<char>>,
    debug: bool,
    is_terminal: bool,
) -> Seq<OutputView> {
    match response {
        Ok(pieces) => pieces_outputs(session, pieces, pieces.len(), debug, is_terminal),
        Err(reason) => markdown_outputs(session.quiet, session.theme, reason, is_terminal),
    }
}

/// The line that stands for an image: its data and the type of the data.
pub open spec fn image_line(data: Seq<char>, mime_type: Seq<char>) -> Seq<SpanView> {
    seq![
        styled(Style::plain(), "Image: [data: "@),
        styled(Style::plain(), data),
        styled(Style::plain(), ", type: "@),
        styled(Style::plain(), mime_type),
        styled(Style::plain(), "]"@),
    ]
}

/// The label above the thoughts of the model.
pub open spec fn thinking_label_line() -> Seq<SpanView> {
    seq![styled(Style::plain().dim().italic(), "Thinking:"@)]
}

/// The thoughts of the model: a label, and the thoughts as markdown.
pub open spec fn thinking_content(session: SessionView, text: Seq<char>, is_terminal: bool) -> Seq<
    OutputView,
> {
    seq![OutputView::Line(thinking_label_line())] + markdown_outputs(
        session.quiet,
        session.theme,
        text,
        is_terminal,
    )
}

/// The state and the output after one part of a message is rendered in a
/// session that is not quiet.
pub open spec fn content_step(
    session: SessionView,
    content: ContentView,
    debug: bool,
    environment: EnvironmentView,
) -> (SessionView, Seq<OutputView>) {
    match content {
        ContentView::ActionRequired => (session, Seq::empty()),
        ContentView::Text(text) => (
            SessionView { text_messages: session.text_messages + text, ..session },
            Seq::empty(),
        ),
        ContentView::ToolRequest(request) => (
            session.after(ContentType::ToolCall),
            session.block(
                ContentType::ToolCall,
                tool_request(session.after(ContentType::ToolCall), request, debug, environment),
            ),
        ),
        ContentView::ToolResponse(response) => (
            session.after(ContentType::ToolResponse),
            session.block(
                ContentType::ToolResponse,
                tool_response(
                    session.after(ContentType::ToolResponse),
                    response,
                    debug,
                    environment.is_terminal,
                ),
            ),
        ),
        ContentView::Image(data, mime_type) => (
            session.after(ContentType::Text),
            session.block(ContentType::Text, seq![OutputView::Line(image_line(data, mime_type))]),
        ),
        ContentView::Thinking(text) => if environment.show_thinking && environment.is_terminal {
            (
                session.after(ContentType::System),
                session.block(
                    ContentType::System,
                    thinking_content(
                        session.after(ContentType::System),
                        text,
                        environment.is_terminal,
                    ),
                ),
            )
        } else {
            (session, Seq::empty())
        },
        ContentView::RedactedThinking => (
            session.after(ContentType::System),
            session.block(
                ContentType::System,
                thinking_content(
                    session.after(ContentType::System),
                    "Thinking was redacted"@,
                    environment.is_terminal,
                ),
            ),
        ),
        ContentView::SystemNotification(NotificationKind::ThinkingMessage, message) => (
            SessionView { thinking: environment.is_terminal || session.thinking, ..session },
            (if environment.is_terminal && !session.thinking {
                seq![OutputView::StartThinking(thinking_text())]
            } else {
                Seq::empty()
            }) + (if environment.is_terminal {
                seq![OutputView::ThinkingMessage(message)]
            } else {
                Seq::empty()
            }),
        ),
        ContentView::SystemNotification(NotificationKind::InlineMessage, message) => (
            SessionView {
                thinking: !environment.is_terminal && session.thinking,
                last_rendered: ContentType::System,
                ..session
            },
            (if environment.is_terminal && session.thinking {
                seq![OutputView::StopThinking(thinking_text())]
            } else {
                Seq::empty()
            }) + session.block(
                ContentType::System,
                seq![OutputView::Line(seq![styled(Style::plain().fg(Color::Yellow), message)])],
            ),
        ),
        ContentView::Other => (
            session.after(ContentType::Error),
            session.block(
                ContentType::Error,
                seq![plain_line("WARNING: Message content type could not be rendered"@)],
            ),
        ),
    }
}

/// The state and the output after the first `count` parts of a message are
/// rendered, one after the other, in a session that is not quiet.
pub open spec fn contents_steps(
    session: SessionView,
    contents: Seq<ContentView>,
    count: nat,
    debug: bool,
    environment: EnvironmentView,
) -> (SessionView, Seq<OutputView>)
    decreases count,
{
    if count == 0 || count > contents.len() {
        (session, Seq::empty())
    } else {
        let before = contents_steps(session, contents, (count - 1) as nat, debug, environment);
        let step = content_step(before.0, contents[count - 1], debug, environment);
        (step.0, before.1 + step.1)
    }
}

/// The state and the output after a message is rendered: nothing changes
/// and nothing is put out in a quiet session; otherwise the parts of the
/// message are rendered in order, and standard output is flushed behind
/// them.
pub open spec fn message_outputs(
    session: SessionView,
    contents: Seq<ContentView>,
    debug: bool,
    environment: EnvironmentView,
) -> (SessionView, Seq<OutputView>) {
    if session.quiet {
        (session, Seq::empty())
    } else {
        let steps = contents_steps(session, contents, contents.len(), debug, environment);
        (steps.0, steps.1.push(OutputView::Flush))
    }
}

impl SessionOutput {
    fn render_piece(&self, piece: &ResponseContent, debug: bool, is_terminal: bool) -> (out: Vec<
        Output,
    >)
        ensures
            out.deep_view() == piece_outputs(self@, piece.deep_view(), debug, is_terminal),
    {
        if !piece.for_user {
            return nothing();
        }
        match piece.priority {
            Priority::BelowMinimum => {
                return nothing();
            },
            Priority::Unset => {
                if !debug {
                    return nothing();
                }
            },
            Priority::Sufficient => {},
        }
        if debug {
            let mut out = nothing();
            push_output(
                &mut out,
                Output::Line(line_of(Style::plain(), piece.debug_form.as_str())),
            );
            out
        } else {
            match &piece.text {
                Some(text) => self.print_markdown(text.as_str(), is_terminal),
                None => nothing(),
            }
        }
    }

    /// Renders the response of a tool.
    pub fn render_tool_response(
        &self,
        response: &Result<Vec<ResponseContent>, String>,
        debug: bool,
        is_terminal: bool,
    ) -> (out: Vec<Output>)
        ensures
            out.deep_view() == tool_response(self@, response_view(*response), debug, is_terminal),
    {
        match response {
            Ok(pieces) => {
                let ghost views = pieces_view(pieces@);
                let mut out = nothing();
                let mut index: usize = 0;
                while index < pieces.len()
                    invariant
                        index <= pieces.len(),
                        views == pieces_view(pieces@),
                        out.deep_view() == pieces_outputs(
                            self@,
                            views,
                            index as nat,
                            debug,
                            is_terminal,
                        ),
                    decreases pieces.len() - index,
                {
                    let piece = self.render_piece(&pieces[index], debug, is_terminal);
                    extend_outputs(&mut out, piece);
                    index = index + 1;
                }
                out
            },
            Err(reason) => self.print_markdown(reason.as_str(), is_terminal),
        }
    }

    fn thinking_block(&mut self, text: &str, is_terminal: bool) -> (out: Vec<Output>)
        ensures
            final(self)@ == old(self)@.after(ContentType::System),
            out.deep_view() == old(self)@.block(
                ContentType::System,
                thinking_content(old(self)@.after(ContentType::System), text@, is_terminal),
            ),
    {
        let mut out = self.handle_spacing(ContentType::System);
        push_output(
            &mut out,
            Output::Line(line_of(Style::plain().dim().italic(), "Thinking:")),
        );
        let thoughts = self.print_markdown(text, is_terminal);
        extend_outputs(&mut out, thoughts);
        assert(out.deep_view() =~= old(self)@.block(
            ContentType::System,
            thinking_content(old(self)@.after(ContentType::System), text@, is_terminal),
        ));
        out
    }

    /// Renders one part of a message in a session that is not quiet.
    pub fn render_content(&mut self, content: &MessageContent, debug: bool, environment: &Environment) -> (out:
        Vec<Output>)
        ensures
            (final(self)@, out.deep_view()) == content_step(
                old(self)@,
                content.deep_view(),
                debug,
                environment.deep_view(),
            ),
    {
        match content {
            MessageContent::ActionRequired => nothing(),
            MessageContent::Text(text) => {
                self.buffer_text_message(text.as_str());
                nothing()
            },
            MessageContent::ToolRequest(request) => {
                let mut out = self.handle_spacing(ContentType::ToolCall);
                let call = self.render_tool_request(request, debug, environment);
                extend_outputs(&mut out, call);
                out
            },
            MessageContent::ToolResponse(response) => {
                let mut out = self.handle_spacing(ContentType::ToolResponse);
                let pieces = self.render_tool_response(response, debug, environment.is_terminal);
                extend_outputs(&mut out, pieces);
                out
            },
            MessageContent::Image(data, mime_type) => {
                let mut line = Line::new();
                line.push(Style::plain(), "Image: [data: ".to_owned());
                line.push(Style::plain(), data.clone());
                line.push(Style::plain(), ", type: ".to_owned());
                line.push(Style::plain(), mime_type.clone());
                line.push(Style::plain(), "]".to_owned());
                assert(line.deep_view() == image_line(data@, mime_type@));
                let mut content = nothing();
                push_output(&mut content, Output::Line(line));
                self.render_block(ContentType::Text, content)
            },
            MessageContent::Thinking(text) => {
                if environment.show_thinking && environment.is_terminal {
                    self.thinking_block(text.as_str(), environment.is_terminal)
                } else {
                    nothing()
                }
            },
            MessageContent::RedactedThinking => self.thinking_block(
                "Thinking was redacted",
                environment.is_terminal,
            ),
            MessageContent::SystemNotification(kind, message) => match kind {
                NotificationKind::ThinkingMessage => {
                    let mut out = self.show_thinking(environment.is_terminal);
                    let shown = self.set_thinking_message(
                        message.as_str(),
                        environment.is_terminal,
                    );
                    extend_outputs(&mut out, shown);
                    out
                },
                NotificationKind::InlineMessage => {
                    let mut out = self.hide_thinking(environment.is_terminal);
                    let mut content = nothing();
                    push_output(
                        &mut content,
                        Output::Line(
                            line_of(Style::plain().fg(Color::Yellow), message.as_str()),
                        ),
                    );
                    let block = self.render_block(ContentType::System, content);
                    extend_outputs(&mut out, block);
                    out
                },
            },
            MessageContent::Other => {
                let mut content = nothing();
                push_output(
                    &mut content,
                    Output::Line(
                        line_of(
                            Style::plain(),
                            "WARNING: Message content type could not be rendered",
                        ),
                    ),
                );
                self.render_block(ContentType::Error, content)
            },
        }
    }

    /// Renders the parts of a message in order and flushes standard output
    /// behind them. Texts are kept for `finish`. A quiet session renders
    /// nothing.
    pub fn render_message(
        &mut self,
        contents: &Vec<MessageContent>,
        debug: bool,
        environment: &Environment,
    ) -> (out: Vec<Output>)
        ensures
            (final(self)@, out.deep_view()) == message_outputs(
                old(self)@,
                contents_view(contents@),
                debug,
                environment.deep_view(),
            ),
    {
        if self.quiet {
            return nothing();
        }
        let ghost views = contents_view(contents@);
        let mut out = nothing();
        let mut index: usize = 0;
        while index < contents.len()
            invariant
                index <= contents.len(),
                views == contents_view(contents@),
                (self@, out.deep_view()) == contents_steps(
                    old(self)@,
                    views,
                    index as nat,
                    debug,
                    environment.deep_view(),
                ),
            decreases contents.len() - index,
        {
            let step = self.render_content(&contents[index], debug, environment);
            extend_outputs(&mut out, step);
            index = index + 1;
        }
        push_output(&mut out, Output::Flush);
        out
    }
}

} // verus!
