use crate::decimal::{decimal, decimal_text};
use crate::lines::{Color, Line, SpanView, Style};
use crate::output::{nothing, push_output, styled, Output, OutputView};
use crate::session::SessionOutput;
use crate::spacing::ContentType;
use crate::text::{repeat, repeated};
use vstd::prelude::*;

verus! {

/// How a session has come about, in a word: it is resumed, it is not kept,
/// or it is new.
pub open spec fn session_status(resume: bool, has_id: bool) -> Seq<char> {
    if resume {
        "resuming"@
    } else if !has_id {
        "ephemeral"@
    } else {
        "new session"@
    }
}

/// The model as it is shown: the lead model and the worker model with an
/// arrow between them, where there are two; the model's name otherwise.
pub open spec fn model_display(model: Seq<char>, lead_worker: Option<(Seq<char>, Seq<char>)>) -> Seq<
    char,
> {
    match lead_worker {
        Some((lead, worker)) => lead + " \u{2192} "@ + worker,
        None => model,
    }
}

/// The line that says how the session came about, and with which provider
/// and model it runs.
pub open spec fn session_line(
    status: Seq<char>,
    provider: Seq<char>,
    model: Seq<char>,
) -> Seq<SpanView> {
    seq![
        styled(Style::plain(), "  "@),
        styled(Style::plain().fg(Color::Green), "\u{25cf}"@),
        styled(Style::plain(), " "@),
        styled(Style::plain().dim(), status),
        styled(Style::plain(), " "@),
        styled(Style::plain().dim(), "\u{b7}"@),
        styled(Style::plain(), " "@),
        styled(Style::plain().dim(), provider),
        styled(Style::plain(), " "@),
        styled(Style::plain().fg(Color::Cyan), model),
    ]
}

/// The working directory as it is shown; `unknown` where it is not known.
pub open spec fn directory_display(directory: Option<Seq<char>>) -> Seq<char> {
    match directory {
        Some(directory) => directory,
        None => "unknown"@,
    }
}

/// The line that names the session, where it has a name, and the working
/// directory.
pub open spec fn place_line(session_id: Option<Seq<char>>, directory: Seq<char>) -> Seq<SpanView> {
    match session_id {
        Some(id) => seq![
            styled(Style::plain(), "  "@),
            styled(Style::plain().dim(), " "@),
            styled(Style::plain(), " "@),
            styled(Style::plain().dim(), id),
            styled(Style::plain(), " "@),
            styled(Style::plain().dim(), "\u{b7} "@ + directory),
        ],
        None => seq![
            styled(Style::plain(), "  "@),
            styled(Style::plain().dim(), " "@),
            styled(Style::plain(), " "@),
            styled(Style::plain().dim(), "  "@ + directory),
        ],
    }
}

/// The width of the bar that shows how much of the context is used.
pub open spec fn bar_width() -> nat {
    20
}

/// The bar that shows how much of the context is used: `filled` full
/// cells, and empty cells up to the width of the bar.
pub open spec fn usage_bar(filled: nat) -> Seq<char> {
    repeated("\u{2501}"@, filled) + repeated(
        "\u{254c}"@,
        if filled >= bar_width() {
            0
        } else {
            (bar_width() - filled) as nat
        },
    )
}

/// The style of the bar: green and dimmed below one half, yellow below 85
/// of 100, red from there.
pub open spec fn usage_style(percentage: nat) -> Style {
    if percentage < 50 {
        Style::plain().fg(Color::Green).dim()
    } else if percentage < 85 {
        Style::plain().fg(Color::Yellow)
    } else {
        Style::plain().fg(Color::Red)
    }
}

/// The line that shows how much of the context is used.
pub open spec fn usage_line(
    percentage: nat,
    filled: nat,
    used: Seq<char>,
    limit: Seq<char>,
) -> Seq<SpanView> {
    seq![
        styled(Style::plain(), "  "@),
        styled(usage_style(percentage), usage_bar(filled)),
        styled(Style::plain(), " "@),
        styled(Style::plain().dim(), decimal_text(percentage) + "%"@),
        styled(Style::plain(), " "@),
        styled(Style::plain().dim(), used + "/"@ + limit),
    ]
}

/// The line that says that the usage of the context is not known.
pub open spec fn usage_unavailable_line() -> Seq<SpanView> {
    seq![
        styled(Style::plain(), "  "@),
        styled(Style::plain().dim(), "context usage unavailable (context limit is 0)"@),
    ]
}

/// The line that says what the tokens of the session have cost.
pub open spec fn cost_line(cost: Seq<char>, input_tokens: nat, output_tokens: nat) -> Seq<SpanView> {
    seq![
        styled(Style::plain(), "Cost: "@),
        styled(Style::plain().fg(Color::Cyan), cost),
        styled(Style::plain(), " USD ("@),
        styled(Style::plain(), decimal_text(input_tokens + output_tokens)),
        styled(Style::plain(), " tokens: in "@),
        styled(Style::plain(), decimal_text(input_tokens)),
        styled(Style::plain(), ", out "@),
        styled(Style::plain(), decimal_text(output_tokens)),
        styled(Style::plain(), ")"@),
    ]
}

/// How much of the context is used, as the caller has worked it out.
#[derive(Debug, Clone, PartialEq, Eq)]
pub struct ContextUsage {
    /// The used part of the context, in parts of 100.
    pub percentage: usize,
    /// The number of full cells of the bar.
    pub filled: usize,
    /// The number of tokens that are used, as it is shown.
    pub used: String,
    /// The limit of the context in tokens, as it is shown.
    pub limit: String,
}

impl SessionOutput {
    /// Renders the lines that say which session this is, with which
    /// provider and model it runs, and in which directory.
    pub fn display_session_info(
        &mut self,
        resume: bool,
        provider: &str,
        model: &str,
        session_id: &Option<String>,
        lead_worker: Option<(&str, &str)>,
        directory: Option<&str>,
    ) -> (out: Vec<Output>)
        ensures
            (final(self)@, out.deep_view()) == old(self)@.unless_quiet(
                ContentType::System,
                seq![
                    OutputView::Line(
                        session_line(
                            session_status(resume, session_id is Some),
                            provider@,
                            model_display(
                                model@,
                                match lead_worker {
                                    Some((lead, worker)) => Some((lead@, worker@)),
                                    None => None,
                                },
                            ),
                        ),
                    ),
                    OutputView::Line(
                        place_line(
                            match session_id {
                                Some(id) => Some(id@),
                                None => None,
                            },
                            directory_display(directory.deep_view()),
                        ),
                    ),
                ],
            ),
    {
        if self.quiet {
            return nothing();
        }
        let status = if resume {
            "resuming"
        } else if session_id.is_none() {
            "ephemeral"
        } else {
            "new session"
        };
        let shown_model = match lead_worker {
            Some((lead, worker)) => {
                let mut text = lead.to_owned();
                text.append(" \u{2192} ");
                text.append(worker);
                text
            },
            None => model.to_owned(),
        };
        let mut first = Line::new();
        first.push(Style::plain(), "  ".to_owned());
        first.push(Style::plain().fg(Color::Green), "\u{25cf}".to_owned());
        first.push(Style::plain(), " ".to_owned());
        first.push(Style::plain().dim(), status.to_owned());
        first.push(Style::plain(), " ".to_owned());
        first.push(Style::plain().dim(), "\u{b7}".to_owned());
        first.push(Style::plain(), " ".to_owned());
        first.push(Style::plain().dim(), provider.to_owned());
        first.push(Style::plain(), " ".to_owned());
        first.push(Style::plain().fg(Color::Cyan), shown_model);
        assert(first.deep_view() == session_line(
            session_status(resume, session_id is Some),
            provider@,
            model_display(
                model@,
                match lead_worker {
                    Some((lead, worker)) => Some((lead@, worker@)),
                    None => None,
                },
            ),
        ));
        let shown_directory = match directory {
            Some(directory) => directory,
            None => "unknown",
        };
        let mut second = Line::new();
        second.push(Style::plain(), "  ".to_owned());
        second.push(Style::plain().dim(), " ".to_owned());
        second.push(Style::plain(), " ".to_owned());
        match session_id {
            Some(id) => {
                second.push(Style::plain().dim(), id.clone());
                second.push(Style::plain(), " ".to_owned());
                let mut place = "\u{b7} ".to_owned();
                place.append(shown_directory);
                second.push(Style::plain().dim(), place);
            },
            None => {
                let mut place = "  ".to_owned();
                place.append(shown_directory);
                second.push(Style::plain().dim(), place);
            },
        }
        assert(second.deep_view() == place_line(
            match session_id {
                Some(id) => Some(id@),
                None => None,
            },
            directory_display(directory.deep_view()),
        ));
        let mut content = nothing();
        push_output(&mut content, Output::Line(first));
        push_output(&mut content, Output::Line(second));
        self.render_block(ContentType::System, content)
    }

    /// Renders how much of the context is used: a bar, the used part in
    /// parts of 100, and the tokens that are used of those that there are.
    /// Without a usage, which is the case of a context whose limit is 0,
    /// one line says that the usage is not available.
    pub fn display_context_usage(&self, usage: &Option<ContextUsage>) -> (out: Vec<Output>)
        ensures
            out.deep_view() == if self@.quiet {
                Seq::empty()
            } else {
                match usage {
                    Some(usage) => seq![
                        OutputView::Line(
                            usage_line(
                                usage.percentage as nat,
                                usage.filled as nat,
                                usage.used@,
                                usage.limit@,
                            ),
                        ),
                    ],
                    None => seq![OutputView::Line(usage_unavailable_line())],
                }
            },
    {
        let mut out = nothing();
        if self.quiet {
            return out;
        }
        match usage {
            None => {
                let mut line = Line::new();
                line.push(Style::plain(), "  ".to_owned());
                line.push(
                    Style::plain().dim(),
                    "context usage unavailable (context limit is 0)".to_owned(),
                );
                assert(line.deep_view() == usage_unavailable_line());
                push_output(&mut out, Output::Line(line));
            },
            Some(usage) => {
                let empty: usize = if usage.filled >= 20 {
                    0
                } else {
                    20 - usage.filled
                };
                let mut bar = repeat("\u{2501}", usage.filled);
                bar.append(repeat("\u{254c}", empty).as_str());
                let style = if usage.percentage < 50 {
                    Style::plain().fg(Color::Green).dim()
                } else if usage.percentage < 85 {
                    Style::plain().fg(Color::Yellow)
                } else {
                    Style::plain().fg(Color::Red)
                };
                let mut share = decimal(usage.percentage as u128);
                share.append("%");
                let mut tokens = usage.used.clone();
                tokens.append("/");
                tokens.append(usage.limit.as_str());
                let mut line = Line::new();
                line.push(Style::plain(), "  ".to_owned());
                line.push(style, bar);
                line.push(Style::plain(), " ".to_owned());
                line.push(Style::plain().dim(), share);
                line.push(Style::plain(), " ".to_owned());
                line.push(Style::plain().dim(), tokens);
                assert(line.deep_view() == usage_line(
                    usage.percentage as nat,
                    usage.filled as nat,
                    usage.used@,
                    usage.limit@,
                ));
                push_output(&mut out, Output::Line(line));
            },
        }
        out
    }

    /// Renders what the tokens of the session have cost, on standard error,
    /// where the cost is known.
    pub fn display_cost_usage(&self, cost: Option<&str>, input_tokens: usize, output_tokens: usize) -> (out:
        Vec<Output>)
        ensures
            out.deep_view() == if self@.quiet {
                Seq::empty()
            } else {
                match cost {
                    Some(cost) => seq![
                        OutputView::ErrorLine(
                            cost_line(cost@, input_tokens as nat, output_tokens as nat),
                        ),
                    ],
                    None => Seq::empty(),
                }
            },
    {
        let mut out = nothing();
        if self.quiet {
            return out;
        }
        match cost {
            Some(cost) => {
                let mut line = Line::new();
                line.push(Style::plain(), "Cost: ".to_owned());
                line.push(Style::plain().fg(Color::Cyan), cost.to_owned());
                line.push(Style::plain(), " USD (".to_owned());
                line.push(Style::plain(), decimal(input_tokens as u128 + output_tokens as u128));
                line.push(Style::plain(), " tokens: in ".to_owned());
                line.push(Style::plain(), decimal(input_tokens as u128));
                line.push(Style::plain(), ", out ".to_owned());
                line.push(Style::plain(), decimal(output_tokens as u128));
                line.push(Style::plain(), ")".to_owned());
                assert(line.deep_view() == cost_line(
                    cost@,
                    input_tokens as nat,
                    output_tokens as nat,
                ));
                push_output(&mut out, Output::ErrorLine(line));
            },
            None => {},
        }
        out
    }
}

} // verus!
