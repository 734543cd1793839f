use crate::lines::{Color, Line, SpanView, Style};
use crate::output::{
    extend_outputs, line_of, nothing, push_output, styled, Output, OutputView,
};
use crate::session::SessionOutput;
use crate::spacing::ContentType;
use crate::text::string_views;
use vstd::prelude::*;

verus! {

/// One argument of a prompt.
#[derive(Debug, Clone, PartialEq, Eq)]
pub struct PromptArgument {
    pub name: String,
    pub description: Option<String>,
    pub required: Option<bool>,
}

/// The mathematical model of a [`PromptArgument`].
pub ghost struct PromptArgumentView {
    pub name: Seq<char>,
    pub description: Option<Seq<char>>,
    pub required: Option<bool>,
}

impl DeepView for PromptArgument {
    type V = PromptArgumentView;

    open spec fn deep_view(&self) -> PromptArgumentView {
        PromptArgumentView {
            name: self.name@,
            description: match self.description {
                Some(text) => Some(text@),
                None => None,
            },
            required: self.required,
        }
    }
}

/// What is known of a prompt.
#[derive(Debug, Clone, PartialEq, Eq)]
pub struct PromptInfo {
    pub name: String,
    pub description: Option<String>,
    pub arguments: Option<Vec<PromptArgument>>,
    pub extension: Option<String>,
}

/// The mathematical model of a [`PromptInfo`].
pub ghost struct PromptInfoView {
    pub name: Seq<char>,
    pub description: Option<Seq<char>>,
    pub arguments: Option<Seq<PromptArgumentView>>,
    pub extension: Option<Seq<char>>,
}

/// The models of the arguments of a prompt, in order.
pub open spec fn prompt_arguments_view(arguments: Seq<PromptArgument>) -> Seq<PromptArgumentView> {
    Seq::new(arguments.len(), |i: int| arguments[i].deep_view())
}

impl DeepView for PromptInfo {
    type V = PromptInfoView;

    open spec fn deep_view(&self) -> PromptInfoView {
        PromptInfoView {
            name: self.name@,
            description: match self.description {
                Some(text) => Some(text@),
                None => None,
            },
            arguments: match self.arguments {
                Some(arguments) => Some(prompt_arguments_view(arguments@)),
                None => None,
            },
            extension: match self.extension {
                Some(text) => Some(text@),
                None => None,
            },
        }
    }
}

/// The prompts of one extension: the extension's name and the names of its
/// prompts.
pub open spec fn prompt_groups_view(groups: Seq<(String, Vec<String>)>) -> Seq<
    (Seq<char>, Seq<Seq<char>>),
> {
    Seq::new(groups.len(), |i: int| (groups[i].0@, string_views(groups[i].1@)))
}

/// The line that names an extension above its prompts.
pub open spec fn prompt_extension_line(extension: Seq<char>) -> Seq<SpanView> {
    seq![styled(Style::plain(), " "@), styled(Style::plain().fg(Color::Green), extension)]
}

/// The line that names one prompt of an extension.
pub open spec fn prompt_name_line(prompt: Seq<char>) -> Seq<SpanView> {
    seq![styled(Style::plain(), "  - "@), styled(Style::plain().fg(Color::Cyan), prompt)]
}

/// A line for each of the first `count` of `prompts`, in order.
pub open spec fn prompt_name_lines(prompts: Seq<Seq<char>>, count: nat) -> Seq<OutputView>
    decreases count,
{
    if count == 0 || count > prompts.len() {
        Seq::empty()
    } else {
        prompt_name_lines(prompts, (count - 1) as nat).push(
            OutputView::Line(prompt_name_line(prompts[count - 1])),
        )
    }
}

/// The lines of the first `count` of `groups`, in order: for each the
/// extension's name, and then a line for each of its prompts.
pub open spec fn prompt_group_lines(groups: Seq<(Seq<char>, Seq<Seq<char>>)>, count: nat) -> Seq<
    OutputView,
>
    decreases count,
{
    if count == 0 || count > groups.len() {
        Seq::empty()
    } else {
        prompt_group_lines(groups, (count - 1) as nat).push(
            OutputView::Line(prompt_extension_line(groups[count - 1].0)),
        ) + prompt_name_lines(groups[count - 1].1, groups[count - 1].1.len())
    }
}

/// The line that names the extension of a prompt.
pub open spec fn info_extension_line(extension: Seq<char>) -> Seq<SpanView> {
    seq![
        styled(Style::plain(), " "@),
        styled(Style::plain().fg(Color::Green), "Extension"@),
        styled(Style::plain(), ": "@),
        styled(Style::plain(), extension),
    ]
}

/// The line that names a prompt.
pub open spec fn info_name_line(name: Seq<char>) -> Seq<SpanView> {
    seq![
        styled(Style::plain(), " Prompt: "@),
        styled(Style::plain().fg(Color::Cyan).bold(), name),
    ]
}

/// The description of a prompt, behind a blank line.
pub open spec fn info_description_line(description: Seq<char>) -> Seq<SpanView> {
    seq![styled(Style::plain(), "\n "@), styled(Style::plain(), description)]
}

/// The mark of an argument: in red where it is required, dimmed where it
/// is not or where nothing is said of it.
pub open spec fn requirement_span(required: Option<bool>) -> SpanView {
    if required == Some(true) {
        styled(Style::plain().fg(Color::Red), "(required)"@)
    } else {
        styled(Style::plain().dim(), "(optional)"@)
    }
}

/// The line of one argument of a prompt: its name, whether it is required,
/// and its description.
pub open spec fn argument_line(argument: PromptArgumentView) -> Seq<SpanView> {
    seq![
        styled(Style::plain(), "  "@),
        styled(Style::plain().fg(Color::Yellow), argument.name),
        styled(Style::plain(), " "@),
        requirement_span(argument.required),
        styled(Style::plain(), " "@),
        styled(
            Style::plain(),
            match argument.description {
                Some(text) => text,
                None => Seq::empty(),
            },
        ),
    ]
}

/// A line for each of the first `count` of `arguments`, in order.
pub open spec fn argument_lines(arguments: Seq<PromptArgumentView>, count: nat) -> Seq<OutputView>
    decreases count,
{
    if count == 0 || count > arguments.len() {
        Seq::empty()
    } else {
        argument_lines(arguments, (count - 1) as nat).push(
            OutputView::Line(argument_line(arguments[count - 1])),
        )
    }
}

/// The arguments of a prompt: a heading and a line for each argument; none
/// in a quiet session or where nothing is known of the arguments.
pub open spec fn arguments_outputs(quiet: bool, info: PromptInfoView) -> Seq<OutputView> {
    if quiet {
        Seq::empty()
    } else {
        match info.arguments {
            Some(arguments) => seq![
                OutputView::Line(seq![styled(Style::plain(), "\n Arguments:"@)]),
            ] + argument_lines(arguments, arguments.len()),
            None => Seq::empty(),
        }
    }
}

/// What is shown of a prompt: its extension, where one is known; its name;
/// its description, where it has one; and its arguments.
pub open spec fn prompt_info_content(info: PromptInfoView) -> Seq<OutputView> {
    (match info.extension {
        Some(extension) => seq![OutputView::Line(info_extension_line(extension))],
        None => Seq::empty(),
    }) + seq![OutputView::Line(info_name_line(info.name))] + (match info.description {
        Some(description) => seq![OutputView::Line(info_description_line(description))],
        None => Seq::empty(),
    }) + arguments_outputs(false, info)
}

fn prompt_names(prompts: &Vec<String>) -> (out: Vec<Output>)
    ensures
        out.deep_view() == prompt_name_lines(string_views(prompts@), prompts@.len()),
{
    let ghost views = string_views(prompts@);
    let mut out = nothing();
    let mut index: usize = 0;
    while index < prompts.len()
        invariant
            index <= prompts.len(),
            views == string_views(prompts@),
            out.deep_view() == prompt_name_lines(views, index as nat),
        decreases prompts.len() - index,
    {
        let mut line = Line::new();
        line.push(Style::plain(), "  - ".to_owned());
        line.push(Style::plain().fg(Color::Cyan), prompts[index].clone());
        assert(line.deep_view() == prompt_name_line(views[index as int]));
        push_output(&mut out, Output::Line(line));
        index = index + 1;
    }
    out
}

fn argument_output(argument: &PromptArgument) -> (out: Output)
    ensures
        out.deep_view() == OutputView::Line(argument_line(argument.deep_view())),
{
    let required = match argument.required {
        Some(required) => required,
        None => false,
    };
    let mut line = Line::new();
    line.push(Style::plain(), "  ".to_owned());
    line.push(Style::plain().fg(Color::Yellow), argument.name.clone());
    line.push(Style::plain(), " ".to_owned());
    if required {
        line.push(Style::plain().fg(Color::Red), "(required)".to_owned());
    } else {
        line.push(Style::plain().dim(), "(optional)".to_owned());
    }
    line.push(Style::plain(), " ".to_owned());
    let description = match &argument.description {
        Some(text) => text.clone(),
        None => String::new(),
    };
    line.push(Style::plain(), description);
    assert(line.deep_view() == argument_line(argument.deep_view()));
    Output::Line(line)
}

impl SessionOutput {
    /// Renders the names of the prompts of each extension, in the order
    /// given.
    pub fn render_prompts(&mut self, prompts: &Vec<(String, Vec<String>)>) -> (out: Vec<Output>)
        ensures
            (final(self)@, out.deep_view()) == old(self)@.unless_quiet(
                ContentType::Prompt,
                prompt_group_lines(prompt_groups_view(prompts@), prompts@.len()),
            ),
    {
        if self.quiet {
            return nothing();
        }
        let ghost views = prompt_groups_view(prompts@);
        let mut content = nothing();
        let mut index: usize = 0;
        while index < prompts.len()
            invariant
                index <= prompts.len(),
                views == prompt_groups_view(prompts@),
                content.deep_view() == prompt_group_lines(views, index as nat),
            decreases prompts.len() - index,
        {
            let mut line = Line::new();
            line.push(Style::plain(), " ".to_owned());
            line.push(Style::plain().fg(Color::Green), prompts[index].0.clone());
            assert(line.deep_view() == prompt_extension_line(views[index as int].0));
            push_output(&mut content, Output::Line(line));
            let names = prompt_names(&prompts[index].1);
            extend_outputs(&mut content, names);
            index = index + 1;
        }
        self.render_block(ContentType::Prompt, content)
    }

    /// Renders what is known of a prompt.
    pub fn render_prompt_info(&mut self, info: &PromptInfo) -> (out: Vec<Output>)
        ensures
            (final(self)@, out.deep_view()) == old(self)@.unless_quiet(
                ContentType::Prompt,
                prompt_info_content(info.deep_view()),
            ),
    {
        if self.quiet {
            return nothing();
        }
        let mut content = nothing();
        match &info.extension {
            Some(extension) => {
                let mut line = Line::new();
                line.push(Style::plain(), " ".to_owned());
                line.push(Style::plain().fg(Color::Green), "Extension".to_owned());
                line.push(Style::plain(), ": ".to_owned());
                line.push(Style::plain(), extension.clone());
                assert(line.deep_view() == info_extension_line(extension@));
                push_output(&mut content, Output::Line(line));
            },
            None => {},
        }
        let mut line = Line::new();
        line.push(Style::plain(), " Prompt: ".to_owned());
        line.push(Style::plain().fg(Color::Cyan).bold(), info.name.clone());
        assert(line.deep_view() == info_name_line(info.name@));
        push_output(&mut content, Output::Line(line));
        match &info.description {
            Some(description) => {
                let mut line = Line::new();
                line.push(Style::plain(), "\n ".to_owned());
                line.push(Style::plain(), description.clone());
                assert(line.deep_view() == info_description_line(description@));
                push_output(&mut content, Output::Line(line));
            },
            None => {},
        }
        let arguments = self.render_arguments(info);
        extend_outputs(&mut content, arguments);
        assert(content.deep_view() =~= prompt_info_content(info.deep_view()));
        self.render_block(ContentType::Prompt, content)
    }

    /// Renders the arguments of a prompt.
    pub fn render_arguments(&self, info: &PromptInfo) -> (out: Vec<Output>)
        ensures
            out.deep_view() == arguments_outputs(self@.quiet, info.deep_view()),
    {
        let mut out = nothing();
        if self.quiet {
            return out;
        }
        match &info.arguments {
            Some(arguments) => {
                let ghost views = prompt_arguments_view(arguments@);
                push_output(
                    &mut out,
                    Output::Line(line_of(Style::plain(), "\n Arguments:")),
                );
                let ghost heading = out.deep_view();
                let mut index: usize = 0;
                assert(out.deep_view() =~= heading + argument_lines(views, 0));
                while index < arguments.len()
                    invariant
                        index <= arguments.len(),
                        views == prompt_arguments_view(arguments@),
                        out.deep_view() == heading + argument_lines(views, index as nat),
                    decreases arguments.len() - index,
                {
                    push_output(&mut out, argument_output(&arguments[index]));
                    index = index + 1;
                    assert(out.deep_view() =~= heading + argument_lines(views, index as nat));
                }
            },
            None => {},
        }
        out
    }
}

} // verus!
