use crate::lines::{Color, Line, SpanView, Style};
use crate::output::{
    as_lines, extend_outputs, extend_with_lines, line_of, nothing, push_output, styled, Output,
    OutputView,
};
use crate::path::{shorten_path, shortened};
use crate::printer::{params_lines, print_params, DisplayMode};
use crate::render::{subagent_message, tool_header_line};
use crate::session::{SessionOutput, SessionView};
use crate::spacing::ContentType;
use crate::decimal::{decimal, decimal_text};
use crate::session::markdown_outputs;
use crate::text::{
    join, joined, last_piece, same_text, split_on, string_views, truncate, truncated,
};
use crate::value::items_view;
use crate::value::{
    duplicate_entries, entries_view, entries_without, get, lookup, without_keys, StructuredValue,
    ValueView,
};
use crate::width::RenderBudget;
use vstd::prelude::*;

verus! {

/// A call of a tool: the tool's name and the arguments of the call.
#[derive(Debug, PartialEq, Eq)]
pub struct ToolCall {
    pub name: String,
    pub arguments: Option<Vec<(String, StructuredValue)>>,
}

/// The mathematical model of a [`ToolCall`].
pub ghost struct ToolCallView {
    pub name: Seq<char>,
    pub arguments: Option<Seq<(Seq<char>, ValueView)>>,
}

/// The models of the arguments of a call.
pub open spec fn arguments_view(arguments: Option<Vec<(String, StructuredValue)>>) -> Option<
    Seq<(Seq<char>, ValueView)>,
> {
    match arguments {
        Some(entries) => Some(entries_view(entries@)),
        None => None,
    }
}

impl DeepView for ToolCall {
    type V = ToolCallView;

    open spec fn deep_view(&self) -> ToolCallView {
        ToolCallView { name: self.name@, arguments: arguments_view(self.arguments) }
    }
}

/// What is known of the terminal and of the environment at the time of
/// rendering.
#[derive(Debug, Clone, PartialEq, Eq)]
pub struct Environment {
    /// Standard output is a terminal.
    pub is_terminal: bool,
    /// The columns of the terminal, where they are known.
    pub budget: RenderBudget,
    /// The home directory, where one is known.
    pub home: Option<String>,
    /// Thoughts of the model are to be shown.
    pub show_thinking: bool,
}

/// The mathematical model of an [`Environment`].
pub ghost struct EnvironmentView {
    pub is_terminal: bool,
    pub budget: RenderBudget,
    pub home: Option<Seq<char>>,
    pub show_thinking: bool,
}

impl DeepView for Environment {
    type V = EnvironmentView;

    open spec fn deep_view(&self) -> EnvironmentView {
        EnvironmentView {
            is_terminal: self.is_terminal,
            budget: self.budget,
            home: match self.home {
                Some(home) => Some(home@),
                None => None,
            },
            show_thinking: self.show_thinking,
        }
    }
}

/// The lines of the arguments of a call at nesting depth `depth`; none
/// where the call has no arguments.
pub open spec fn params_outputs(
    session: SessionView,
    arguments: Option<Seq<(Seq<char>, ValueView)>>,
    depth: nat,
    debug: bool,
    budget: RenderBudget,
) -> Seq<OutputView> {
    match arguments {
        Some(entries) => as_lines(
            params_lines(
                entries,
                depth,
                DisplayMode::from_flags(session.show_full_tool_output, debug),
                budget,
            ),
        ),
        None => Seq::empty(),
    }
}

/// The line that names the tool of a call; none in a quiet session.
pub open spec fn header_outputs(session: SessionView, name: Seq<char>) -> Seq<OutputView> {
    if session.quiet {
        Seq::empty()
    } else {
        seq![OutputView::Line(tool_header_line(name))]
    }
}

/// A line that shows one argument by its name and its text, both dimmed.
pub open spec fn labelled_line(label: Seq<char>, text: Seq<char>) -> Seq<SpanView> {
    seq![
        styled(Style::plain(), "    "@),
        styled(Style::plain().dim(), label),
        styled(Style::plain(), " "@),
        styled(Style::plain().dim(), text),
    ]
}

/// The argument `key`, where it is a string.
pub open spec fn text_argument(arguments: Seq<(Seq<char>, ValueView)>, key: Seq<char>) -> Option<
    Seq<char>,
> {
    match lookup(arguments, key) {
        Some(ValueView::Text(text)) => Some(text),
        _ => None,
    }
}

/// The line of the argument `label` with the text `shown`, where there is
/// one.
pub open spec fn labelled_outputs(label: Seq<char>, shown: Option<Seq<char>>) -> Seq<OutputView> {
    match shown {
        Some(text) => seq![OutputView::Line(labelled_line(label, text))],
        None => Seq::empty(),
    }
}

/// The path of a call of the text editor in short, where the call has one.
pub open spec fn path_outputs(
    arguments: Seq<(Seq<char>, ValueView)>,
    debug: bool,
    home: Option<Seq<char>>,
) -> Seq<OutputView> {
    labelled_outputs(
        "path"@,
        match text_argument(arguments, "path"@) {
            Some(path) => Some(shortened(path, home, debug)),
            None => None,
        },
    )
}

/// The instructions of a delegated task, where the call has them.
pub open spec fn instructions_outputs(arguments: Seq<(Seq<char>, ValueView)>, debug: bool) -> Seq<
    OutputView,
> {
    labelled_outputs(
        "instructions"@,
        match text_argument(arguments, "instructions"@) {
            Some(instructions) => Some(shown_instructions(instructions, debug)),
            None => None,
        },
    )
}

/// Every argument but those with one of the keys `keys`, one level deep.
pub open spec fn other_outputs(
    session: SessionView,
    arguments: Seq<(Seq<char>, ValueView)>,
    keys: Seq<Seq<char>>,
    debug: bool,
    budget: RenderBudget,
) -> Seq<OutputView> {
    params_outputs(session, Some(without_keys(arguments, keys)), 1, debug, budget)
}

/// A call of any tool that has no form of its own: the tool's name, and
/// every argument one level deep.
pub open spec fn default_request(
    session: SessionView,
    call: ToolCallView,
    debug: bool,
    environment: EnvironmentView,
) -> Seq<OutputView> {
    header_outputs(session, call.name) + params_outputs(
        session,
        call.arguments,
        1,
        debug,
        environment.budget,
    )
}

/// A call of the text editor: the tool's name, the path in short, where
/// the call has one, and every other argument one level deep.
pub open spec fn text_editor_request(
    session: SessionView,
    call: ToolCallView,
    debug: bool,
    environment: EnvironmentView,
) -> Seq<OutputView> {
    header_outputs(session, call.name) + match call.arguments {
        Some(arguments) => path_outputs(arguments, debug, environment.home) + other_outputs(
            session,
            arguments,
            seq!["path"@],
            debug,
            environment.budget,
        ),
        None => Seq::empty(),
    }
}

/// A call that writes the list of things to do: the tool's name and the
/// content, where the call has one.
pub open spec fn todo_request(session: SessionView, call: ToolCallView) -> Seq<OutputView> {
    header_outputs(session, call.name) + match call.arguments {
        Some(arguments) => labelled_outputs("content"@, text_argument(arguments, "content"@)),
        None => Seq::empty(),
    }
}

/// The instructions of a delegated task as they are shown: in full with
/// `debug` set, their first 100 characters otherwise.
pub open spec fn shown_instructions(instructions: Seq<char>, debug: bool) -> Seq<char> {
    if debug {
        instructions
    } else {
        truncated(instructions, 100)
    }
}

/// The parameters of a delegated task: a line that names them, and their
/// entries two levels deep; none where the call has no object of
/// parameters.
pub open spec fn parameters_outputs(
    session: SessionView,
    arguments: Seq<(Seq<char>, ValueView)>,
    debug: bool,
    budget: RenderBudget,
) -> Seq<OutputView> {
    match lookup(arguments, "parameters"@) {
        Some(ValueView::Object(parameters)) => seq![
            OutputView::Line(
                seq![
                    styled(Style::plain(), "    "@),
                    styled(Style::plain().dim(), "parameters"@),
                    styled(Style::plain(), ":"@),
                ],
            ),
        ] + params_outputs(session, Some(parameters), 2, debug, budget),
        _ => Seq::empty(),
    }
}

/// A call that hands a task to another agent: the tool's name, the source,
/// the instructions and the parameters, each where the call has it, and
/// every other argument one level deep.
pub open spec fn delegate_request(
    session: SessionView,
    call: ToolCallView,
    debug: bool,
    environment: EnvironmentView,
) -> Seq<OutputView> {
    header_outputs(session, call.name) + match call.arguments {
        Some(arguments) => labelled_outputs("source"@, text_argument(arguments, "source"@))
            + instructions_outputs(arguments, debug) + parameters_outputs(
            session,
            arguments,
            debug,
            environment.budget,
        ) + other_outputs(
            session,
            arguments,
            seq!["source"@, "instructions"@, "parameters"@],
            debug,
            environment.budget,
        ),
        None => Seq::empty(),
    }
}

/// The graph of tool calls among the arguments of a call, where it is an
/// array that is not empty.
pub open spec fn tool_graph(arguments: Option<Seq<(Seq<char>, ValueView)>>) -> Option<
    Seq<ValueView>,
> {
    match arguments {
        Some(arguments) => match lookup(arguments, "tool_graph"@) {
            Some(ValueView::Array(items)) => if items.len() > 0 {
                Some(items)
            } else {
                None
            },
            _ => None,
        },
        None => None,
    }
}

/// The ending of a word that stands for `count` things.
pub open spec fn plural(count: nat) -> Seq<char> {
    if count == 1 {
        Seq::empty()
    } else {
        "s"@
    }
}

/// The places of the calls that a call uses, as they are shown: each whole
/// number that is not negative among the first `count` of `items`, counted
/// from one.
pub open spec fn dependency_texts(items: Seq<ValueView>, count: nat) -> Seq<Seq<char>>
    decreases count,
{
    if count == 0 || count > items.len() {
        Seq::empty()
    } else {
        let before = dependency_texts(items, (count - 1) as nat);
        match items[count - 1] {
            ValueView::Number(number) => match number.as_unsigned() {
                Some(place) => before.push(decimal_text((place + 1) as nat)),
                None => before,
            },
            _ => before,
        }
    }
}

/// What a node of the graph says of the calls that it uses; nothing where
/// it uses none.
pub open spec fn dependencies_text(node: Seq<(Seq<char>, ValueView)>) -> Seq<char> {
    let texts = match lookup(node, "depends_on"@) {
        Some(ValueView::Array(items)) => dependency_texts(items, items.len()),
        _ => Seq::empty(),
    };
    if texts.len() == 0 {
        Seq::empty()
    } else {
        " (uses "@ + joined(texts, ", "@) + ")"@
    }
}

/// The name of the tool of a node; `unknown` where it names none.
pub open spec fn node_tool(node: Seq<(Seq<char>, ValueView)>) -> Seq<char> {
    match text_argument(node, "tool"@) {
        Some(tool) => tool,
        None => "unknown"@,
    }
}

/// The description of a node; empty where it has none.
pub open spec fn node_description(node: Seq<(Seq<char>, ValueView)>) -> Seq<char> {
    match text_argument(node, "description"@) {
        Some(description) => description,
        None => Seq::empty(),
    }
}

/// The line of the node that is shown as number `number` of a graph.
pub open spec fn node_line(number: nat, node: Seq<(Seq<char>, ValueView)>) -> Seq<SpanView> {
    seq![
        styled(Style::plain(), "    "@),
        styled(Style::plain().dim(), decimal_text(number)),
        styled(Style::plain(), ". "@),
        styled(Style::plain().dim(), node_tool(node)),
        styled(Style::plain(), " "@),
        styled(Style::plain().dim(), node_description(node)),
        styled(Style::plain().dim(), dependencies_text(node)),
    ]
}

/// The lines of the nodes among the first `count` of `items`: one line for
/// each item that is an object, numbered from one in their order.
pub open spec fn graph_lines(items: Seq<ValueView>, count: nat) -> Seq<Seq<SpanView>>
    decreases count,
{
    if count == 0 || count > items.len() {
        Seq::empty()
    } else {
        let before = graph_lines(items, (count - 1) as nat);
        match items[count - 1] {
            ValueView::Object(node) => before.push(node_line(before.len() + 1, node)),
            _ => before,
        }
    }
}

/// The line above the graph of a call that runs code.
pub open spec fn execute_header_line(count: nat) -> Seq<SpanView> {
    seq![
        styled(Style::plain(), "  "@),
        styled(Style::plain().dim(), "\u{25b8}"@),
        styled(Style::plain(), " "@),
        styled(Style::plain().dim(), "execute"@),
        styled(Style::plain(), " "@),
        styled(Style::plain().dim(), decimal_text(count)),
        styled(Style::plain(), " tool call"@),
        styled(Style::plain(), plural(count)),
    ]
}

/// The code of a call that runs code, in green: shown with `debug` set
/// where the call has code that is not empty.
pub open spec fn code_outputs(arguments: Option<Seq<(Seq<char>, ValueView)>>, debug: bool) -> Seq<
    OutputView,
> {
    match arguments {
        Some(arguments) => match text_argument(arguments, "code"@) {
            Some(code) => if code.len() > 0 && debug {
                seq![OutputView::Line(seq![styled(Style::plain().fg(Color::Green), code)])]
            } else {
                Seq::empty()
            },
            None => Seq::empty(),
        },
        None => Seq::empty(),
    }
}

/// A call that runs code: where it has a graph of tool calls, a line with
/// the number of calls, a line for each node of the graph and, with
/// `debug` set, the code; without a graph, the call as a call of any tool.
pub open spec fn execute_code_request(
    session: SessionView,
    call: ToolCallView,
    debug: bool,
    environment: EnvironmentView,
) -> Seq<OutputView> {
    match tool_graph(call.arguments) {
        Some(items) => seq![OutputView::Line(execute_header_line(items.len()))] + as_lines(
            graph_lines(items, items.len()),
        ) + code_outputs(call.arguments, debug),
        None => default_request(session, call, debug, environment),
    }
}

/// The form in which the call of a tool is shown.
#[derive(Debug, Clone, Copy, PartialEq, Eq, Structural)]
pub enum RequestForm {
    TextEditor,
    Shell,
    ExecuteCode,
    Delegate,
    Todo,
    Default,
}

/// The form in which a call of the tool `name` is shown.
pub open spec fn form_of(name: Seq<char>) -> RequestForm {
    if name == "developer__text_editor"@ {
        RequestForm::TextEditor
    } else if name == "developer__shell"@ {
        RequestForm::Shell
    } else if name == "execute"@ || name == "execute_code"@ {
        RequestForm::ExecuteCode
    } else if name == "delegate"@ || name == "subagent"@ {
        RequestForm::Delegate
    } else if name == "todo__write"@ {
        RequestForm::Todo
    } else {
        RequestForm::Default
    }
}

/// A request to call a tool: the call in the form of its tool, or the
/// reason why there is no call, as markdown.
pub open spec fn tool_request(
    session: SessionView,
    request: Result<ToolCallView, Seq<char>>,
    debug: bool,
    environment: EnvironmentView,
) -> Seq<OutputView> {
    match request {
        Ok(call) => match form_of(call.name) {
            RequestForm::TextEditor => text_editor_request(session, call, debug, environment),
            RequestForm::Shell => default_request(session, call, debug, environment),
            RequestForm::ExecuteCode => execute_code_request(session, call, debug, environment),
            RequestForm::Delegate => delegate_request(session, call, debug, environment),
            RequestForm::Todo => todo_request(session, call),
            RequestForm::Default => default_request(session, call, debug, environment),
        },
        Err(reason) => markdown_outputs(
            session.quiet,
            session.theme,
            reason,
            environment.is_terminal,
        ),
    }
}

/// The model of a request to call a tool.
pub open spec fn request_view(request: Result<ToolCall, String>) -> Result<
    ToolCallView,
    Seq<char>,
> {
    match request {
        Ok(call) => Ok(call.deep_view()),
        Err(reason) => Err(reason@),
    }
}

/// The line above the graph of a subagent's call that runs code.
pub open spec fn subagent_graph_header_line(subagent_id: Seq<char>, count: nat) -> Seq<SpanView> {
    seq![
        styled(Style::plain(), "  "@),
        styled(Style::plain().dim(), "\u{25b8}"@),
        styled(Style::plain(), " "@),
        styled(
            Style::plain().dim(),
            "[subagent:"@ + split_on(subagent_id, '_').last() + "]"@,
        ),
        styled(Style::plain(), " "@),
        styled(Style::plain().dim(), "execute_code"@),
        styled(Style::plain(), " "@),
        styled(Style::plain().dim(), decimal_text(count)),
        styled(Style::plain(), " tool call"@),
        styled(Style::plain(), plural(count)),
    ]
}

/// The graph of a subagent's call that runs code, as a block of its own.
pub open spec fn subagent_graph_content(subagent_id: Seq<char>, items: Seq<ValueView>) -> Seq<
    OutputView,
> {
    seq![OutputView::Line(subagent_graph_header_line(subagent_id, items.len()))] + as_lines(
        graph_lines(items, items.len()),
    )
}

/// The line that names a subagent's call of a tool.
pub open spec fn subagent_header_line(subagent_id: Seq<char>, tool_name: Seq<char>) -> Seq<
    SpanView,
> {
    seq![
        styled(Style::plain(), "  "@),
        styled(Style::plain().dim(), "\u{25b8}"@),
        styled(Style::plain(), " "@),
        styled(Style::plain().dim(), subagent_message(subagent_id, tool_name)),
    ]
}

/// A subagent's call of a tool: the graph where the tool runs code and the
/// call has one; otherwise a line that names the call, and every argument
/// one level deep.
pub open spec fn subagent_call_content(
    session: SessionView,
    subagent_id: Seq<char>,
    tool_name: Seq<char>,
    arguments: Option<Seq<(Seq<char>, ValueView)>>,
    debug: bool,
    budget: RenderBudget,
) -> Seq<OutputView> {
    if tool_name == "code_execution__execute_code"@ && tool_graph(arguments) is Some {
        subagent_graph_content(subagent_id, tool_graph(arguments)->0)
    } else {
        seq![OutputView::Line(subagent_header_line(subagent_id, tool_name))] + params_outputs(
            session,
            arguments,
            1,
            debug,
            budget,
        )
    }
}

/// The form in which a call of the tool `name` is shown.
pub fn request_form(name: &str) -> (out: RequestForm)
    ensures
        out == form_of(name@),
{
    if same_text(name, "developer__text_editor") {
        RequestForm::TextEditor
    } else if same_text(name, "developer__shell") {
        RequestForm::Shell
    } else if same_text(name, "execute") || same_text(name, "execute_code") {
        RequestForm::ExecuteCode
    } else if same_text(name, "delegate") || same_text(name, "subagent") {
        RequestForm::Delegate
    } else if same_text(name, "todo__write") {
        RequestForm::Todo
    } else {
        RequestForm::Default
    }
}

/// Finds the graph of tool calls among the arguments of a call.
pub fn graph_of(arguments: &Option<Vec<(String, StructuredValue)>>) -> (out: Option<
    &Vec<StructuredValue>,
>)
    ensures
        match out {
            Some(items) => tool_graph(arguments_view(*arguments)) == Some(items_view(items@)),
            None => tool_graph(arguments_view(*arguments)) is None,
        },
{
    match arguments {
        Some(entries) => match get(entries, "tool_graph") {
            Some(StructuredValue::Array(items)) => {
                assert(StructuredValue::Array(*items).deep_view() == ValueView::Array(
                    items_view(items@),
                ));
                if items.len() > 0 {
                    Some(items)
                } else {
                    None
                }
            },
            _ => None,
        },
        None => None,
    }
}

fn plural_string(count: usize) -> (out: String)
    ensures
        out@ == plural(count as nat),
{
    if count == 1 {
        String::new()
    } else {
        "s".to_owned()
    }
}

fn dependency_strings(items: &Vec<StructuredValue>) -> (out: Vec<String>)
    ensures
        string_views(out@) == dependency_texts(items_view(items@), items@.len()),
{
    let ghost views = items_view(items@);
    let mut texts: Vec<String> = Vec::new();
    let mut index: usize = 0;
    assert(string_views(texts@) =~= dependency_texts(views, 0));
    while index < items.len()
        invariant
            index <= items.len(),
            views == items_view(items@),
            string_views(texts@) == dependency_texts(views, index as nat),
        decreases items.len() - index,
    {
        let ghost before = string_views(texts@);
        match &items[index] {
            StructuredValue::Number(number) => {
                match number.as_u64() {
                    Some(place) => {
                        let text = decimal(place as u128 + 1);
                        texts.push(text);
                        assert(string_views(texts@) =~= before.push(text@));
                    },
                    None => {},
                }
            },
            _ => {},
        }
        index = index + 1;
    }
    texts
}

fn dependencies_string(node: &Vec<(String, StructuredValue)>) -> (out: String)
    ensures
        out@ == dependencies_text(entries_view(node@)),
{
    let texts = match get(node, "depends_on") {
        Some(StructuredValue::Array(items)) => {
            assert(StructuredValue::Array(*items).deep_view() == ValueView::Array(
                items_view(items@),
            ));
            dependency_strings(items)
        },
        _ => {
            let none: Vec<String> = Vec::new();
            assert(string_views(none@) =~= Seq::<Seq<char>>::empty());
            none
        },
    };
    if texts.len() == 0 {
        String::new()
    } else {
        let mut out = " (uses ".to_owned();
        out.append(join(&texts, ", ").as_str());
        out.append(")");
        out
    }
}

fn node_output(number: usize, node: &Vec<(String, StructuredValue)>) -> (out: Output)
    ensures
        out.deep_view() == OutputView::Line(node_line(number as nat, entries_view(node@))),
{
    let tool = match text_of(node, "tool") {
        Some(tool) => tool.clone(),
        None => "unknown".to_owned(),
    };
    let description = match text_of(node, "description") {
        Some(description) => description.clone(),
        None => String::new(),
    };
    let mut line = Line::new();
    line.push(Style::plain(), "    ".to_owned());
    line.push(Style::plain().dim(), decimal(number as u128));
    line.push(Style::plain(), ". ".to_owned());
    line.push(Style::plain().dim(), tool);
    line.push(Style::plain(), " ".to_owned());
    line.push(Style::plain().dim(), description);
    line.push(Style::plain().dim(), dependencies_string(node));
    assert(line.deep_view() == node_line(number as nat, entries_view(node@)));
    Output::Line(line)
}

/// The lines of the nodes of a graph of tool calls.
pub fn graph_outputs(items: &Vec<StructuredValue>) -> (out: Vec<Output>)
    ensures
        out.deep_view() == as_lines(graph_lines(items_view(items@), items@.len())),
{
    let ghost views = items_view(items@);
    let mut out = nothing();
    let mut shown: usize = 0;
    let mut index: usize = 0;
    assert(out.deep_view() =~= as_lines(graph_lines(views, 0)));
    while index < items.len()
        invariant
            index <= items.len(),
            shown <= index,
            views == items_view(items@),
            shown == graph_lines(views, index as nat).len(),
            out.deep_view() == as_lines(graph_lines(views, index as nat)),
        decreases items.len() - index,
    {
        let ghost before = graph_lines(views, index as nat);
        match &items[index] {
            StructuredValue::Object(node) => {
                assert(items@[index as int].deep_view() == ValueView::Object(
                    entries_view(node@),
                ));
                shown = shown + 1;
                let line = node_output(shown, node);
                push_output(&mut out, line);
                assert(out.deep_view() =~= as_lines(
                    before.push(node_line(shown as nat, entries_view(node@))),
                ));
            },
            _ => {},
        }
        index = index + 1;
    }
    out
}

fn labelled(label: &str, text: &str) -> (out: Output)
    ensures
        out.deep_view() == OutputView::Line(labelled_line(label@, text@)),
{
    let mut line = Line::new();
    line.push(Style::plain(), "    ".to_owned());
    line.push(Style::plain().dim(), label.to_owned());
    line.push(Style::plain(), " ".to_owned());
    line.push(Style::plain().dim(), text.to_owned());
    assert(line.deep_view() == labelled_line(label@, text@));
    Output::Line(line)
}

fn text_of<'a>(arguments: &'a Vec<(String, StructuredValue)>, key: &str) -> (out: Option<
    &'a String,
>)
    ensures
        out.deep_view() == text_argument(entries_view(arguments@), key@),
{
    match get(arguments, key) {
        Some(StructuredValue::Text(text)) => Some(text),
        _ => None,
    }
}

fn labelled_if(label: &str, shown: Option<&String>) -> (out: Vec<Output>)
    ensures
        out.deep_view() == labelled_outputs(label@, shown.deep_view()),
{
    let mut out = nothing();
    match shown {
        Some(text) => {
            push_output(&mut out, labelled(label, text.as_str()));
        },
        None => {},
    }
    out
}

fn path_part(arguments: &Vec<(String, StructuredValue)>, debug: bool, environment: &Environment) -> (out:
    Vec<Output>)
    ensures
        out.deep_view() == path_outputs(
            entries_view(arguments@),
            debug,
            environment.deep_view().home,
        ),
{
    match text_of(arguments, "path") {
        Some(path) => {
            let home = match &environment.home {
                Some(home) => Some(home.as_str()),
                None => None,
            };
            let short = shorten_path(path.as_str(), home, debug);
            labelled_if("path", Some(&short))
        },
        None => labelled_if("path", None),
    }
}

fn instructions_part(arguments: &Vec<(String, StructuredValue)>, debug: bool) -> (out: Vec<Output>)
    ensures
        out.deep_view() == instructions_outputs(entries_view(arguments@), debug),
{
    match text_of(arguments, "instructions") {
        Some(instructions) => {
            let display = if debug {
                instructions.clone()
            } else {
                truncate(instructions.as_str(), 100)
            };
            labelled_if("instructions", Some(&display))
        },
        None => labelled_if("instructions", None),
    }
}

fn code_part(arguments: &Option<Vec<(String, StructuredValue)>>, debug: bool) -> (out: Vec<Output>)
    ensures
        out.deep_view() == code_outputs(arguments_view(*arguments), debug),
{
    let mut out = nothing();
    match arguments {
        Some(entries) => match text_of(entries, "code") {
            Some(code) => {
                if code.as_str().unicode_len() > 0 && debug {
                    push_output(
                        &mut out,
                        Output::Line(line_of(Style::plain().fg(Color::Green), code.as_str())),
                    );
                }
            },
            None => {},
        },
        None => {},
    }
    out
}

fn keys_of_one(key: &str) -> (out: Vec<String>)
    ensures
        string_views(out@) == seq![key@],
{
    let mut keys: Vec<String> = Vec::new();
    keys.push(key.to_owned());
    assert(string_views(keys@) =~= seq![key@]);
    keys
}

impl SessionOutput {
    /// The lines of the arguments of a call at nesting depth `depth`.
    /// Values are cut to the columns that are left for them, unless the
    /// session shows the output of tools in full or `debug` is set.
    pub fn print_params(
        &self,
        value: &Option<Vec<(String, StructuredValue)>>,
        depth: usize,
        debug: bool,
        budget: &RenderBudget,
    ) -> (out: Vec<Output>)
        ensures
            out.deep_view() == params_outputs(
                self@,
                arguments_view(*value),
                depth as nat,
                debug,
                *budget,
            ),
    {
        let mode = DisplayMode::from_flags(self.show_full_tool_output, debug);
        let lines = print_params(value, depth, mode, budget);
        let mut out = nothing();
        extend_with_lines(&mut out, lines);
        match value {
            Some(entries) => {
                assert(out.deep_view() =~= as_lines(
                    params_lines(entries_view(entries@), depth as nat, mode, *budget),
                ));
            },
            None => {
                assert(out.deep_view() =~= Seq::<OutputView>::empty());
            },
        }
        out
    }

    /// Renders a call of a tool that has no form of its own.
    pub fn render_default_request(&self, call: &ToolCall, debug: bool, environment: &Environment) -> (out:
        Vec<Output>)
        ensures
            out.deep_view() == default_request(
                self@,
                call.deep_view(),
                debug,
                environment.deep_view(),
            ),
    {
        let mut out = self.print_tool_header(call.name.as_str());
        let params = self.print_params(&call.arguments, 1, debug, &environment.budget);
        extend_outputs(&mut out, params);
        out
    }

    /// Renders a call of the shell, as a call of any tool.
    pub fn render_shell_request(&self, call: &ToolCall, debug: bool, environment: &Environment) -> (out:
        Vec<Output>)
        ensures
            out.deep_view() == default_request(
                self@,
                call.deep_view(),
                debug,
                environment.deep_view(),
            ),
    {
        self.render_default_request(call, debug, environment)
    }

    /// The parameters of a delegated task.
    fn parameters_part(
        &self,
        arguments: &Vec<(String, StructuredValue)>,
        debug: bool,
        budget: &RenderBudget,
    ) -> (out: Vec<Output>)
        ensures
            out.deep_view() == parameters_outputs(self@, entries_view(arguments@), debug, *budget),
    {
        let mut out = nothing();
        match get(arguments, "parameters") {
            Some(StructuredValue::Object(parameters)) => {
                let mut line = Line::new();
                line.push(Style::plain(), "    ".to_owned());
                line.push(Style::plain().dim(), "parameters".to_owned());
                line.push(Style::plain(), ":".to_owned());
                assert(line.deep_view() == seq![
                    styled(Style::plain(), "    "@),
                    styled(Style::plain().dim(), "parameters"@),
                    styled(Style::plain(), ":"@),
                ]);
                push_output(&mut out, Output::Line(line));
                let copy = Some(duplicate_entries(parameters));
                let params = self.print_params(&copy, 2, debug, budget);
                extend_outputs(&mut out, params);
            },
            _ => {},
        }
        out
    }

    /// Every argument but those with one of the keys `keys`.
    fn other_part(
        &self,
        arguments: &Vec<(String, StructuredValue)>,
        keys: &Vec<String>,
        debug: bool,
        budget: &RenderBudget,
    ) -> (out: Vec<Output>)
        ensures
            out.deep_view() == other_outputs(
                self@,
                entries_view(arguments@),
                string_views(keys@),
                debug,
                *budget,
            ),
    {
        let other_args = Some(entries_without(arguments, keys));
        self.print_params(&other_args, 1, debug, budget)
    }

    /// Renders a call that runs code.
    pub fn render_execute_code_request(
        &self,
        call: &ToolCall,
        debug: bool,
        environment: &Environment,
    ) -> (out: Vec<Output>)
        ensures
            out.deep_view() == execute_code_request(
                self@,
                call.deep_view(),
                debug,
                environment.deep_view(),
            ),
    {
        let items = match graph_of(&call.arguments) {
            Some(items) => items,
            None => {
                return self.render_default_request(call, debug, environment);
            },
        };
        let count = items.len();
        let mut line = Line::new();
        line.push(Style::plain(), "  ".to_owned());
        line.push(Style::plain().dim(), "\u{25b8}".to_owned());
        line.push(Style::plain(), " ".to_owned());
        line.push(Style::plain().dim(), "execute".to_owned());
        line.push(Style::plain(), " ".to_owned());
        line.push(Style::plain().dim(), decimal(count as u128));
        line.push(Style::plain(), " tool call".to_owned());
        line.push(Style::plain(), plural_string(count));
        assert(line.deep_view() == execute_header_line(count as nat));
        let mut out = nothing();
        push_output(&mut out, Output::Line(line));
        let nodes = graph_outputs(items);
        extend_outputs(&mut out, nodes);
        let code = code_part(&call.arguments, debug);
        extend_outputs(&mut out, code);
        out
    }

    /// Renders a request to call a tool.
    pub fn render_tool_request(
        &self,
        request: &Result<ToolCall, String>,
        debug: bool,
        environment: &Environment,
    ) -> (out: Vec<Output>)
        ensures
            out.deep_view() == tool_request(
                self@,
                request_view(*request),
                debug,
                environment.deep_view(),
            ),
    {
        match request {
            Ok(call) => match request_form(call.name.as_str()) {
                RequestForm::TextEditor => self.render_text_editor_request(
                    call,
                    debug,
                    environment,
                ),
                RequestForm::Shell => self.render_shell_request(call, debug, environment),
                RequestForm::ExecuteCode => self.render_execute_code_request(
                    call,
                    debug,
                    environment,
                ),
                RequestForm::Delegate => self.render_delegate_request(call, debug, environment),
                RequestForm::Todo => self.render_todo_request(call, debug),
                RequestForm::Default => self.render_default_request(call, debug, environment),
            },
            Err(reason) => self.print_markdown(reason.as_str(), environment.is_terminal),
        }
    }

    /// Renders the graph of a subagent's call that runs code, as a block of
    /// its own.
    pub fn render_subagent_tool_graph(
        &mut self,
        subagent_id: &str,
        tool_graph: &Vec<StructuredValue>,
    ) -> (out: Vec<Output>)
        ensures
            (final(self)@, out.deep_view()) == old(self)@.unless_quiet(
                ContentType::ToolCall,
                subagent_graph_content(subagent_id@, items_view(tool_graph@)),
            ),
    {
        if self.quiet {
            return nothing();
        }
        let short_id = last_piece(subagent_id, '_');
        let mut label = "[subagent:".to_owned();
        label.append(short_id.as_str());
        label.append("]");
        let count = tool_graph.len();
        let mut line = Line::new();
        line.push(Style::plain(), "  ".to_owned());
        line.push(Style::plain().dim(), "\u{25b8}".to_owned());
        line.push(Style::plain(), " ".to_owned());
        line.push(Style::plain().dim(), label);
        line.push(Style::plain(), " ".to_owned());
        line.push(Style::plain().dim(), "execute_code".to_owned());
        line.push(Style::plain(), " ".to_owned());
        line.push(Style::plain().dim(), decimal(count as u128));
        line.push(Style::plain(), " tool call".to_owned());
        line.push(Style::plain(), plural_string(count));
        assert(line.deep_view() == subagent_graph_header_line(subagent_id@, count as nat));
        let mut content = nothing();
        push_output(&mut content, Output::Line(line));
        let nodes = graph_outputs(tool_graph);
        extend_outputs(&mut content, nodes);
        self.render_block(ContentType::ToolCall, content)
    }

    /// Renders a subagent's call of a tool.
    pub fn render_subagent_tool_call(
        &mut self,
        subagent_id: &str,
        tool_name: &str,
        arguments: &Option<Vec<(String, StructuredValue)>>,
        debug: bool,
        budget: &RenderBudget,
    ) -> (out: Vec<Output>)
        ensures
            (final(self)@, out.deep_view()) == old(self)@.unless_quiet(
                ContentType::ToolCall,
                subagent_call_content(
                    old(self)@,
                    subagent_id@,
                    tool_name@,
                    arguments_view(*arguments),
                    debug,
                    *budget,
                ),
            ),
    {
        if self.quiet {
            return nothing();
        }
        if same_text(tool_name, "code_execution__execute_code") {
            match graph_of(arguments) {
                Some(items) => {
                    return self.render_subagent_tool_graph(subagent_id, items);
                },
                None => {},
            }
        }
        let message = self.format_subagent_tool_call_message(subagent_id, tool_name);
        let mut line = Line::new();
        line.push(Style::plain(), "  ".to_owned());
        line.push(Style::plain().dim(), "\u{25b8}".to_owned());
        line.push(Style::plain(), " ".to_owned());
        line.push(Style::plain().dim(), message);
        assert(line.deep_view() == subagent_header_line(subagent_id@, tool_name@));
        let mut content = nothing();
        push_output(&mut content, Output::Line(line));
        let params = self.print_params(arguments, 1, debug, budget);
        extend_outputs(&mut content, params);
        self.render_block(ContentType::ToolCall, content)
    }

    /// Renders a call that writes the list of things to do.
    pub fn render_todo_request(&self, call: &ToolCall, _debug: bool) -> (out: Vec<Output>)
        ensures
            out.deep_view() == todo_request(self@, call.deep_view()),
    {
        let mut out = self.print_tool_header(call.name.as_str());
        match &call.arguments {
            Some(arguments) => {
                extend_outputs(&mut out, labelled_if("content", text_of(arguments, "content")));
            },
            None => {
                assert(out.deep_view() =~= todo_request(self@, call.deep_view()));
            },
        }
        out
    }

    /// Renders a call of the text editor.
    pub fn render_text_editor_request(
        &self,
        call: &ToolCall,
        debug: bool,
        environment: &Environment,
    ) -> (out: Vec<Output>)
        ensures
            out.deep_view() == text_editor_request(
                self@,
                call.deep_view(),
                debug,
                environment.deep_view(),
            ),
    {
        let mut out = self.print_tool_header(call.name.as_str());
        let ghost header = out.deep_view();
        match &call.arguments {
            Some(arguments) => {
                let path = path_part(arguments, debug, environment);
                let others = self.other_part(
                    arguments,
                    &keys_of_one("path"),
                    debug,
                    &environment.budget,
                );
                extend_outputs(&mut out, path);
                extend_outputs(&mut out, others);
                assert(out.deep_view() =~= header + (path.deep_view() + others.deep_view()));
            },
            None => {
                assert(out.deep_view() =~= header + Seq::<OutputView>::empty());
            },
        }
        out
    }

    /// Renders a call that hands a task to another agent.
    pub fn render_delegate_request(&self, call: &ToolCall, debug: bool, environment: &Environment) -> (out:
        Vec<Output>)
        ensures
            out.deep_view() == delegate_request(
                self@,
                call.deep_view(),
                debug,
                environment.deep_view(),
            ),
    {
        let mut out = self.print_tool_header(call.name.as_str());
        let ghost header = out.deep_view();
        match &call.arguments {
            Some(arguments) => {
                let source = labelled_if("source", text_of(arguments, "source"));
                let instructions = instructions_part(arguments, debug);
                let parameters = self.parameters_part(arguments, debug, &environment.budget);
                let mut skip_keys: Vec<String> = Vec::new();
                skip_keys.push("source".to_owned());
                skip_keys.push("instructions".to_owned());
                skip_keys.push("parameters".to_owned());
                assert(string_views(skip_keys@) =~= seq![
                    "source"@,
                    "instructions"@,
                    "parameters"@,
                ]);
                let others = self.other_part(arguments, &skip_keys, debug, &environment.budget);
                extend_outputs(&mut out, source);
                extend_outputs(&mut out, instructions);
                extend_outputs(&mut out, parameters);
                extend_outputs(&mut out, others);
                assert(out.deep_view() =~= header + (source.deep_view() + instructions.deep_view()
                    + parameters.deep_view() + others.deep_view()));
            },
            None => {
                assert(out.deep_view() =~= header + Seq::<OutputView>::empty());
            },
        }
        out
    }
}

} // verus!
