//! The decisions of one render pass: whether the module applies, what it
//! asks of its surroundings, and what it shows.

use crate::config::{ConfigView, RailwayConfig};
use crate::formatter::{
    description, render, rendered, same_text, segment_views, text_view, Bindings, BindingsView,
    FormatError, Segment, SegmentView,
};
use crate::report::{report_of_text, RailwayStarshipOutput, ReportView};
use vstd::prelude::*;
use vstd::string::StringExecFns;

verus! {

/// How a render pass ended.
#[derive(Clone, Debug, PartialEq, Eq)]
pub enum Outcome {
    /// The module is switched off.
    Disabled,
    /// The tool gave no output.
    NotInProject,
    /// The tool's output is no report.
    MalformedOutput,
    /// The template is not well formed.
    TemplateError(FormatError),
    /// The rendered text.
    Rendered(Vec<Segment>),
}

/// What an `Outcome` holds, as plain values.
pub enum OutcomeView {
    Disabled,
    NotInProject,
    MalformedOutput,
    TemplateError(FormatError),
    Rendered(Seq<SegmentView>),
}

impl View for Outcome {
    type V = OutcomeView;

    open spec fn view(&self) -> OutcomeView {
        match self {
            Outcome::Disabled => OutcomeView::Disabled,
            Outcome::NotInProject => OutcomeView::NotInProject,
            Outcome::MalformedOutput => OutcomeView::MalformedOutput,
            Outcome::TemplateError(e) => OutcomeView::TemplateError(*e),
            Outcome::Rendered(segments) => OutcomeView::Rendered(segment_views(segments@)),
        }
    }
}

/// Whether the value of the shell variable says that the prompt runs inside a
/// Railway shell: only the exact text `true` does.
pub open spec fn inside_shell(value: Option<Seq<char>>) -> bool {
    value == Some("true"@)
}

/// What the tokens stand for, given the settings, the report and whether the
/// prompt runs inside a Railway shell.
pub open spec fn bindings_for(config: ConfigView, report: ReportView, in_shell: bool) -> BindingsView {
    BindingsView {
        symbol: config.symbol,
        style: config.style,
        project_name: report.name,
        environment_name: report.environment_name,
        shell: if in_shell {
            Some(config.shell_msg)
        } else {
            None
        },
    }
}

/// How the pass ends once the report is known.
pub open spec fn outcome_for_report(
    config: ConfigView,
    in_shell: bool,
    report: ReportView,
) -> OutcomeView {
    match rendered(config.format, bindings_for(config, report, in_shell)) {
        Ok(segments) => OutcomeView::Rendered(segments),
        Err(e) => OutcomeView::TemplateError(e),
    }
}

/// How the pass ends once the tool has run; `stdout` is `None` where it gave
/// nothing.
pub open spec fn outcome_after_fetch(
    config: ConfigView,
    in_shell: bool,
    stdout: Option<Seq<char>>,
) -> OutcomeView {
    match stdout {
        None => OutcomeView::NotInProject,
        Some(text) => match report_of_text(text) {
            None => OutcomeView::MalformedOutput,
            Some(report) => outcome_for_report(config, in_shell, report),
        },
    }
}

/// How a pass ends, given the settings, the value of the shell variable and
/// the tool's output.
pub open spec fn outcome_of(
    config: ConfigView,
    env: Option<Seq<char>>,
    stdout: Option<Seq<char>>,
) -> OutcomeView {
    if config.disabled {
        OutcomeView::Disabled
    } else {
        outcome_after_fetch(config, inside_shell(env), stdout)
    }
}

/// What the host shows for an outcome: the rendered segments where there are
/// any, and nothing otherwise.
pub open spec fn shown(outcome: OutcomeView) -> Option<Seq<SegmentView>> {
    match outcome {
        OutcomeView::Rendered(segments) => if segments.len() > 0 {
            Some(segments)
        } else {
            None
        },
        _ => None,
    }
}

/// The warning that an outcome calls for: one for a template that is not well
/// formed, none for any other.
pub open spec fn warning_of(outcome: OutcomeView) -> Option<Seq<char>> {
    match outcome {
        OutcomeView::TemplateError(e) => Some("Error in module `railway`:\n"@ + description(e)),
        _ => None,
    }
}

impl Outcome {
    /// The segments to show, or `None` where the module shows nothing.
    pub fn into_segments(self) -> (r: Option<Vec<Segment>>)
        ensures
            r matches Some(v) ==> v@.len() > 0,
            match shown(self@) {
                Some(segments) => r matches Some(v) && segment_views(v@) == segments,
                None => r is None,
            },
    {
        match self {
            Outcome::Rendered(segments) => {
                if segments.len() > 0 {
                    Some(segments)
                } else {
                    None
                }
            },
            _ => None,
        }
    }

    /// The warning to log, if the outcome calls for one.
    pub fn warning(&self) -> (r: Option<String>)
        ensures
            match warning_of(self@) {
                Some(text) => r matches Some(s) && s@ == text,
                None => r is None,
            },
    {
        match self {
            Outcome::TemplateError(e) => {
                let mut text = String::from_str("Error in module `railway`:\n");
                text.append(e.describe());
                Some(text)
            },
            _ => None,
        }
    }
}

/// The name of the variable that a Railway shell sets.
pub fn shell_variable() -> (r: &'static str)
    ensures
        r@ == "IN_RAILWAY_SHELL"@,
{
    "IN_RAILWAY_SHELL"
}

/// The program that reports the project.
pub fn tool_program() -> (r: &'static str)
    ensures
        r@ == "railway"@,
{
    "railway"
}

/// The one argument that the program is run with.
pub fn tool_argument() -> (r: &'static str)
    ensures
        r@ == "starship"@,
{
    "starship"
}

/// Tells from the value of the shell variable whether the prompt runs inside
/// a Railway shell.
pub fn in_railway_shell(value: Option<&str>) -> (r: bool)
    ensures
        r == inside_shell(text_view(value)),
{
    match value {
        Some(text) => same_text(text, "true"),
        None => false,
    }
}

/// Lends out an optional text.
fn text_of(text: &Option<String>) -> (r: Option<&str>)
    ensures
        match *text {
            Some(s) => r matches Some(t) && t@ == s@,
            None => r is None,
        },
{
    match text {
        Some(s) => Some(s.as_str()),
        None => None,
    }
}

/// Renders the report under the settings.
pub fn render_report(config: &RailwayConfig, in_shell: bool, report: &RailwayStarshipOutput) -> (r:
    Outcome)
    ensures
        r@ == outcome_for_report(config@, in_shell, report@),
{
    let bindings = Bindings {
        symbol: config.symbol,
        style: config.style,
        project_name: text_of(&report.name),
        environment_name: text_of(&report.environment_name),
        shell: if in_shell {
            Some(config.shell_msg)
        } else {
            None
        },
    };
    assert(bindings@ == bindings_for(config@, report@, in_shell));
    match render(config.format, &bindings) {
        Ok(segments) => Outcome::Rendered(segments),
        Err(e) => Outcome::TemplateError(e),
    }
}

/// Ends the pass once the tool has run; `stdout` is `None` where it gave
/// nothing.
pub fn conclude(config: &RailwayConfig, in_shell: bool, stdout: Option<&str>) -> (r: Outcome)
    ensures
        r@ == outcome_after_fetch(config@, in_shell, text_view(stdout)),
{
    match stdout {
        None => Outcome::NotInProject,
        Some(text) => match RailwayStarshipOutput::decode(text) {
            None => Outcome::MalformedOutput,
            Some(report) => render_report(config, in_shell, &report),
        },
    }
}

/// Decides a whole pass from the value of the shell variable and the tool's
/// output.
pub fn evaluate(config: &RailwayConfig, env: Option<&str>, stdout: Option<&str>) -> (r: Outcome)
    ensures
        r@ == outcome_of(config@, text_view(env), text_view(stdout)),
{
    if config.disabled {
        Outcome::Disabled
    } else {
        conclude(config, in_railway_shell(env), stdout)
    }
}

/// The module: the segments to show for the project bound to the current
/// directory, or `None` where there is nothing to show.
pub fn module(config: &RailwayConfig, env: Option<&str>, stdout: Option<&str>) -> (r: Option<
    Vec<Segment>,
>)
    ensures
        r matches Some(v) ==> v@.len() > 0,
        match shown(outcome_of(config@, text_view(env), text_view(stdout))) {
            Some(segments) => r matches Some(v) && segment_views(v@) == segments,
            None => r is None,
        },
{
    evaluate(config, env, stdout).into_segments()
}

/// Where a pass stands: what it waits for, or how it ended.
#[derive(Clone, Debug, PartialEq, Eq)]
pub enum Step {
    /// The pass waits for the value of the shell variable.
    ReadEnv,
    /// The pass waits for the tool's output.
    RunTool { in_shell: bool },
    /// The pass has ended.
    Done(Outcome),
}

/// What a `Step` holds, as plain values.
pub enum StepView {
    ReadEnv,
    RunTool { in_shell: bool },
    Done(OutcomeView),
}

impl View for Step {
    type V = StepView;

    open spec fn view(&self) -> StepView {
        match self {
            Step::ReadEnv => StepView::ReadEnv,
            Step::RunTool { in_shell } => StepView::RunTool { in_shell: *in_shell },
            Step::Done(outcome) => StepView::Done(outcome@),
        }
    }
}

/// Where a pass starts: at its end where the module is switched off, else
/// with the shell variable.
pub open spec fn first_step(config: ConfigView) -> StepView {
    if config.disabled {
        StepView::Done(OutcomeView::Disabled)
    } else {
        StepView::ReadEnv
    }
}

/// Where a pass goes from `pending` once what it waited for has come:
/// `answer` is the variable's value or the tool's output, `None` where there
/// is none. A pass that has ended stays where it is.
pub open spec fn next_step(config: ConfigView, pending: StepView, answer: Option<Seq<char>>) -> StepView {
    match pending {
        StepView::Done(outcome) => StepView::Done(outcome),
        StepView::ReadEnv => if config.disabled {
            StepView::Done(OutcomeView::Disabled)
        } else {
            StepView::RunTool { in_shell: inside_shell(answer) }
        },
        StepView::RunTool { in_shell } => if config.disabled {
            StepView::Done(OutcomeView::Disabled)
        } else {
            StepView::Done(outcome_after_fetch(config, in_shell, answer))
        },
    }
}

/// Starts a pass.
pub fn start(config: &RailwayConfig) -> (r: Step)
    ensures
        r@ == first_step(config@),
{
    if config.disabled {
        Step::Done(Outcome::Disabled)
    } else {
        Step::ReadEnv
    }
}

/// Takes a pass one step on with what it waited for.
pub fn resume(config: &RailwayConfig, pending: Step, answer: Option<&str>) -> (r: Step)
    ensures
        r@ == next_step(config@, pending@, text_view(answer)),
{
    match pending {
        Step::Done(outcome) => Step::Done(outcome),
        Step::ReadEnv => {
            if config.disabled {
                Step::Done(Outcome::Disabled)
            } else {
                Step::RunTool { in_shell: in_railway_shell(answer) }
            }
        },
        Step::RunTool { in_shell } => {
            if config.disabled {
                Step::Done(Outcome::Disabled)
            } else {
                Step::Done(conclude(config, in_shell, answer))
            }
        },
    }
}

} // verus!
