//! What holds of every render pass.

use crate::config::{ConfigView, RailwayConfig};
use crate::formatter::{
    is_special, name_end, render_from, rendered, style_run, style_variable_value, styled,
    text_run, text_view, variable_value, BindingsView, FormatError, Pass, Run, SegmentView,
    StyleRun,
};
use crate::module::{
    bindings_for, first_step, inside_shell, next_step, outcome_of, shown, warning_of, OutcomeView,
    StepView,
};
use crate::report::report_of_text;
use vstd::prelude::*;

verus! {

/// A pass taken step by step, first with the value of the shell variable and
/// then with the tool's output, ends as `outcome_of` says.
pub proof fn steps_reach_outcome(
    config: ConfigView,
    env: Option<Seq<char>>,
    stdout: Option<Seq<char>>,
)
    ensures
        next_step(config, next_step(config, first_step(config), env), stdout) == StepView::Done(
            outcome_of(config, env, stdout),
        ),
{
}

/// A module that is switched off ends its pass at once, never asks for the
/// tool to be run, whatever step it is resumed from, and shows nothing.
pub proof fn disabled_never_runs_tool(
    config: ConfigView,
    pending: StepView,
    answer: Option<Seq<char>>,
    env: Option<Seq<char>>,
    stdout: Option<Seq<char>>,
)
    requires
        config.disabled,
    ensures
        first_step(config) == StepView::Done(OutcomeView::Disabled),
        next_step(config, pending, answer) is Done,
        outcome_of(config, env, stdout) == OutcomeView::Disabled,
        shown(outcome_of(config, env, stdout)) is None,
        warning_of(outcome_of(config, env, stdout)) is None,
{
}

/// The tool is asked for only by a module that is switched on, and only
/// after the shell variable was read.
pub proof fn tool_runs_only_after_env(
    config: ConfigView,
    pending: StepView,
    answer: Option<Seq<char>>,
)
    requires
        next_step(config, pending, answer) is RunTool,
    ensures
        !config.disabled,
        pending is ReadEnv,
        next_step(config, pending, answer) == (StepView::RunTool { in_shell: inside_shell(answer) }),
{
}

/// Whether the template renders to at least one segment for the project that
/// the tool reports, outside a Railway shell.
pub open spec fn renders_outside_shell(config: ConfigView, stdout: Option<Seq<char>>) -> bool {
    match stdout {
        None => false,
        Some(text) => match report_of_text(text) {
            None => false,
            Some(report) => match rendered(config.format, bindings_for(config, report, false)) {
                Ok(segments) => segments.len() > 0,
                Err(_) => false,
            },
        },
    }
}

/// With the shell variable unset, or set to anything but the exact text
/// `true`, the module shows nothing, unless it is switched on and the tool
/// reports a project for which the template renders.
pub proof fn outside_shell_shows_nothing(
    config: ConfigView,
    env: Option<Seq<char>>,
    stdout: Option<Seq<char>>,
)
    requires
        env != Some("true"@),
        config.disabled || !renders_outside_shell(config, stdout),
    ensures
        shown(outcome_of(config, env, stdout)) is None,
{
}

/// With the shell variable unset, or set to anything but the exact text
/// `true`, the shell token stands for nothing, and the pass ends as it does
/// with the variable unset.
pub proof fn only_exact_true_marks_shell(
    config: ConfigView,
    env: Option<Seq<char>>,
    stdout: Option<Seq<char>>,
)
    requires
        env != Some("true"@),
    ensures
        !inside_shell(env),
        forall|report| (#[trigger] bindings_for(config, report, inside_shell(env))).shell is None,
        outcome_of(config, env, stdout) == outcome_of(config, None, stdout),
{
}

/// Output of the tool that is no report makes the module show nothing and
/// calls for no warning; so does a tool that gave nothing.
pub proof fn undecodable_output_is_silent(
    config: ConfigView,
    env: Option<Seq<char>>,
    stdout: Option<Seq<char>>,
)
    requires
        match stdout {
            Some(text) => report_of_text(text) is None,
            None => true,
        },
    ensures
        shown(outcome_of(config, env, stdout)) is None,
        warning_of(outcome_of(config, env, stdout)) is None,
{
}

/// A warning is called for by a template that is not well formed, and by
/// nothing else; the module then shows nothing.
pub proof fn warning_only_for_template(
    config: ConfigView,
    env: Option<Seq<char>>,
    stdout: Option<Seq<char>>,
)
    ensures
        warning_of(outcome_of(config, env, stdout)) is Some <==> outcome_of(config, env, stdout)
            is TemplateError,
        warning_of(outcome_of(config, env, stdout)) is Some ==> shown(
            outcome_of(config, env, stdout),
        ) is None,
{
}

/// Two passes with the same settings, the same value of the shell variable
/// and the same output of the tool end alike: a pass keeps no state.
pub proof fn same_inputs_same_outcome(
    first: RailwayConfig,
    second: RailwayConfig,
    first_env: Option<&str>,
    second_env: Option<&str>,
    first_stdout: Option<&str>,
    second_stdout: Option<&str>,
)
    requires
        first@ == second@,
        text_view(first_env) == text_view(second_env),
        text_view(first_stdout) == text_view(second_stdout),
    ensures
        outcome_of(first@, text_view(first_env), text_view(first_stdout)) == outcome_of(
            second@,
            text_view(second_env),
            text_view(second_stdout),
        ),
        shown(outcome_of(first@, text_view(first_env), text_view(first_stdout))) == shown(
            outcome_of(second@, text_view(second_env), text_view(second_stdout)),
        ),
{
}

/// Text without special characters is read to its end, as it stands.
pub proof fn plain_text_is_read_whole(t: Seq<char>, i: int, acc: Seq<char>)
    requires
        0 <= i <= t.len(),
        forall|k: int| i <= k < t.len() ==> !is_special(#[trigger] t[k]),
    ensures
        text_run(t, i, acc) == (Run { text: acc + t.subrange(i, t.len() as int), end: t.len() as int, ok: true }),
    decreases t.len() - i,
{
    if i < t.len() {
        assert(!is_special(t[i]));
        plain_text_is_read_whole(t, i + 1, acc.push(t[i]));
        assert(acc.push(t[i]) + t.subrange(i + 1, t.len() as int) =~= acc + t.subrange(
            i,
            t.len() as int,
        ));
    } else {
        assert(acc + t.subrange(i, t.len() as int) =~= acc);
    }
}

/// A template without special characters renders to itself: one segment
/// without a style, or none where the template is empty, whatever the
/// bindings.
pub proof fn plain_template_renders_itself(t: Seq<char>, bindings: BindingsView)
    requires
        forall|k: int| 0 <= k < t.len() ==> !is_special(#[trigger] t[k]),
    ensures
        t.len() == 0 ==> rendered(t, bindings) == Ok::<Seq<SegmentView>, FormatError>(Seq::empty()),
        t.len() > 0 ==> rendered(t, bindings) == Ok::<Seq<SegmentView>, FormatError>(
            seq![SegmentView { value: t, style: None }],
        ),
{
    if t.len() > 0 {
        assert(!is_special(t[0]));
        plain_text_is_read_whole(t, 0, Seq::empty());
        assert(Seq::<char>::empty() + t.subrange(0, t.len() as int) =~= t);
        let shown = Seq::<SegmentView>::empty().push(SegmentView { value: t, style: None });
        assert(shown =~= seq![SegmentView { value: t, style: None }]);
        assert(render_from(t, t.len() as int, bindings, shown, false) == Ok::<Pass, FormatError>(
            Pass { segments: shown, missing: false, end: t.len() as int },
        ));
    }
}

/// Whether two readings of a style stop at the same place, or fail for the
/// same reason.
pub open spec fn same_style_course(
    first: Result<StyleRun, FormatError>,
    second: Result<StyleRun, FormatError>,
) -> bool {
    match (first, second) {
        (Ok(p), Ok(q)) => p.end == q.end,
        (Err(e), Err(f)) => e == f,
        _ => false,
    }
}

/// Whether two readings of a template stop at the same place, or fail for
/// the same reason.
pub open spec fn same_course(
    first: Result<Pass, FormatError>,
    second: Result<Pass, FormatError>,
) -> bool {
    match (first, second) {
        (Ok(p), Ok(q)) => p.end == q.end,
        (Err(e), Err(f)) => e == f,
        _ => false,
    }
}

/// Where the reading of a style stops, and whether it fails, does not depend
/// on what the names stand for.
pub proof fn styles_take_same_course(
    t: Seq<char>,
    i: int,
    first: BindingsView,
    second: BindingsView,
    first_acc: Seq<char>,
    second_acc: Seq<char>,
)
    ensures
        same_style_course(style_run(t, i, first, first_acc), style_run(t, i, second, second_acc)),
    decreases t.len() - i,
{
    if i < 0 || i >= t.len() {
    } else if t[i] == '$' {
        let e = name_end(t, i + 1);
        if i + 1 < e <= t.len() {
            let name = t.subrange(i + 1, e);
            match (style_variable_value(first, name), style_variable_value(second, name)) {
                (Some(v), Some(w)) => {
                    styles_take_same_course(t, e, first, second, first_acc + v, second_acc + w);
                },
                _ => {},
            }
        }
    } else if is_special(t[i]) {
    } else {
        styles_take_same_course(
            t,
            i + 1,
            first,
            second,
            first_acc.push(t[i]),
            second_acc.push(t[i]),
        );
    }
}

/// Where the reading of a template stops, and whether it fails, does not
/// depend on what the names stand for nor on what was rendered before.
pub proof fn readings_take_same_course(
    t: Seq<char>,
    i: int,
    first: BindingsView,
    second: BindingsView,
    first_acc: Seq<SegmentView>,
    second_acc: Seq<SegmentView>,
    first_missing: bool,
    second_missing: bool,
)
    ensures
        same_course(
            render_from(t, i, first, first_acc, first_missing),
            render_from(t, i, second, second_acc, second_missing),
        ),
    decreases t.len() - i,
{
    let none = Seq::<SegmentView>::empty();
    if i < 0 || i >= t.len() {
    } else if t[i] == ')' || t[i] == ']' {
    } else if t[i] == '$' {
        let e = name_end(t, i + 1);
        if i + 1 < e <= t.len() {
            let name = t.subrange(i + 1, e);
            let a = match variable_value(first, name) {
                Some(v) => first_acc.push(SegmentView { value: v, style: None }),
                None => first_acc,
            };
            let b = match variable_value(second, name) {
                Some(v) => second_acc.push(SegmentView { value: v, style: None }),
                None => second_acc,
            };
            readings_take_same_course(
                t,
                e,
                first,
                second,
                a,
                b,
                first_missing || variable_value(first, name) is None,
                second_missing || variable_value(second, name) is None,
            );
        }
    } else if t[i] == '(' {
        readings_take_same_course(t, i + 1, first, second, none, none, false, false);
        match (render_from(t, i + 1, first, none, false), render_from(t, i + 1, second, none, false)) {
            (Ok(p), Ok(q)) => {
                if i < p.end < t.len() && t[p.end] == ')' {
                    readings_take_same_course(
                        t,
                        p.end + 1,
                        first,
                        second,
                        if p.missing {
                            first_acc
                        } else {
                            first_acc + p.segments
                        },
                        if q.missing {
                            second_acc
                        } else {
                            second_acc + q.segments
                        },
                        first_missing,
                        second_missing,
                    );
                }
            },
            _ => {},
        }
    } else if t[i] == '[' {
        readings_take_same_course(t, i + 1, first, second, none, none, false, false);
        match (render_from(t, i + 1, first, none, false), render_from(t, i + 1, second, none, false)) {
            (Ok(p), Ok(q)) => {
                if i < p.end < t.len() && t[p.end] == ']' && p.end + 1 < t.len() && t[p.end + 1]
                    == '(' {
                    let nil = Seq::<char>::empty();
                    styles_take_same_course(t, p.end + 2, first, second, nil, nil);
                    match (
                        style_run(t, p.end + 2, first, nil),
                        style_run(t, p.end + 2, second, nil),
                    ) {
                        (Ok(s), Ok(r)) => {
                            if p.end + 2 <= s.end < t.len() && t[s.end] == ')' {
                                readings_take_same_course(
                                    t,
                                    s.end + 1,
                                    first,
                                    second,
                                    first_acc + styled(p.segments, s.style),
                                    second_acc + styled(q.segments, r.style),
                                    first_missing || p.missing,
                                    second_missing || q.missing,
                                );
                            }
                        },
                        _ => {},
                    }
                }
            },
            _ => {},
        }
    } else {
        let run = text_run(t, i, Seq::empty());
        if run.ok && i < run.end <= t.len() {
            readings_take_same_course(
                t,
                run.end,
                first,
                second,
                first_acc.push(SegmentView { value: run.text, style: None }),
                second_acc.push(SegmentView { value: run.text, style: None }),
                first_missing,
                second_missing,
            );
        }
    }
}

/// Whether a template is well formed, and the reason why it is not, depends
/// on the template alone: not on the report, the shell or the other
/// settings.
pub proof fn template_errors_ignore_values(t: Seq<char>, first: BindingsView, second: BindingsView)
    ensures
        rendered(t, first) is Err <==> rendered(t, second) is Err,
        rendered(t, first) matches Err(e) ==> rendered(t, second) == Err::<
            Seq<SegmentView>,
            FormatError,
        >(e),
{
    let none = Seq::<SegmentView>::empty();
    readings_take_same_course(t, 0, first, second, none, none, false, false);
}

} // verus!
