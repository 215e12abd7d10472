//! What the default template shows.

use crate::config::{default_config, ConfigView};
use crate::formatter::{
    is_name_char, name_end, render_from, rendered, style_run, style_variable_value, styled,
    text_run, token_named, variable_value, BindingsView, FormatError, Pass, Run, SegmentView,
    StyleRun, Token,
};
use crate::module::{bindings_for, inside_shell, outcome_of, shown, warning_of};
use crate::report::{report_of_text, ReportView};
use vstd::prelude::*;

verus! {

/// A segment without a style.
pub open spec fn unstyled(value: Seq<char>) -> SegmentView {
    SegmentView { value, style: None }
}

/// The segment of an optional value: none where the value is missing.
pub open spec fn optional_segment(value: Option<Seq<char>>) -> Seq<SegmentView> {
    match value {
        Some(v) => seq![unstyled(v)],
        None => Seq::empty(),
    }
}

/// The environment's name in round brackets behind a blank, or nothing where
/// the name is missing.
pub open spec fn environment_part(bindings: BindingsView) -> Seq<SegmentView> {
    match bindings.environment_name {
        Some(v) => seq![unstyled(" ("@), unstyled(v), unstyled(")"@)],
        None => Seq::empty(),
    }
}

/// What stands inside the styled group of the default template: the symbol,
/// the project's name, the environment's name in brackets, a blank and the
/// shell token, each only where it has a value.
pub open spec fn default_group(bindings: BindingsView) -> Seq<SegmentView> {
    seq![unstyled(bindings.symbol)] + optional_segment(bindings.project_name) + environment_part(
        bindings,
    ) + seq![unstyled(" "@)] + optional_segment(bindings.shell)
}

/// What the default template shows: the word `on` without a style, then the
/// group in the configured style.
pub open spec fn default_layout(bindings: BindingsView) -> Seq<SegmentView> {
    seq![unstyled("on "@)] + styled(default_group(bindings), bindings.style)
}

/// A stretch of name characters that ends at `e` is the name that starts at
/// `i`.
proof fn name_runs_to(t: Seq<char>, i: int, e: int)
    requires
        0 <= i <= e <= t.len(),
        forall|k: int| i <= k < e ==> is_name_char(#[trigger] t[k]),
        e == t.len() || !is_name_char(t[e]),
    ensures
        name_end(t, i) == e,
    decreases e - i,
{
    if i < e {
        assert(is_name_char(t[i]));
        name_runs_to(t, i + 1, e);
    }
}

/// The names of the default template, and where each ends.
proof fn default_names(t: Seq<char>)
    requires
        t == default_config().format,
    ensures
        t.len() == 64,
        name_end(t, 5) == 11 && token_named(t.subrange(5, 11)) == Some(Token::Symbol),
        name_end(t, 12) == 24 && token_named(t.subrange(12, 24)) == Some(Token::ProjectName),
        name_end(t, 29) == 45 && token_named(t.subrange(29, 45)) == Some(
            Token::EnvironmentName,
        ),
        name_end(t, 50) == 55 && token_named(t.subrange(50, 55)) == Some(Token::Shell),
        name_end(t, 58) == 63 && token_named(t.subrange(58, 63)) == Some(Token::Style),
{
    reveal_strlit("on [$symbol$project_name( \\($environment_name\\)) $shell]($style)");
    reveal_strlit("symbol");
    reveal_strlit("style");
    reveal_strlit("project_name");
    reveal_strlit("environment_name");
    reveal_strlit("shell");
    assert(t.len() == 64);
    name_runs_to(t, 5, 11);
    name_runs_to(t, 12, 24);
    name_runs_to(t, 29, 45);
    name_runs_to(t, 50, 55);
    name_runs_to(t, 58, 63);
    assert(t.subrange(5, 11) =~= "symbol"@);
    assert(t.subrange(12, 24) =~= "project_name"@);
    assert(t.subrange(29, 45) =~= "environment_name"@);
    assert(t.subrange(50, 55) =~= "shell"@);
    assert(t.subrange(58, 63) =~= "style"@);
    assert("shell"@[1] != "style"@[1]);
}

/// The texts of the default template, and where each ends.
proof fn default_texts(t: Seq<char>)
    requires
        t == default_config().format,
    ensures
        text_run(t, 0, Seq::empty()) == (Run { text: "on "@, end: 3, ok: true }),
        text_run(t, 25, Seq::empty()) == (Run { text: " ("@, end: 28, ok: true }),
        text_run(t, 45, Seq::empty()) == (Run { text: ")"@, end: 47, ok: true }),
        text_run(t, 48, Seq::empty()) == (Run { text: " "@, end: 49, ok: true }),
{
    reveal_strlit("on [$symbol$project_name( \\($environment_name\\)) $shell]($style)");
    reveal_strlit("on ");
    reveal_strlit(" (");
    reveal_strlit(")");
    reveal_strlit(" ");
    let nil = Seq::<char>::empty();
    assert(text_run(t, 0, nil) == text_run(t, 1, nil.push('o')));
    assert(text_run(t, 1, nil.push('o')) == text_run(t, 2, nil.push('o').push('n')));
    assert(text_run(t, 2, nil.push('o').push('n')) == text_run(
        t,
        3,
        nil.push('o').push('n').push(' '),
    ));
    assert(nil.push('o').push('n').push(' ') =~= "on "@);
    assert(text_run(t, 25, nil) == text_run(t, 26, nil.push(' ')));
    assert(text_run(t, 26, nil.push(' ')) == text_run(t, 28, nil.push(' ').push('(')));
    assert(nil.push(' ').push('(') =~= " ("@);
    assert(text_run(t, 45, nil) == text_run(t, 47, nil.push(')')));
    assert(nil.push(')') =~= ")"@);
    assert(text_run(t, 48, nil) == text_run(t, 49, nil.push(' ')));
    assert(nil.push(' ') =~= " "@);
}

/// What the bracketed environment of the default template renders to.
proof fn default_environment(t: Seq<char>, b: BindingsView)
    requires
        t == default_config().format,
    ensures
        render_from(t, 25, b, Seq::empty(), false) == Ok::<Pass, FormatError>(
            Pass {
                segments: match b.environment_name {
                    Some(v) => environment_part(b),
                    None => seq![unstyled(" ("@), unstyled(")"@)],
                },
                missing: b.environment_name is None,
                end: 47,
            },
        ),
{
    reveal_strlit("on [$symbol$project_name( \\($environment_name\\)) $shell]($style)");
    default_names(t);
    default_texts(t);
    let none = Seq::<SegmentView>::empty();
    let a1 = none.push(unstyled(" ("@));
    assert(render_from(t, 25, b, none, false) == render_from(t, 28, b, a1, false));
    assert(variable_value(b, t.subrange(29, 45)) == b.environment_name);
    match b.environment_name {
        Some(v) => {
            let a2 = a1.push(unstyled(v));
            let a3 = a2.push(unstyled(")"@));
            assert(render_from(t, 28, b, a1, false) == render_from(t, 45, b, a2, false));
            assert(render_from(t, 45, b, a2, false) == render_from(t, 47, b, a3, false));
            assert(render_from(t, 47, b, a3, false) == Ok::<Pass, FormatError>(
                Pass { segments: a3, missing: false, end: 47 },
            ));
            assert(a3 =~= environment_part(b));
        },
        None => {
            let a3 = a1.push(unstyled(")"@));
            assert(render_from(t, 28, b, a1, false) == render_from(t, 45, b, a1, true));
            assert(render_from(t, 45, b, a1, true) == render_from(t, 47, b, a3, true));
            assert(render_from(t, 47, b, a3, true) == Ok::<Pass, FormatError>(
                Pass { segments: a3, missing: true, end: 47 },
            ));
            assert(a3 =~= seq![unstyled(" ("@), unstyled(")"@)]);
        },
    }
}

/// What the inside of the styled group of the default template renders to.
proof fn default_inside(t: Seq<char>, b: BindingsView)
    requires
        t == default_config().format,
    ensures
        render_from(t, 4, b, Seq::empty(), false) matches Ok(pass) && pass.segments
            == default_group(b) && pass.end == 55,
{
    reveal_strlit("on [$symbol$project_name( \\($environment_name\\)) $shell]($style)");
    default_names(t);
    default_texts(t);
    default_environment(t, b);
    let none = Seq::<SegmentView>::empty();
    let a1 = none.push(unstyled(b.symbol));
    assert(variable_value(b, t.subrange(5, 11)) == Some(b.symbol));
    assert(render_from(t, 4, b, none, false) == render_from(t, 11, b, a1, false));
    assert(variable_value(b, t.subrange(12, 24)) == b.project_name);
    let a2 = match b.project_name {
        Some(v) => a1.push(unstyled(v)),
        None => a1,
    };
    let m2 = b.project_name is None;
    assert(render_from(t, 11, b, a1, false) == render_from(t, 24, b, a2, m2));
    let a3 = match b.environment_name {
        Some(v) => a2 + environment_part(b),
        None => a2,
    };
    assert(render_from(t, 24, b, a2, m2) == render_from(t, 48, b, a3, m2));
    let a4 = a3.push(unstyled(" "@));
    assert(render_from(t, 48, b, a3, m2) == render_from(t, 49, b, a4, m2));
    assert(variable_value(b, t.subrange(50, 55)) == b.shell);
    let a5 = match b.shell {
        Some(v) => a4.push(unstyled(v)),
        None => a4,
    };
    let m5 = m2 || b.shell is None;
    assert(render_from(t, 49, b, a4, m2) == render_from(t, 55, b, a5, m5));
    assert(render_from(t, 55, b, a5, m5) == Ok::<Pass, FormatError>(
        Pass { segments: a5, missing: m5, end: 55 },
    ));
    assert(a5 =~= default_group(b));
}

/// With the default template the module shows the word `on`, and behind it,
/// in the configured style, the symbol, the project's name, the environment's
/// name in round brackets, a blank and the shell token, each only where it
/// has a value. The template is well formed whatever the values are.
pub proof fn default_template_layout(config: ConfigView, report: ReportView, in_shell: bool)
    requires
        config.format == default_config().format,
    ensures
        rendered(config.format, bindings_for(config, report, in_shell)) == Ok::<
            Seq<SegmentView>,
            FormatError,
        >(default_layout(bindings_for(config, report, in_shell))),
{
    let t = config.format;
    let b = bindings_for(config, report, in_shell);
    reveal_strlit("on [$symbol$project_name( \\($environment_name\\)) $shell]($style)");
    default_names(t);
    default_texts(t);
    default_inside(t, b);
    let none = Seq::<SegmentView>::empty();
    let nil = Seq::<char>::empty();
    let a1 = none.push(unstyled("on "@));
    assert(render_from(t, 0, b, none, false) == render_from(t, 3, b, a1, false));
    let inner = render_from(t, 4, b, none, false)->Ok_0;
    assert(style_variable_value(b, t.subrange(58, 63)) == Some(b.style));
    assert(style_run(t, 57, b, nil) == style_run(t, 63, b, nil + b.style));
    assert(style_run(t, 63, b, nil + b.style) == Ok::<StyleRun, FormatError>(
        StyleRun { style: nil + b.style, end: 63 },
    ));
    assert(nil + b.style =~= b.style);
    let a2 = a1 + styled(inner.segments, b.style);
    assert(render_from(t, 3, b, a1, false) == render_from(t, 64, b, a2, inner.missing));
    assert(render_from(t, 64, b, a2, inner.missing) == Ok::<Pass, FormatError>(
        Pass { segments: a2, missing: inner.missing, end: 64 },
    ));
    assert(a2 =~= default_layout(b));
}

/// A module that is switched on and keeps the default template shows that
/// template's layout for every report that the tool gives, inside a Railway
/// shell and outside, and calls for no warning.
pub proof fn default_template_always_shows(
    config: ConfigView,
    env: Option<Seq<char>>,
    text: Seq<char>,
)
    requires
        !config.disabled,
        config.format == default_config().format,
        report_of_text(text) is Some,
    ensures
        shown(outcome_of(config, env, Some(text))) == Some(
            default_layout(bindings_for(config, report_of_text(text)->0, inside_shell(env))),
        ),
        warning_of(outcome_of(config, env, Some(text))) is None,
{
    let report = report_of_text(text)->0;
    default_template_layout(config, report, inside_shell(env));
    let layout = default_layout(bindings_for(config, report, inside_shell(env)));
    assert(layout.len() > 0);
}

} // verus!
