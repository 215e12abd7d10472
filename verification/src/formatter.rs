//! The template language in which the prompt text is written.
//!
//! A template is read from left to right. `$name` stands for a value,
//! `( .. )` is a group that is left out where a value inside it is missing,
//! `[ .. ]( .. )` is a group with a style, and `\` takes the special meaning
//! from the bracket, dollar or backslash behind it. Everything else is text.

use vstd::prelude::*;
use vstd::string::StringExecFns;

verus! {

/// `String::push`. Trusted: the string grows by the one character, at its end.
pub assume_specification[ String::push ](s: &mut String, c: char)
    ensures
        final(s)@ == old(s)@.push(c),
;

/// A piece of rendered text with the style it is shown in.
#[derive(Clone, Debug, PartialEq, Eq)]
pub struct Segment {
    pub value: String,
    pub style: Option<String>,
}

/// What a `Segment` holds, as plain values.
pub struct SegmentView {
    pub value: Seq<char>,
    pub style: Option<Seq<char>>,
}

impl View for Segment {
    type V = SegmentView;

    open spec fn view(&self) -> SegmentView {
        SegmentView {
            value: self.value@,
            style: match self.style {
                Some(s) => Some(s@),
                None => None,
            },
        }
    }
}

/// The views of a sequence of segments, in order.
pub open spec fn segment_views(segments: Seq<Segment>) -> Seq<SegmentView> {
    segments.map_values(|s: Segment| s@)
}

/// The names that a template of this module can refer to.
#[derive(Clone, Copy, Debug, PartialEq, Eq, Structural)]
pub enum Token {
    Symbol,
    Style,
    ProjectName,
    EnvironmentName,
    Shell,
}

/// The token that a name spells, if any.
pub open spec fn token_named(name: Seq<char>) -> Option<Token> {
    if name == "symbol"@ {
        Some(Token::Symbol)
    } else if name == "style"@ {
        Some(Token::Style)
    } else if name == "project_name"@ {
        Some(Token::ProjectName)
    } else if name == "environment_name"@ {
        Some(Token::EnvironmentName)
    } else if name == "shell"@ {
        Some(Token::Shell)
    } else {
        None
    }
}

/// The values that the tokens stand for in one render pass.
pub struct Bindings<'a> {
    pub symbol: &'a str,
    pub style: &'a str,
    pub project_name: Option<&'a str>,
    pub environment_name: Option<&'a str>,
    pub shell: Option<&'a str>,
}

/// What a `Bindings` holds, as plain values.
pub struct BindingsView {
    pub symbol: Seq<char>,
    pub style: Seq<char>,
    pub project_name: Option<Seq<char>>,
    pub environment_name: Option<Seq<char>>,
    pub shell: Option<Seq<char>>,
}

/// The characters of an optional text.
pub open spec fn text_view(text: Option<&str>) -> Option<Seq<char>> {
    match text {
        Some(s) => Some(s@),
        None => None,
    }
}

impl<'a> View for Bindings<'a> {
    type V = BindingsView;

    open spec fn view(&self) -> BindingsView {
        BindingsView {
            symbol: self.symbol@,
            style: self.style@,
            project_name: text_view(self.project_name),
            environment_name: text_view(self.environment_name),
            shell: text_view(self.shell),
        }
    }
}

/// What a token stands for as a glyph of the module: the symbol, and nothing
/// else.
pub open spec fn meta_value(bindings: BindingsView, token: Token) -> Option<Seq<char>> {
    match token {
        Token::Symbol => Some(bindings.symbol),
        _ => None,
    }
}

/// What a token stands for as a style: the configured style, and nothing else.
pub open spec fn style_value(bindings: BindingsView, token: Token) -> Option<Seq<char>> {
    match token {
        Token::Style => Some(bindings.style),
        _ => None,
    }
}

/// What a token stands for as a value of this render pass.
pub open spec fn text_value(bindings: BindingsView, token: Token) -> Option<Seq<char>> {
    match token {
        Token::ProjectName => bindings.project_name,
        Token::EnvironmentName => bindings.environment_name,
        Token::Shell => bindings.shell,
        _ => None,
    }
}

/// What `$name` in a template's text stands for: the glyph where the name is
/// one, else the value, else nothing.
pub open spec fn variable_value(bindings: BindingsView, name: Seq<char>) -> Option<Seq<char>> {
    match token_named(name) {
        None => None,
        Some(token) => match meta_value(bindings, token) {
            Some(v) => Some(v),
            None => text_value(bindings, token),
        },
    }
}

/// What `$name` in a group's style stands for.
pub open spec fn style_variable_value(bindings: BindingsView, name: Seq<char>) -> Option<
    Seq<char>,
> {
    match token_named(name) {
        None => None,
        Some(token) => style_value(bindings, token),
    }
}

impl<'a> Bindings<'a> {
    /// Resolves a token as a glyph of the module.
    pub fn meta(&self, token: Token) -> (r: Option<&'a str>)
        ensures
            text_view(r) == meta_value(self@, token),
    {
        match token {
            Token::Symbol => Some(self.symbol),
            _ => None,
        }
    }

    /// Resolves a token as a style.
    pub fn style(&self, token: Token) -> (r: Option<&'a str>)
        ensures
            text_view(r) == style_value(self@, token),
    {
        match token {
            Token::Style => Some(self.style),
            _ => None,
        }
    }

    /// Resolves a token as a value of this render pass.
    pub fn value(&self, token: Token) -> (r: Option<&'a str>)
        ensures
            text_view(r) == text_value(self@, token),
    {
        match token {
            Token::ProjectName => self.project_name,
            Token::EnvironmentName => self.environment_name,
            Token::Shell => self.shell,
            _ => None,
        }
    }
}

/// Why a template could not be rendered.
#[derive(Clone, Copy, Debug, PartialEq, Eq, Structural)]
pub enum FormatError {
    /// A `$` with no name behind it.
    MissingName,
    /// A `\` with nothing behind it that it could escape.
    BadEscape,
    /// A group that is not closed.
    UnclosedGroup,
    /// A `[ .. ]` with no `( .. )` behind it.
    MissingStyle,
    /// A name in a style that stands for no style.
    UnknownStyle,
    /// A `)` or `]` that closes nothing.
    UnexpectedCloser,
}

/// Whether a character can stand in a name.
pub open spec fn is_name_char(c: char) -> bool {
    ('a' <= c && c <= 'z') || ('A' <= c && c <= 'Z') || ('0' <= c && c <= '9') || c == '_'
}

/// Whether a character has a meaning of its own in a template.
pub open spec fn is_special(c: char) -> bool {
    c == '[' || c == ']' || c == '(' || c == ')' || c == '$' || c == '\\'
}

/// Where the name that starts at `i` ends.
pub open spec fn name_end(t: Seq<char>, i: int) -> int
    decreases t.len() - i,
{
    if 0 <= i < t.len() && is_name_char(t[i]) {
        name_end(t, i + 1)
    } else {
        i
    }
}

/// A stretch of text read from a template.
pub struct Run {
    /// The text, escapes resolved.
    pub text: Seq<char>,
    /// Where reading stopped.
    pub end: int,
    /// Whether reading stopped for another reason than a bad escape.
    pub ok: bool,
}

/// The text from `i` up to the next special character, behind `acc`.
pub open spec fn text_run(t: Seq<char>, i: int, acc: Seq<char>) -> Run
    decreases t.len() - i,
{
    if i < 0 || i >= t.len() {
        Run { text: acc, end: i, ok: true }
    } else if t[i] == '\\' {
        if i + 1 < t.len() && is_special(t[i + 1]) {
            text_run(t, i + 2, acc.push(t[i + 1]))
        } else {
            Run { text: acc, end: i, ok: false }
        }
    } else if is_special(t[i]) {
        Run { text: acc, end: i, ok: true }
    } else {
        text_run(t, i + 1, acc.push(t[i]))
    }
}

/// A style read from a template.
pub struct StyleRun {
    /// The style, names resolved.
    pub style: Seq<char>,
    /// Where reading stopped.
    pub end: int,
}

/// The style from `i` up to the next bracket or backslash, behind `acc`.
pub open spec fn style_run(t: Seq<char>, i: int, bindings: BindingsView, acc: Seq<char>) -> Result<
    StyleRun,
    FormatError,
>
    decreases t.len() - i,
{
    if i < 0 || i >= t.len() {
        Ok(StyleRun { style: acc, end: i })
    } else if t[i] == '$' {
        let e = name_end(t, i + 1);
        if !(i + 1 < e <= t.len()) {
            Err(FormatError::MissingName)
        } else {
            match style_variable_value(bindings, t.subrange(i + 1, e)) {
                Some(v) => style_run(t, e, bindings, acc + v),
                None => Err(FormatError::UnknownStyle),
            }
        }
    } else if is_special(t[i]) {
        Ok(StyleRun { style: acc, end: i })
    } else {
        style_run(t, i + 1, bindings, acc.push(t[i]))
    }
}

/// The segments with `style` given to each that has none yet.
pub open spec fn styled(segments: Seq<SegmentView>, style: Seq<char>) -> Seq<SegmentView> {
    segments.map_values(
        |s: SegmentView|
            if s.style is None {
                SegmentView { value: s.value, style: Some(style) }
            } else {
                s
            },
    )
}

/// What reading a stretch of a template gave.
pub struct Pass {
    /// The segments rendered so far.
    pub segments: Seq<SegmentView>,
    /// Whether a name outside any inner `( .. )` stood for nothing.
    pub missing: bool,
    /// Where reading stopped: at the template's end or at a `)` or `]`.
    pub end: int,
}

/// Renders the template from `i` up to the end of the group that `i` lies in,
/// behind the segments rendered so far.
///
/// A name that stands for nothing renders nothing and marks the group. A
/// `( .. )` so marked renders nothing, and the mark ends with it. A
/// `[ .. ]( .. )` gives its style to each of its segments that has none and
/// hands the mark on.
pub open spec fn render_from(
    t: Seq<char>,
    i: int,
    bindings: BindingsView,
    segments: Seq<SegmentView>,
    missing: bool,
) -> Result<Pass, FormatError>
    decreases t.len() - i,
{
    if i < 0 || i >= t.len() {
        Ok(Pass { segments, missing, end: i })
    } else if t[i] == ')' || t[i] == ']' {
        Ok(Pass { segments, missing, end: i })
    } else if t[i] == '$' {
        let e = name_end(t, i + 1);
        if !(i + 1 < e <= t.len()) {
            Err(FormatError::MissingName)
        } else {
            match variable_value(bindings, t.subrange(i + 1, e)) {
                Some(v) => render_from(
                    t,
                    e,
                    bindings,
                    segments.push(SegmentView { value: v, style: None }),
                    missing,
                ),
                None => render_from(t, e, bindings, segments, true),
            }
        }
    } else if t[i] == '(' {
        match render_from(t, i + 1, bindings, Seq::empty(), false) {
            Err(e) => Err(e),
            Ok(inner) => if i < inner.end < t.len() && t[inner.end] == ')' {
                render_from(
                    t,
                    inner.end + 1,
                    bindings,
                    if inner.missing {
                        segments
                    } else {
                        segments + inner.segments
                    },
                    missing,
                )
            } else {
                Err(FormatError::UnclosedGroup)
            },
        }
    } else if t[i] == '[' {
        match render_from(t, i + 1, bindings, Seq::empty(), false) {
            Err(e) => Err(e),
            Ok(inner) => if !(i < inner.end < t.len() && t[inner.end] == ']') {
                Err(FormatError::UnclosedGroup)
            } else if !(inner.end + 1 < t.len() && t[inner.end + 1] == '(') {
                Err(FormatError::MissingStyle)
            } else {
                match style_run(t, inner.end + 2, bindings, Seq::empty()) {
                    Err(e) => Err(e),
                    Ok(s) => if inner.end + 2 <= s.end < t.len() && t[s.end] == ')' {
                        render_from(
                            t,
                            s.end + 1,
                            bindings,
                            segments + styled(inner.segments, s.style),
                            missing || inner.missing,
                        )
                    } else {
                        Err(FormatError::UnclosedGroup)
                    },
                }
            },
        }
    } else {
        let run = text_run(t, i, Seq::empty());
        if !run.ok || !(i < run.end <= t.len()) {
            Err(FormatError::BadEscape)
        } else {
            render_from(
                t,
                run.end,
                bindings,
                segments.push(SegmentView { value: run.text, style: None }),
                missing,
            )
        }
    }
}

/// What a template renders to under the given bindings.
pub open spec fn rendered(t: Seq<char>, bindings: BindingsView) -> Result<
    Seq<SegmentView>,
    FormatError,
> {
    match render_from(t, 0, bindings, Seq::empty(), false) {
        Err(e) => Err(e),
        Ok(pass) => if pass.end < t.len() {
            Err(FormatError::UnexpectedCloser)
        } else {
            Ok(pass.segments)
        },
    }
}

/// The characters of a text, in order.
pub fn chars_of(text: &str) -> (r: Vec<char>)
    ensures
        r@ == text@,
{
    let mut out: Vec<char> = Vec::new();
    for c in it: text.chars()
        invariant
            it.seq() == text@,
            out@ == it.seq().take(it.index() as int),
    {
        out.push(c);
        proof {
            assert(out@ =~= it.seq().take(it.index() + 1));
        }
    }
    proof {
        assert(out@ =~= text@);
    }
    out
}

/// Whether the stretch of `t` from `from` to `to` spells `word`.
fn spells(t: &Vec<char>, from: usize, to: usize, word: &str) -> (r: bool)
    requires
        from <= to <= t.len(),
    ensures
        r == (t@.subrange(from as int, to as int) == word@),
{
    let w = chars_of(word);
    let n = w.len();
    if to - from != n {
        return false;
    }
    let mut k: usize = 0;
    while k < n
        invariant
            from <= to <= t.len(),
            w@ == word@,
            n == w.len(),
            to - from == n,
            k <= n,
            forall|j: int| 0 <= j < k ==> t@[from + j] == w@[j],
        decreases n - k,
    {
        if t[from + k] != w[k] {
            proof {
                assert(t@.subrange(from as int, to as int)[k as int] == t@[from + k]);
            }
            return false;
        }
        k += 1;
    }
    proof {
        assert(t@.subrange(from as int, to as int) =~= word@);
    }
    true
}

/// The token that the stretch of `t` from `from` to `to` spells.
fn token_at(t: &Vec<char>, from: usize, to: usize) -> (r: Option<Token>)
    requires
        from <= to <= t.len(),
    ensures
        r == token_named(t@.subrange(from as int, to as int)),
{
    if spells(t, from, to, "symbol") {
        Some(Token::Symbol)
    } else if spells(t, from, to, "style") {
        Some(Token::Style)
    } else if spells(t, from, to, "project_name") {
        Some(Token::ProjectName)
    } else if spells(t, from, to, "environment_name") {
        Some(Token::EnvironmentName)
    } else if spells(t, from, to, "shell") {
        Some(Token::Shell)
    } else {
        None
    }
}

impl Token {
    /// The token that a name spells, if any.
    pub fn named(name: &str) -> (r: Option<Token>)
        ensures
            r == token_named(name@),
    {
        let t = chars_of(name);
        proof {
            assert(t@.subrange(0, t@.len() as int) =~= name@);
        }
        token_at(&t, 0, t.len())
    }
}

fn name_char(c: char) -> (r: bool)
    ensures
        r == is_name_char(c),
{
    ('a' <= c && c <= 'z') || ('A' <= c && c <= 'Z') || ('0' <= c && c <= '9') || c == '_'
}

fn special(c: char) -> (r: bool)
    ensures
        r == is_special(c),
{
    c == '[' || c == ']' || c == '(' || c == ')' || c == '$' || c == '\\'
}

/// Finds where the name that starts at `start` ends.
fn scan_name(t: &Vec<char>, start: usize) -> (e: usize)
    requires
        start <= t.len(),
    ensures
        e == name_end(t@, start as int),
        start <= e <= t.len(),
{
    let mut i: usize = start;
    while i < t.len() && name_char(t[i])
        invariant
            start <= i <= t.len(),
            name_end(t@, start as int) == name_end(t@, i as int),
        decreases t.len() - i,
    {
        i += 1;
    }
    i
}

/// Reads text from `start` up to the next special character.
fn scan_text(t: &Vec<char>, start: usize) -> (r: (String, usize, bool))
    requires
        start <= t.len(),
    ensures
        text_run(t@, start as int, Seq::empty()) == (Run { text: r.0@, end: r.1 as int, ok: r.2 }),
        start <= r.1 <= t.len(),
{
    let mut text = String::new();
    let mut i: usize = start;
    while i < t.len()
        invariant
            start <= i <= t.len(),
            text_run(t@, start as int, Seq::empty()) == text_run(t@, i as int, text@),
        decreases t.len() - i,
    {
        let c = t[i];
        if c == '\\' {
            if i + 1 < t.len() && special(t[i + 1]) {
                text.push(t[i + 1]);
                i += 2;
            } else {
                return (text, i, false);
            }
        } else if special(c) {
            return (text, i, true);
        } else {
            text.push(c);
            i += 1;
        }
    }
    (text, i, true)
}

/// Reads a style from `start` up to the next bracket or backslash.
fn scan_style(t: &Vec<char>, start: usize, bindings: &Bindings) -> (r: Result<
    (String, usize),
    FormatError,
>)
    requires
        start <= t.len(),
    ensures
        match style_run(t@, start as int, bindings@, Seq::empty()) {
            Ok(run) => r matches Ok((style, end)) && style@ == run.style && end == run.end && start
                <= end <= t.len(),
            Err(e) => r == Err::<(String, usize), FormatError>(e),
        },
{
    let mut style = String::new();
    let mut i: usize = start;
    while i < t.len()
        invariant
            start <= i <= t.len(),
            style_run(t@, start as int, bindings@, Seq::empty()) == style_run(
                t@,
                i as int,
                bindings@,
                style@,
            ),
        decreases t.len() - i,
    {
        let c = t[i];
        if c == '$' {
            let e = scan_name(t, i + 1);
            if e <= i + 1 {
                return Err(FormatError::MissingName);
            }
            let resolved = match token_at(t, i + 1, e) {
                Some(token) => bindings.style(token),
                None => None,
            };
            match resolved {
                Some(v) => {
                    style.append(v);
                    i = e;
                },
                None => {
                    return Err(FormatError::UnknownStyle);
                },
            }
        } else if special(c) {
            return Ok((style, i));
        } else {
            style.push(c);
            i += 1;
        }
    }
    Ok((style, i))
}

/// Gives `style` to each segment that has none yet.
fn restyle(segments: &Vec<Segment>, style: &String) -> (r: Vec<Segment>)
    ensures
        segment_views(r@) == styled(segment_views(segments@), style@),
{
    let mut out: Vec<Segment> = Vec::new();
    let mut k: usize = 0;
    while k < segments.len()
        invariant
            k <= segments.len(),
            out.len() == k,
            forall|j: int|
                0 <= j < k ==> out@[j]@ == styled(segment_views(segments@), style@)[j],
        decreases segments.len() - k,
    {
        let segment = &segments[k];
        let given = match &segment.style {
            Some(own) => own.clone(),
            None => style.clone(),
        };
        out.push(Segment { value: segment.value.clone(), style: Some(given) });
        k += 1;
    }
    proof {
        assert(segment_views(out@) =~= styled(segment_views(segments@), style@));
    }
    out
}

/// What `$name` stands for, the name being the stretch of `t` from `from` to
/// `to`.
fn resolve<'a>(t: &Vec<char>, from: usize, to: usize, bindings: &Bindings<'a>) -> (r: Option<
    &'a str,
>)
    requires
        from <= to <= t.len(),
    ensures
        text_view(r) == variable_value(bindings@, t@.subrange(from as int, to as int)),
{
    match token_at(t, from, to) {
        None => None,
        Some(token) => match bindings.meta(token) {
            Some(v) => Some(v),
            None => bindings.value(token),
        },
    }
}

/// Renders the template from `start` up to the end of the group that `start`
/// lies in.
fn render_group(t: &Vec<char>, start: usize, bindings: &Bindings) -> (r: Result<
    (Vec<Segment>, bool, usize),
    FormatError,
>)
    requires
        start <= t.len(),
    ensures
        match render_from(t@, start as int, bindings@, Seq::empty(), false) {
            Ok(pass) => r matches Ok((segments, missing, end)) && segment_views(segments@)
                == pass.segments && missing == pass.missing && end == pass.end && start <= end
                <= t.len(),
            Err(e) => r == Err::<(Vec<Segment>, bool, usize), FormatError>(e),
        },
    decreases t.len() - start,
{
    let mut segments: Vec<Segment> = Vec::new();
    let mut missing = false;
    let mut i: usize = start;
    proof {
        assert(segment_views(segments@) =~= Seq::empty());
    }
    while i < t.len()
        invariant
            start <= i <= t.len(),
            render_from(t@, start as int, bindings@, Seq::empty(), false) == render_from(
                t@,
                i as int,
                bindings@,
                segment_views(segments@),
                missing,
            ),
        decreases t.len() - i,
    {
        let c = t[i];
        let ghost before = segments@;
        if c == ')' || c == ']' {
            return Ok((segments, missing, i));
        } else if c == '$' {
            let e = scan_name(t, i + 1);
            if e <= i + 1 {
                return Err(FormatError::MissingName);
            }
            match resolve(t, i + 1, e, bindings) {
                Some(v) => {
                    segments.push(Segment { value: String::from_str(v), style: None });
                    proof {
                        assert(segment_views(segments@) =~= segment_views(before).push(
                            SegmentView { value: v@, style: None },
                        ));
                    }
                },
                None => {
                    missing = true;
                },
            }
            i = e;
        } else if c == '(' {
            match render_group(t, i + 1, bindings) {
                Err(e) => {
                    return Err(e);
                },
                Ok((inner, inner_missing, end)) => {
                    if end < t.len() && t[end] == ')' {
                        if !inner_missing {
                            let mut inner = inner;
                            let ghost added = inner@;
                            segments.append(&mut inner);
                            proof {
                                assert(segment_views(segments@) =~= segment_views(before)
                                    + segment_views(added));
                            }
                        }
                        i = end + 1;
                    } else {
                        return Err(FormatError::UnclosedGroup);
                    }
                },
            }
        } else if c == '[' {
            match render_group(t, i + 1, bindings) {
                Err(e) => {
                    return Err(e);
                },
                Ok((inner, inner_missing, end)) => {
                    if !(end < t.len() && t[end] == ']') {
                        return Err(FormatError::UnclosedGroup);
                    }
                    if !(end + 1 < t.len() && t[end + 1] == '(') {
                        return Err(FormatError::MissingStyle);
                    }
                    match scan_style(t, end + 2, bindings) {
                        Err(e) => {
                            return Err(e);
                        },
                        Ok((style, close)) => {
                            if close < t.len() && t[close] == ')' {
                                let mut shown = restyle(&inner, &style);
                                let ghost added = shown@;
                                segments.append(&mut shown);
                                proof {
                                    assert(segment_views(segments@) =~= segment_views(before)
                                        + segment_views(added));
                                }
                                missing = missing || inner_missing;
                                i = close + 1;
                            } else {
                                return Err(FormatError::UnclosedGroup);
                            }
                        },
                    }
                },
            }
        } else {
            let (text, end, ok) = scan_text(t, i);
            if !ok || end <= i {
                return Err(FormatError::BadEscape);
            }
            let ghost shown = text@;
            segments.push(Segment { value: text, style: None });
            proof {
                assert(segment_views(segments@) =~= segment_views(before).push(
                    SegmentView { value: shown, style: None },
                ));
            }
            i = end;
        }
    }
    Ok((segments, missing, i))
}

/// Renders a template under the given bindings: the segments in the
/// template's order, or the reason why the template is not well formed.
pub fn render(template: &str, bindings: &Bindings) -> (r: Result<Vec<Segment>, FormatError>)
    ensures
        match rendered(template@, bindings@) {
            Ok(segments) => r matches Ok(v) && segment_views(v@) == segments,
            Err(e) => r == Err::<Vec<Segment>, FormatError>(e),
        },
{
    let t = chars_of(template);
    match render_group(&t, 0, bindings) {
        Err(e) => Err(e),
        Ok((segments, _, end)) => {
            if end < t.len() {
                Err(FormatError::UnexpectedCloser)
            } else {
                Ok(segments)
            }
        },
    }
}

/// Whether two texts hold the same characters.
pub fn same_text(a: &str, b: &str) -> (r: bool)
    ensures
        r == (a@ == b@),
{
    let t = chars_of(a);
    proof {
        assert(t@.subrange(0, t@.len() as int) =~= a@);
    }
    spells(&t, 0, t.len(), b)
}

impl FormatError {
    /// The error in words.
    pub fn describe(&self) -> (r: &'static str)
        ensures
            r@ == description(*self),
    {
        match self {
            FormatError::MissingName => "a `$` has no name behind it",
            FormatError::BadEscape => "a `\\` has nothing behind it to escape",
            FormatError::UnclosedGroup => "a group is not closed",
            FormatError::MissingStyle => "a `[..]` has no `(..)` behind it",
            FormatError::UnknownStyle => "a name in a style stands for no style",
            FormatError::UnexpectedCloser => "a `)` or `]` closes nothing",
        }
    }
}

/// An error in words.
pub open spec fn description(e: FormatError) -> Seq<char> {
    match e {
        FormatError::MissingName => "a `$` has no name behind it"@,
        FormatError::BadEscape => "a `\\` has nothing behind it to escape"@,
        FormatError::UnclosedGroup => "a group is not closed"@,
        FormatError::MissingStyle => "a `[..]` has no `(..)` behind it"@,
        FormatError::UnknownStyle => "a name in a style stands for no style"@,
        FormatError::UnexpectedCloser => "a `)` or `]` closes nothing"@,
    }
}

} // verus!
