use railway_prompt::formatter::{
    chars_of, render, same_text, Bindings, FormatError, Segment, Token,
};

fn bindings<'a>(
    project_name: Option<&'a str>,
    environment_name: Option<&'a str>,
    shell: Option<&'a str>,
) -> Bindings<'a> {
    Bindings { symbol: "* ", style: "bold", project_name, environment_name, shell }
}

fn seg(value: &str, style: Option<&str>) -> Segment {
    Segment { value: value.to_string(), style: style.map(|s| s.to_string()) }
}

#[test]
fn token_names() {
    assert_eq!(Some(Token::Symbol), Token::named("symbol"));
    assert_eq!(Some(Token::Style), Token::named("style"));
    assert_eq!(Some(Token::ProjectName), Token::named("project_name"));
    assert_eq!(Some(Token::EnvironmentName), Token::named("environment_name"));
    assert_eq!(Some(Token::Shell), Token::named("shell"));
    assert_eq!(None, Token::named("Symbol"));
    assert_eq!(None, Token::named("shel"));
    assert_eq!(None, Token::named("shells"));
    assert_eq!(None, Token::named(""));
}

#[test]
fn meta_resolver_knows_symbol_only() {
    let b = bindings(Some("p"), Some("e"), Some("$"));
    assert_eq!(Some("* "), b.meta(Token::Symbol));
    assert_eq!(None, b.meta(Token::Style));
    assert_eq!(None, b.meta(Token::ProjectName));
    assert_eq!(None, b.meta(Token::EnvironmentName));
    assert_eq!(None, b.meta(Token::Shell));
}

#[test]
fn style_resolver_knows_style_only() {
    let b = bindings(Some("p"), Some("e"), Some("$"));
    assert_eq!(Some("bold"), b.style(Token::Style));
    assert_eq!(None, b.style(Token::Symbol));
    assert_eq!(None, b.style(Token::ProjectName));
    assert_eq!(None, b.style(Token::EnvironmentName));
    assert_eq!(None, b.style(Token::Shell));
}

#[test]
fn value_resolver_knows_three_values() {
    let b = bindings(Some("p"), Some("e"), Some("$"));
    assert_eq!(Some("p"), b.value(Token::ProjectName));
    assert_eq!(Some("e"), b.value(Token::EnvironmentName));
    assert_eq!(Some("$"), b.value(Token::Shell));
    assert_eq!(None, b.value(Token::Symbol));
    assert_eq!(None, b.value(Token::Style));
    let none = bindings(None, None, None);
    assert_eq!(None, none.value(Token::ProjectName));
    assert_eq!(None, none.value(Token::EnvironmentName));
    assert_eq!(None, none.value(Token::Shell));
}

#[test]
fn plain_text_is_one_segment() {
    let b = bindings(None, None, None);
    assert_eq!(Ok(vec![seg("hello world", None)]), render("hello world", &b));
    assert_eq!(Ok(Vec::new()), render("", &b));
}

#[test]
fn escapes_give_the_character() {
    let b = bindings(None, None, None);
    assert_eq!(Ok(vec![seg("a(b)[c]$d\\e", None)]), render("a\\(b\\)\\[c\\]\\$d\\\\e", &b));
}

#[test]
fn variables_render_in_template_order() {
    let b = bindings(Some("proj"), Some("env"), None);
    assert_eq!(
        Ok(vec![seg("env", None), seg("-", None), seg("proj", None), seg("* ", None)]),
        render("$environment_name-$project_name$symbol", &b)
    );
}

#[test]
fn missing_value_renders_nothing() {
    let b = bindings(None, None, None);
    assert_eq!(Ok(vec![seg("a ", None), seg(" b", None)]), render("a $project_name b", &b));
    assert_eq!(Ok(vec![seg("a ", None), seg(" b", None)]), render("a $unknown b", &b));
}

#[test]
fn optional_group_is_left_out_when_a_value_is_missing() {
    let b = bindings(Some("proj"), None, None);
    assert_eq!(Ok(vec![seg("x", None)]), render("x( in $environment_name)", &b));
    assert_eq!(Ok(vec![seg("x", None)]), render("x($project_name in $environment_name)", &b));
    assert_eq!(
        Ok(vec![seg("x", None), seg(" of ", None), seg("proj", None)]),
        render("x( of $project_name)", &b)
    );
    assert_eq!(Ok(vec![seg("x", None), seg("text", None)]), render("x(text)", &b));
}

#[test]
fn nested_optional_group_prunes_only_itself() {
    let b = bindings(Some("proj"), None, None);
    assert_eq!(
        Ok(vec![seg("proj", None), seg("!", None)]),
        render("($project_name( $environment_name)!)", &b)
    );
}

#[test]
fn styled_group_inside_optional_group_hands_the_mark_on() {
    let b = bindings(Some("proj"), None, None);
    assert_eq!(Ok(Vec::new()), render("(a[$environment_name](red))", &b));
    assert_eq!(
        Ok(vec![seg("a", None), seg("proj", Some("red"))]),
        render("(a[$project_name](red))", &b)
    );
}

#[test]
fn style_group_styles_its_segments() {
    let b = bindings(Some("proj"), None, None);
    assert_eq!(
        Ok(vec![seg("a ", None), seg("proj", Some("red bold")), seg(" b", None)]),
        render("a [$project_name](red bold) b", &b)
    );
    assert_eq!(Ok(vec![seg("x", Some("bold"))]), render("[x]($style)", &b));
    assert_eq!(Ok(vec![seg("x", Some("fg:bold"))]), render("[x](fg:$style)", &b));
    assert_eq!(Ok(vec![seg("x", Some(""))]), render("[x]()", &b));
}

#[test]
fn inner_style_wins() {
    let b = bindings(Some("proj"), None, None);
    assert_eq!(
        Ok(vec![seg("a", Some("blue")), seg("b", Some("red")), seg("c", Some("blue"))]),
        render("[a[b](red)c](blue)", &b)
    );
}

#[test]
fn dollar_without_name() {
    let b = bindings(None, None, None);
    assert_eq!(Err(FormatError::MissingName), render("a $", &b));
    assert_eq!(Err(FormatError::MissingName), render("$ a", &b));
    assert_eq!(Err(FormatError::MissingName), render("[a]($)", &b));
}

#[test]
fn backslash_without_special_character() {
    let b = bindings(None, None, None);
    assert_eq!(Err(FormatError::BadEscape), render("a\\", &b));
    assert_eq!(Err(FormatError::BadEscape), render("a\\b", &b));
}

#[test]
fn group_left_open() {
    let b = bindings(None, None, None);
    assert_eq!(Err(FormatError::UnclosedGroup), render("(abc", &b));
    assert_eq!(Err(FormatError::UnclosedGroup), render("[abc", &b));
    assert_eq!(Err(FormatError::UnclosedGroup), render("[abc](red", &b));
    assert_eq!(Err(FormatError::UnclosedGroup), render("(abc]", &b));
    assert_eq!(Err(FormatError::UnclosedGroup), render("[abc)", &b));
    assert_eq!(Err(FormatError::UnclosedGroup), render("[abc](re(d)", &b));
}

#[test]
fn style_group_without_style() {
    let b = bindings(None, None, None);
    assert_eq!(Err(FormatError::MissingStyle), render("[abc]", &b));
    assert_eq!(Err(FormatError::MissingStyle), render("[abc] (red)", &b));
}

#[test]
fn style_that_names_no_style() {
    let b = bindings(Some("proj"), None, None);
    assert_eq!(Err(FormatError::UnknownStyle), render("[abc]($nope)", &b));
    assert_eq!(Err(FormatError::UnknownStyle), render("[abc]($project_name)", &b));
    assert_eq!(Err(FormatError::UnknownStyle), render("[abc]($symbol)", &b));
}

#[test]
fn closer_that_closes_nothing() {
    let b = bindings(None, None, None);
    assert_eq!(Err(FormatError::UnexpectedCloser), render("abc)", &b));
    assert_eq!(Err(FormatError::UnexpectedCloser), render("]", &b));
    assert_eq!(Err(FormatError::UnexpectedCloser), render("(a))", &b));
}

#[test]
fn error_descriptions() {
    assert_eq!("a `$` has no name behind it", FormatError::MissingName.describe());
    assert_eq!("a `\\` has nothing behind it to escape", FormatError::BadEscape.describe());
    assert_eq!("a group is not closed", FormatError::UnclosedGroup.describe());
    assert_eq!("a `[..]` has no `(..)` behind it", FormatError::MissingStyle.describe());
    assert_eq!("a name in a style stands for no style", FormatError::UnknownStyle.describe());
    assert_eq!("a `)` or `]` closes nothing", FormatError::UnexpectedCloser.describe());
}

#[test]
fn characters_and_comparison() {
    assert_eq!(vec!['🚅', ' ', 'a'], chars_of("🚅 a"));
    assert_eq!(Vec::<char>::new(), chars_of(""));
    assert!(same_text("true", "true"));
    assert!(!same_text("true", "tru"));
    assert!(!same_text("true", "trua"));
    assert!(same_text("", ""));
}
