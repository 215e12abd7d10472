use railway_prompt::config::RailwayConfig;
use railway_prompt::formatter::Segment;
use railway_prompt::module::{
    evaluate, in_railway_shell, module, resume, shell_variable, start, tool_argument,
    tool_program, Outcome, Step,
};

/// Stands in for the prompt's surroundings: a set of variables and a tool
/// whose output is fixed, and which counts how often it was run.
struct ModuleRenderer {
    name: String,
    config: RailwayConfig<'static>,
    variables: Vec<(String, String)>,
    tool_output: Option<String>,
    tool_runs: usize,
}

impl ModuleRenderer {
    fn new(name: &str) -> Self {
        ModuleRenderer {
            name: name.to_string(),
            config: RailwayConfig::default(),
            variables: Vec::new(),
            tool_output: None,
            tool_runs: 0,
        }
    }

    fn env(mut self, name: &str, value: &str) -> Self {
        self.variables.push((name.to_string(), value.to_string()));
        self
    }

    fn cmd(mut self, output: &str) -> Self {
        self.tool_output = Some(output.to_string());
        self
    }

    fn config(mut self, config: RailwayConfig<'static>) -> Self {
        self.config = config;
        self
    }

    fn get_env(&self, name: &str) -> Option<String> {
        self.variables.iter().rev().find(|(n, _)| n == name).map(|(_, v)| v.clone())
    }

    fn exec_cmd(&mut self, program: &str, arguments: &[&str]) -> Option<String> {
        assert_eq!(program, "railway");
        assert_eq!(arguments, ["starship"]);
        self.tool_runs += 1;
        self.tool_output.clone()
    }

    fn run(&mut self) -> Outcome {
        assert_eq!(self.name, "railway");
        let config = self.config;
        let mut step = start(&config);
        loop {
            step = match step {
                Step::Done(outcome) => return outcome,
                Step::ReadEnv => {
                    let value = self.get_env(shell_variable());
                    resume(&config, Step::ReadEnv, value.as_deref())
                }
                Step::RunTool { in_shell } => {
                    let output = self.exec_cmd(tool_program(), &[tool_argument()]);
                    resume(&config, Step::RunTool { in_shell }, output.as_deref())
                }
            };
        }
    }

    fn segments(&mut self) -> Option<Vec<Segment>> {
        self.run().into_segments()
    }

    fn collect(&mut self) -> Option<String> {
        self.segments().map(|segments| segments.iter().map(|s| s.value.as_str()).collect())
    }
}

fn plain(value: &str) -> Segment {
    Segment { value: value.to_string(), style: None }
}

fn styled(value: &str, style: &str) -> Segment {
    Segment { value: value.to_string(), style: Some(style.to_string()) }
}

#[test]
fn no_env_variables() {
    let actual = ModuleRenderer::new("railway").collect();
    let expected = None;

    assert_eq!(expected, actual);
}

#[test]
fn invalid_env_variables() {
    let actual = ModuleRenderer::new("railway")
        .env("IN_RAILWAY_SHELL", "something_wrong")
        .collect();
    let expected = None;

    assert_eq!(expected, actual);
}

#[test]
fn unrelated_variables_change_nothing() {
    let actual = ModuleRenderer::new("railway")
        .env("HOME", "/home/user")
        .env("RAILWAY_TOKEN", "true")
        .collect();
    assert_eq!(None, actual);
}

#[test]
fn only_exact_true_counts_as_inside_shell() {
    assert!(in_railway_shell(Some("true")));
    assert!(!in_railway_shell(None));
    assert!(!in_railway_shell(Some("")));
    assert!(!in_railway_shell(Some("1")));
    assert!(!in_railway_shell(Some("TRUE")));
    assert!(!in_railway_shell(Some("True")));
    assert!(!in_railway_shell(Some(" true")));
    assert!(!in_railway_shell(Some("true ")));
    assert!(!in_railway_shell(Some("tru")));
    assert!(!in_railway_shell(Some("something_wrong")));
}

#[test]
fn wrong_variable_values_show_nothing_without_project() {
    for value in ["something_wrong", "1", "TRUE"] {
        let mut renderer = ModuleRenderer::new("railway").env("IN_RAILWAY_SHELL", value);
        assert_eq!(Outcome::NotInProject, renderer.run());
        assert_eq!(None, renderer.collect());
    }
}

#[test]
fn wrong_variable_value_hides_shell_token() {
    let with_wrong = ModuleRenderer::new("railway")
        .env("IN_RAILWAY_SHELL", "TRUE")
        .cmd("{\"name\": \"my-proj\"}")
        .segments();
    let with_none = ModuleRenderer::new("railway").cmd("{\"name\": \"my-proj\"}").segments();
    assert_eq!(with_none, with_wrong);
    let text: String = with_wrong.unwrap().iter().map(|s| s.value.as_str()).collect();
    assert!(!text.contains('$'));
}

#[test]
fn disabled_module_never_runs_tool() {
    let mut config = RailwayConfig::default();
    config.disabled = true;
    let mut renderer = ModuleRenderer::new("railway")
        .config(config)
        .env("IN_RAILWAY_SHELL", "true")
        .cmd("{\"name\": \"my-proj\"}");
    assert_eq!(Outcome::Disabled, renderer.run());
    assert_eq!(0, renderer.tool_runs);
    assert_eq!(None, renderer.collect());
    assert_eq!(0, renderer.tool_runs);
    assert_eq!(Step::Done(Outcome::Disabled), start(&config));
    assert_eq!(Step::Done(Outcome::Disabled), resume(&config, Step::ReadEnv, Some("true")));
    assert_eq!(
        Step::Done(Outcome::Disabled),
        resume(&config, Step::RunTool { in_shell: true }, Some("{\"name\": \"my-proj\"}"))
    );
    assert_eq!(None, module(&config, Some("true"), Some("{\"name\": \"my-proj\"}")));
}

#[test]
fn enabled_module_runs_tool_once() {
    let mut renderer = ModuleRenderer::new("railway").cmd("{\"name\": \"my-proj\"}");
    assert!(renderer.collect().is_some());
    assert_eq!(1, renderer.tool_runs);
}

#[test]
fn steps_follow_one_another() {
    let config = RailwayConfig::default();
    assert_eq!(Step::ReadEnv, start(&config));
    assert_eq!(Step::RunTool { in_shell: true }, resume(&config, Step::ReadEnv, Some("true")));
    assert_eq!(Step::RunTool { in_shell: false }, resume(&config, Step::ReadEnv, Some("yes")));
    assert_eq!(Step::RunTool { in_shell: false }, resume(&config, Step::ReadEnv, None));
    assert_eq!(
        Step::Done(Outcome::NotInProject),
        resume(&config, Step::RunTool { in_shell: true }, None)
    );
    assert_eq!(
        Step::Done(Outcome::MalformedOutput),
        resume(&config, Step::Done(Outcome::MalformedOutput), Some("{}"))
    );
}

#[test]
fn undecodable_output_shows_nothing_and_warns_nothing() {
    for output in ["", "not json", "{", "[1, 2]", "\"text\"", "42", "null", "{\"name\": 5}"] {
        let mut renderer =
            ModuleRenderer::new("railway").env("IN_RAILWAY_SHELL", "true").cmd(output);
        let outcome = renderer.run();
        assert_eq!(Outcome::MalformedOutput, outcome);
        assert_eq!(None, outcome.warning());
        assert_eq!(None, outcome.into_segments());
    }
}

#[test]
fn missing_tool_shows_nothing_and_warns_nothing() {
    let mut renderer = ModuleRenderer::new("railway").env("IN_RAILWAY_SHELL", "true");
    let outcome = renderer.run();
    assert_eq!(Outcome::NotInProject, outcome);
    assert_eq!(None, outcome.warning());
    assert_eq!(None, outcome.into_segments());
}

#[test]
fn project_inside_shell() {
    let mut renderer = ModuleRenderer::new("railway")
        .env("IN_RAILWAY_SHELL", "true")
        .cmd("{\"name\": \"my-proj\"}");
    let expected = vec![
        plain("on "),
        styled("🚅 ", "bold purple"),
        styled("my-proj", "bold purple"),
        styled(" ", "bold purple"),
        styled("$", "bold purple"),
    ];
    assert_eq!(Some(expected), renderer.segments());
    assert_eq!(Some("on 🚅 my-proj $".to_string()), renderer.collect());
}

#[test]
fn project_with_environment_outside_shell() {
    let mut renderer = ModuleRenderer::new("railway")
        .cmd("{\"name\": \"my-proj\", \"environmentName\": \"prod\"}");
    let expected = vec![
        plain("on "),
        styled("🚅 ", "bold purple"),
        styled("my-proj", "bold purple"),
        styled(" (", "bold purple"),
        styled("prod", "bold purple"),
        styled(")", "bold purple"),
        styled(" ", "bold purple"),
    ];
    assert_eq!(Some(expected), renderer.segments());
    let text = renderer.collect().unwrap();
    assert_eq!("on 🚅 my-proj (prod) ", text);
    assert_eq!("on 🚅 my-proj (prod)", text.trim_end());
    assert!(!text.contains('$'));
}

#[test]
fn project_with_environment_inside_shell() {
    let actual = ModuleRenderer::new("railway")
        .env("IN_RAILWAY_SHELL", "true")
        .cmd("{\"name\": \"my-proj\", \"environmentName\": \"prod\"}")
        .collect();
    assert_eq!(Some("on 🚅 my-proj (prod) $".to_string()), actual);
}

#[test]
fn custom_shell_msg_and_symbol() {
    let mut config = RailwayConfig::default();
    config.shell_msg = "(shell)";
    config.symbol = "R  ";
    config.style = "red";
    let actual = module(&config, Some("true"), Some("{\"name\": \"api\"}"));
    let expected = vec![
        plain("on "),
        styled("R  ", "red"),
        styled("api", "red"),
        styled(" ", "red"),
        styled("(shell)", "red"),
    ];
    assert_eq!(Some(expected), actual);
}

#[test]
fn same_inputs_give_same_result() {
    let config = RailwayConfig::default();
    let output = "{\"name\": \"my-proj\", \"environmentName\": \"prod\"}";
    let first = module(&config, Some("true"), Some(output));
    let second = module(&config, Some("true"), Some(output));
    assert!(first.is_some());
    assert_eq!(first, second);
    assert_eq!(evaluate(&config, None, None), evaluate(&config, None, None));
    let mut renderer = ModuleRenderer::new("railway").cmd(output);
    assert_eq!(renderer.collect(), renderer.collect());
    assert_eq!(2, renderer.tool_runs);
}

#[test]
fn broken_template_warns_and_shows_nothing() {
    let mut config = RailwayConfig::default();
    config.format = "on [$project_name";
    let outcome = evaluate(&config, None, Some("{\"name\": \"my-proj\"}"));
    assert!(matches!(outcome, Outcome::TemplateError(_)));
    assert_eq!(
        Some("Error in module `railway`:\na group is not closed".to_string()),
        outcome.warning()
    );
    assert_eq!(None, outcome.into_segments());
    assert_eq!(None, module(&config, None, Some("{\"name\": \"my-proj\"}")));
}

#[test]
fn broken_template_is_no_matter_without_project() {
    let mut config = RailwayConfig::default();
    config.format = "on [$project_name";
    assert_eq!(Outcome::NotInProject, evaluate(&config, None, None));
    assert_eq!(Outcome::MalformedOutput, evaluate(&config, None, Some("")));
}

#[test]
fn empty_template_shows_nothing() {
    let mut config = RailwayConfig::default();
    config.format = "";
    let outcome = evaluate(&config, None, Some("{\"name\": \"my-proj\"}"));
    assert_eq!(Outcome::Rendered(Vec::new()), outcome);
    assert_eq!(None, outcome.warning());
    assert_eq!(None, module(&config, None, Some("{\"name\": \"my-proj\"}")));
}

#[test]
fn default_config_values() {
    let config = RailwayConfig::default();
    assert_eq!(
        "on [$symbol$project_name( \\($environment_name\\)) $shell]($style)",
        config.format
    );
    assert_eq!("🚅 ", config.symbol);
    assert_eq!("\u{1F685}\u{20}", config.symbol);
    assert_eq!("bold purple", config.style);
    assert!(!config.disabled);
    assert_eq!("$", config.shell_msg);
}

#[test]
fn request_names() {
    assert_eq!("IN_RAILWAY_SHELL", shell_variable());
    assert_eq!("railway", tool_program());
    assert_eq!("starship", tool_argument());
}

#[test]
fn report_without_name_still_renders() {
    let config = RailwayConfig::default();
    let actual = module(&config, Some("true"), Some("{}"));
    let expected = vec![
        plain("on "),
        styled("🚅 ", "bold purple"),
        styled(" ", "bold purple"),
        styled("$", "bold purple"),
    ];
    assert_eq!(Some(expected), actual);
}

#[test]
fn values_keep_their_characters() {
    let config = RailwayConfig::default();
    let actual = module(
        &config,
        None,
        Some("{\"name\": \"caf\\u00e9 (x)\", \"environmentName\": \"$prod\"}"),
    );
    let text: String = actual.unwrap().iter().map(|s| s.value.as_str()).collect();
    assert_eq!("on 🚅 café (x) ($prod) ", text);
}

#[test]
fn symbol_padding_is_kept() {
    let mut config = RailwayConfig::default();
    config.symbol = "🚅  ";
    config.format = "$symbol$project_name";
    let actual = module(&config, None, Some("{\"name\": \"my-proj\"}"));
    assert_eq!(Some(vec![plain("🚅  "), plain("my-proj")]), actual);
}
