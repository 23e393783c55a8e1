use cza::cmd::new::{NameCheck, NameError, NewArgs, NewCommand, NewError, NewStep};
use cza::config::Config;
use cza::output::Line;
use cza::template::{TemplateError, TemplateInfo, TemplateRegistry};

fn text(line: &Line) -> String {
    line.spans.iter().map(|s| s.text.clone()).collect()
}

fn info(repository: &str) -> TemplateInfo {
    TemplateInfo {
        name: "Template One".to_string(),
        description: "The first template".to_string(),
        repository: repository.to_string(),
        subfolder: "one".to_string(),
        frameworks: vec!["noir".to_string(), "vite".to_string()],
        revision: None,
    }
}

fn registry() -> TemplateRegistry {
    let mut r = TemplateRegistry::new();
    r.insert("t1".to_string(), info("https://github.com/example/templates"));
    r.insert("t2".to_string(), info("git@example.com:x/y.git"));
    r
}

fn args(name: &str, template: Option<&str>) -> NewArgs {
    NewArgs {
        project_name: name.to_string(),
        template: template.map(|t| t.to_string()),
        author: None,
        no_git: false,
        dry_run: false,
    }
}

#[test]
fn test_validate_project_name_valid() {
    let cmd = NewCommand;
    let config = Config::default();

    assert!(cmd.validate_project_name("valid-name", &config, false).is_ok());
    assert!(cmd.validate_project_name("valid_name", &config, false).is_ok());
    assert!(cmd.validate_project_name("validName", &config, false).is_ok());
    assert!(cmd.validate_project_name("a", &config, false).is_ok());
}

#[test]
fn test_validate_project_name_invalid() {
    let cmd = NewCommand;
    let config = Config::default();

    assert!(cmd.validate_project_name("", &config, false).is_err());
    assert!(cmd.validate_project_name("123invalid", &config, false).is_err());
    assert!(cmd.validate_project_name("invalid name", &config, false).is_err());
    assert!(cmd.validate_project_name("invalid/name", &config, false).is_err());
    assert!(cmd.validate_project_name("invalid.name", &config, false).is_err());
}

#[test]
fn test_get_git_author_fallback() {
    let cmd = NewCommand;
    let author = cmd.get_git_author(false, "Someone\n");
    assert!(author.is_none() || !author.unwrap().is_empty());
    assert_eq!(cmd.get_git_author(true, "  Jane Doe \n"), Some("Jane Doe".to_string()));
}

#[test]
fn test_validate_project_name_edge_cases() {
    let cmd = NewCommand;
    let config = Config::default();

    assert!(cmd.validate_project_name("invalid@name", &config, false).is_err());
    assert!(cmd.validate_project_name("invalid#name", &config, false).is_err());
    assert!(cmd.validate_project_name("invalid$name", &config, false).is_err());
    assert!(cmd.validate_project_name("invalid%name", &config, false).is_err());

    assert!(cmd.validate_project_name("_invalid", &config, false).is_err());
    assert!(cmd.validate_project_name("-invalid", &config, false).is_err());
    assert!(cmd.validate_project_name("9invalid", &config, false).is_err());

    assert!(cmd.validate_project_name("a1", &config, false).is_ok());
    assert!(cmd.validate_project_name("z-test", &config, false).is_ok());
    assert!(cmd.validate_project_name("test_123", &config, false).is_ok());
}

#[test]
fn test_validate_project_name_special_chars() {
    let cmd = NewCommand;
    let config = Config::default();

    assert!(cmd.validate_project_name("test@symbol", &config, false).is_err());
    assert!(cmd.validate_project_name("test!name", &config, false).is_err());
    assert!(cmd.validate_project_name("test.name", &config, false).is_err());
    assert!(cmd.validate_project_name("test space", &config, false).is_err());
}

#[test]
fn test_validate_project_name_long_valid() {
    let cmd = NewCommand;
    let config = Config::default();

    let long_name = "very-long-but-valid-project-name-with-many-words-and-numbers-123";
    assert!(cmd.validate_project_name(long_name, &config, false).is_ok());
}

#[test]
fn test_validate_project_name_single_char() {
    let cmd = NewCommand;
    let config = Config::default();

    assert!(cmd.validate_project_name("a", &config, false).is_ok());
    assert!(cmd.validate_project_name("Z", &config, false).is_ok());
    assert!(cmd.validate_project_name("1", &config, false).is_err());
    assert!(cmd.validate_project_name("_", &config, false).is_err());
}

#[test]
fn test_git_author_with_empty_output() {
    let cmd = NewCommand;
    assert_eq!(cmd.get_git_author(true, ""), None);
    assert_eq!(cmd.get_git_author(true, " \n\t"), None);
}

#[test]
fn test_new_args_clone() {
    let template = Some("noir-vite".to_string());
    let name = "test-project".to_string();
    let author = Some("Test Author".to_string());

    let args = NewArgs {
        project_name: name.clone(),
        template: template.clone(),
        author: author.clone(),
        no_git: false,
        dry_run: false,
    };

    assert_eq!(args.template, template);
    assert_eq!(args.project_name, name);
    assert_eq!(args.author, author);
}

#[test]
fn test_default_template_config_integration() {
    let args = NewArgs {
        project_name: "test-project".to_string(),
        template: None,
        author: None,
        no_git: false,
        dry_run: false,
    };

    assert_eq!(args.template, None);
    assert_eq!(args.project_name, "test-project");
    assert_eq!(args.author, None);
    assert!(!args.no_git);
    assert!(!args.dry_run);
}

#[test]
fn test_dry_run_flag_false() {
    let args = NewArgs {
        project_name: "test-project".to_string(),
        template: Some("noir-vite".to_string()),
        author: None,
        no_git: false,
        dry_run: false,
    };

    assert!(!args.dry_run);
}

#[test]
fn test_project_name_validation_logic() {
    let cmd = NewCommand;
    let config = Config::default();
    let is_valid = |name: &str| cmd.validate_project_name(name, &config, false).is_ok();

    assert!(is_valid("valid-name"));
    assert!(is_valid("valid_name"));
    assert!(is_valid("validName"));
    assert!(is_valid("a"));

    assert!(!is_valid(""));
    assert!(!is_valid("123invalid"));
    assert!(!is_valid("invalid name"));
    assert!(!is_valid("invalid/name"));
    assert!(!is_valid("invalid.name"));
}

#[test]
fn name_errors_are_distinct_categories() {
    let cmd = NewCommand;
    let config = Config::default();
    for ok in ["abc", "a1", "z-test", "test_123"] {
        assert_eq!(cmd.validate_project_name(ok, &config, false).unwrap(), NameCheck::Available);
    }
    assert!(matches!(cmd.validate_project_name("", &config, false), Err(NameError::Empty)));
    for bad_start in ["1abc", "_abc", "-abc"] {
        assert!(matches!(
            cmd.validate_project_name(bad_start, &config, false),
            Err(NameError::BadStart)
        ));
    }
    for bad_char in ["a b", "a.b", "a/b", "a@b"] {
        assert!(matches!(
            cmd.validate_project_name(bad_char, &config, false),
            Err(NameError::BadCharacter)
        ));
    }
    assert_eq!(NameError::Empty.message(), "Project name cannot be empty");
    assert_eq!(NameError::BadStart.message(), "Project name must start with a letter");
    assert!(NameError::BadCharacter.message().contains("alphanumeric"));
}

#[test]
fn existing_directory_follows_confirm_overwrite() {
    let cmd = NewCommand;
    let mut config = Config::default();
    let refused = cmd.validate_project_name("d", &config, true).unwrap_err();
    assert!(matches!(refused, NameError::AlreadyExists(ref n) if n == "d"));
    assert!(refused.message().contains("already exists"));

    config.development.confirm_overwrite = false;
    assert_eq!(
        cmd.validate_project_name("d", &config, true).unwrap(),
        NameCheck::ExistsProceeding
    );
    assert_eq!(
        text(&cmd.overwrite_warning("d")),
        "Directory 'd' already exists, proceeding anyway"
    );
    assert!(matches!(
        cmd.validate_project_name("1d", &config, true),
        Err(NameError::BadStart)
    ));
}

#[test]
fn unicode_letters_are_allowed_after_an_ascii_start() {
    let cmd = NewCommand;
    let config = Config::default();
    assert!(cmd.validate_project_name("caf\u{e9}", &config, false).is_ok());
    assert!(matches!(
        cmd.validate_project_name("\u{e9}t\u{e9}", &config, false),
        Err(NameError::BadStart)
    ));
}

#[test]
fn author_precedence() {
    let cmd = NewCommand;
    let a = Some("A".to_string());
    let b = Some("B".to_string());
    let c = Some("C".to_string());
    assert_eq!(cmd.resolve_author(&a, &b, &c), "A");
    assert_eq!(cmd.resolve_author(&None, &b, &c), "B");
    assert_eq!(cmd.resolve_author(&None, &None, &c), "C");
    assert_eq!(cmd.resolve_author(&None, &None, &None), "Developer");
    assert_eq!(cmd.resolve_author(&Some(String::new()), &None, &None), "Developer");
}

#[test]
fn git_identity_only_needed_without_other_author() {
    let cmd = NewCommand;
    let a = Some("A".to_string());
    assert!(!cmd.needs_git_author(&a, &None));
    assert!(!cmd.needs_git_author(&None, &a));
    assert!(cmd.needs_git_author(&None, &None));
    assert!(cmd.needs_git_author(&Some(String::new()), &None));
}

#[test]
fn template_named_on_command_line_wins() {
    let cmd = NewCommand;
    let mut config = Config::default();
    config.user.default_template = Some("t2".to_string());
    let reg = registry();
    let p = cmd.prepare(&args("myapp", Some("t1")), &config, &reg, false).unwrap();
    assert_eq!(p.template_key, "t1");
    assert_eq!(p.template.repository, "https://github.com/example/templates");
    let p = cmd.prepare(&args("myapp", None), &config, &reg, false).unwrap();
    assert_eq!(p.template_key, "t2");
}

#[test]
fn missing_template_errors() {
    let cmd = NewCommand;
    let config = Config::default();
    let reg = registry();
    let err = cmd.prepare(&args("myapp", None), &config, &reg, false).unwrap_err();
    assert!(matches!(err, NewError::Template(TemplateError::NoTemplateSpecified)));
    assert!(err.message().contains("cza config set user.default_template"));
    assert!(err.message().contains("--template"));

    let err = cmd.prepare(&args("myapp", Some("T1")), &config, &reg, false).unwrap_err();
    assert!(matches!(err, NewError::Template(TemplateError::TemplateNotFound(ref k)) if k == "T1"));
    assert_eq!(
        err.message(),
        "Template 'T1' not found. Use 'cza list' to see available templates."
    );
}

#[test]
fn template_is_resolved_before_the_name_is_checked() {
    let cmd = NewCommand;
    let config = Config::default();
    let reg = registry();
    let err = cmd.prepare(&args("bad name", Some("nope")), &config, &reg, false).unwrap_err();
    assert!(matches!(err, NewError::Template(TemplateError::TemplateNotFound(_))));
    let err = cmd.prepare(&args("bad name", Some("t1")), &config, &reg, false).unwrap_err();
    assert!(matches!(err, NewError::Name(NameError::BadCharacter)));
}

#[test]
fn request_carries_variables() {
    let cmd = NewCommand;
    let mut config = Config::default();
    let t = info("https://github.com/example/templates");
    let mut a = args("myapp", Some("t1"));
    a.author = Some("Ann".to_string());
    let req = cmd.request(&a, &config, &t, &None);
    assert_eq!(req.project_name, "myapp");
    assert_eq!(req.repository, "https://github.com/example/templates");
    assert_eq!(req.subfolder, "one");
    assert_eq!(req.defines, vec!["project_name=myapp", "author=Ann"]);

    config.user.email = Some("ann@example.com".to_string());
    let req = cmd.request(&args("myapp", None), &config, &t, &Some("Git Name".to_string()));
    assert_eq!(req.author, "Git Name");
    assert_eq!(
        req.defines,
        vec!["project_name=myapp", "author=Git Name", "author_email=ann@example.com"]
    );

    config.user.email = Some(String::new());
    let req = cmd.request(&args("myapp", None), &config, &t, &None);
    assert_eq!(req.defines, vec!["project_name=myapp", "author=Developer"]);
}

#[test]
fn dry_run_preview_shows_resolved_template() {
    let cmd = NewCommand;
    let config = Config::default();
    let reg = registry();
    let mut a = args("myapp", Some("t1"));
    a.dry_run = true;
    let p = cmd.prepare(&a, &config, &reg, false).unwrap();
    let lines = cmd.preview_template(&a, &p.template_key, p.template);
    let texts: Vec<String> = lines.iter().map(text).collect();
    assert_eq!(texts[1], "Dry Run Preview");
    assert!(texts.contains(&"Project name: myapp".to_string()));
    assert!(texts.contains(&"Template: t1".to_string()));
    assert!(texts.contains(&"Repository: https://github.com/example/templates".to_string()));
    assert!(texts.contains(&"Subfolder: one".to_string()));
    assert!(texts.contains(&"Frameworks: noir, vite".to_string()));
    assert!(texts.contains(&"  \u{1f4c1} ./myapp/".to_string()));
    assert!(texts.contains(&"    \u{2514}\u{2500}\u{2500} web/ (frontend application)".to_string()));
    assert_eq!(texts.len(), 20);
}

#[test]
fn default_template_from_settings_is_used() {
    let cmd = NewCommand;
    let mut config = Config::default();
    config.set("user.default_template", "t1").unwrap();
    let reg = registry();
    let p = cmd.prepare(&args("myapp", None), &config, &reg, false).unwrap();
    assert_eq!(p.template_key, "t1");
}

#[test]
fn next_steps_after_creation() {
    let lines = NewCommand.next_steps("myapp");
    let texts: Vec<String> = lines.iter().map(text).collect();
    assert_eq!(texts, vec!["", "Next steps:", "  cd myapp", "  mise run dev"]);
}

fn noir_registry() -> TemplateRegistry {
    let mut r = TemplateRegistry::new();
    r.insert("noir-vite".to_string(), info("https://github.com/sripwoud/cza-templates"));
    r
}

fn new_args(name: &str, template: &str, author: Option<&str>, dry_run: bool) -> NewArgs {
    NewArgs {
        project_name: name.to_string(),
        template: Some(template.to_string()),
        author: author.map(|a| a.to_string()),
        no_git: false,
        dry_run,
    }
}

#[test]
fn test_new_command_invalid_template() {
    let cmd = NewCommand;
    let args = new_args("test-project", "nonexistent-template", None, false);
    let reg = noir_registry();
    let result = cmd.prepare(&args, &Config::default(), &reg, false);
    assert!(result.is_err());
    assert!(result.unwrap_err().message().contains("not found"));
}

#[test]
fn test_new_command_invalid_project_name() {
    let cmd = NewCommand;
    let args = new_args("invalid name", "noir-vite", None, false);
    let reg = noir_registry();
    let result = cmd.prepare(&args, &Config::default(), &reg, false);
    assert!(result.is_err());
}

#[test]
fn test_new_command_with_author() {
    let cmd = NewCommand;
    let args = new_args("test-project", "nonexistent-template", Some("Test Author"), false);
    let reg = noir_registry();
    let result = cmd.prepare(&args, &Config::default(), &reg, false);
    assert!(result.is_err());
    assert!(result.unwrap_err().message().contains("not found"));
}

#[test]
fn test_config_integration_author_precedence() {
    let cmd = NewCommand;
    let args = new_args("test-project", "nonexistent-template", Some("CLI Author"), false);
    let reg = noir_registry();
    let result = cmd.prepare(&args, &Config::default(), &reg, false);
    assert!(result.is_err());
    assert!(result.unwrap_err().message().contains("not found"));
    let mut config = Config::default();
    config.user.author = Some("Config Author".to_string());
    assert_eq!(cmd.resolve_author(&args.author, &config.user.author, &None), "CLI Author");
}

#[test]
fn test_dry_run_flag() {
    let cmd = NewCommand;
    let args = new_args("test-project", "noir-vite", None, true);
    let reg = noir_registry();
    let prepared = cmd.prepare(&args, &Config::default(), &reg, false);
    assert!(prepared.is_ok());
    let p = prepared.unwrap();
    let lines = cmd.preview_template(&args, &p.template_key, p.template);
    assert!(lines.iter().any(|l| text(l) == "Template: noir-vite"));
}

#[test]
fn next_step_previews_dry_runs() {
    let cmd = NewCommand;
    let reg = noir_registry();
    let config = Config::default();
    let args = new_args("myapp", "noir-vite", None, true);
    let p = cmd.prepare(&args, &config, &reg, false).unwrap();
    match cmd.next_step(&args, &config, p) {
        NewStep::Preview(lines) => assert!(lines.iter().any(|l| text(l) == "Project name: myapp")),
        other => panic!("a dry run only previews: {other:?}"),
    }
}

#[test]
fn next_step_looks_up_author_only_when_needed() {
    let cmd = NewCommand;
    let reg = noir_registry();
    let config = Config::default();
    let args = new_args("myapp", "noir-vite", None, false);
    let p = cmd.prepare(&args, &config, &reg, false).unwrap();
    assert!(matches!(cmd.next_step(&args, &config, p), NewStep::LookUpAuthor(_)));

    let args = new_args("myapp", "noir-vite", Some("Ann"), false);
    let p = cmd.prepare(&args, &config, &reg, false).unwrap();
    match cmd.next_step(&args, &config, p) {
        NewStep::Generate(req) => {
            assert_eq!(req.author, "Ann");
            assert_eq!(req.subfolder, "one");
        }
        other => panic!("an explicit author goes straight to generation: {other:?}"),
    }
}

#[test]
fn generation_failure_is_fatal_success_starts_pipeline() {
    let cmd = NewCommand;
    let config = Config::default();
    let err = cmd
        .after_generation(Err("clone failed".to_string()), &config, false)
        .unwrap_err();
    assert!(matches!(err, NewError::Materialize(ref c) if c == "clone failed"));
    assert_eq!(err.message(), "Failed to generate project: clone failed");

    let (lines, pipeline) = cmd
        .after_generation(Ok("/tmp/myapp".to_string()), &config, true)
        .unwrap();
    assert_eq!(text(&lines[0]), "Project created successfully!");
    assert_eq!(text(&lines[1]), "Location: /tmp/myapp");
    assert!(pipeline.outcomes().is_empty());
}
