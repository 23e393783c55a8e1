use cza::cmd::list::{ListArgs, ListCommand};
use cza::output::Line;
use cza::template::{validate_template, TemplateError, TemplateInfo, TemplateRegistry};

fn text(line: &Line) -> String {
    line.spans.iter().map(|s| s.text.clone()).collect()
}

fn template(name: &str, description: &str, repository: &str, subfolder: &str) -> TemplateInfo {
    TemplateInfo {
        name: name.to_string(),
        description: description.to_string(),
        repository: repository.to_string(),
        subfolder: subfolder.to_string(),
        frameworks: vec!["test".to_string()],
        revision: None,
    }
}

#[test]
fn list_test_template_info_structure() {
    let template = TemplateInfo {
        name: "Test Template".to_string(),
        description: "A test template".to_string(),
        repository: "https://github.com/test/test".to_string(),
        subfolder: "test-template".to_string(),
        frameworks: vec!["test".to_string(), "framework".to_string()],
        revision: None,
    };

    assert_eq!(template.name, "Test Template");
    assert_eq!(template.frameworks.len(), 2);
    assert!(template.frameworks.contains(&"test".to_string()));
}

#[test]
fn test_validate_template_valid() {
    let valid_template = template(
        "Test Template",
        "A test template",
        "https://github.com/test/test",
        "test-template",
    );
    assert!(validate_template(&valid_template).is_ok());
}

#[test]
fn test_validate_template_empty_repository() {
    let invalid_template = template("Test Template", "A test template", "", "test-template");
    let result = validate_template(&invalid_template);
    assert!(result.is_err());
    assert!(result
        .unwrap_err()
        .message()
        .contains("repository URL cannot be empty"));
}

#[test]
fn test_validate_template_empty_subfolder() {
    let invalid_template = template(
        "Test Template",
        "A test template",
        "https://github.com/test/test",
        "",
    );
    let result = validate_template(&invalid_template);
    assert!(result.is_err());
    assert!(result
        .unwrap_err()
        .message()
        .contains("subfolder cannot be empty"));
}

#[test]
fn test_validate_template_invalid_url() {
    let invalid_template = template("Test Template", "A test template", "invalid-url", "test-template");
    let result = validate_template(&invalid_template);
    assert!(result.is_err());
    assert!(result
        .unwrap_err()
        .message()
        .contains("must be a valid git URL"));
}

#[test]
fn test_validate_template_github_url() {
    let github_template = template(
        "GitHub Template",
        "A GitHub template",
        "https://github.com/user/repo",
        "template",
    );
    assert!(validate_template(&github_template).is_ok());
}

#[test]
fn test_validate_template_git_ssh_url() {
    let ssh_template = template(
        "SSH Template",
        "An SSH template",
        "git@github.com:user/repo.git",
        "template",
    );
    assert!(validate_template(&ssh_template).is_ok());
}

#[test]
fn validate_template_checks_in_order() {
    let both_empty = template("T", "D", "", "");
    assert!(matches!(validate_template(&both_empty), Err(TemplateError::RepositoryEmpty)));
    let no_sub_bad_url = template("T", "D", "ftp://x", "");
    assert!(matches!(validate_template(&no_sub_bad_url), Err(TemplateError::SubfolderEmpty)));
    assert!(validate_template(&template("T", "D", "git@gitlab.com:a/b.git", "s")).is_ok());
    assert!(validate_template(&template("T", "D", "https://gitlab.com/a/b", "s")).is_ok());
    assert!(validate_template(&template("T", "D", "http://mirror/github.com/a", "s")).is_ok());
    assert!(matches!(
        validate_template(&template("T", "D", "http://gitlab.com/a", "s")),
        Err(TemplateError::InvalidRepository)
    ));
}

#[test]
fn registry_lookup_is_exact_and_insert_replaces() {
    let mut reg = TemplateRegistry::new();
    reg.insert("noir-vite".to_string(), template("Noir", "d", "https://github.com/a/b", "noir"));
    reg.insert("cairo-vite".to_string(), template("Cairo", "d", "https://github.com/a/b", "cairo"));
    assert_eq!(reg.get("noir-vite").unwrap().name, "Noir");
    assert!(reg.get("Noir-Vite").is_none());
    assert!(reg.get("noir").is_none());
    assert_eq!(reg.position("cairo-vite"), Some(0));
    reg.insert("noir-vite".to_string(), template("Noir 2", "d", "https://github.com/a/b", "noir"));
    assert_eq!(reg.templates().len(), 2);
    assert_eq!(reg.get("noir-vite").unwrap().name, "Noir 2");
}

#[test]
fn resolve_prefers_command_line_key() {
    let mut reg = TemplateRegistry::new();
    reg.insert("a".to_string(), template("A", "d", "https://github.com/a/b", "a"));
    reg.insert("b".to_string(), template("B", "d", "https://github.com/a/b", "b"));
    let (key, info) = reg.resolve(&Some("a".to_string()), &Some("b".to_string())).unwrap();
    assert_eq!(key, "a");
    assert_eq!(info.name, "A");
    let (key, _) = reg.resolve(&None, &Some("b".to_string())).unwrap();
    assert_eq!(key, "b");
    assert!(matches!(reg.resolve(&None, &None), Err(TemplateError::NoTemplateSpecified)));
    assert!(matches!(
        reg.resolve(&Some("c".to_string()), &Some("a".to_string())),
        Err(TemplateError::TemplateNotFound(ref k)) if k == "c"
    ));
}

#[test]
fn listing_short_and_detailed() {
    let mut reg = TemplateRegistry::new();
    let mut pinned = template("Noir", "Noir app", "https://github.com/org/templates", "noir-vite");
    pinned.revision = Some("v1.2".to_string());
    reg.insert("noir-vite".to_string(), pinned);
    reg.insert("other".to_string(), template("Other", "Other app", "git@host:o/t.git", "other"));
    let cmd = ListCommand;

    let short: Vec<String> = cmd
        .listing(&ListArgs { detailed: false, json: false }, &reg)
        .iter()
        .map(text)
        .collect();
    assert_eq!(short[1], "Available templates");
    assert_eq!(short[3], "  noir-vite - Noir app");
    assert_eq!(short[4], "      (pinned)");
    assert_eq!(short[5], "  other - Other app");
    assert_eq!(short[6], "Use 'cza list --detailed' for more information about templates.");
    assert_eq!(short.len(), 12);

    let detailed: Vec<String> = cmd
        .listing(&ListArgs { detailed: true, json: false }, &reg)
        .iter()
        .map(text)
        .collect();
    assert!(detailed.contains(&"   Repository: https://github.com/org/templates/tree/main/noir-vite".to_string()));
    assert!(detailed.contains(&"   Repository: git@host:o/t.git".to_string()));
    assert!(detailed.contains(&"    Pinned to: v1.2".to_string()));
    assert!(detailed.contains(&"   Frameworks: test".to_string()));

    let empty = cmd.listing(&ListArgs { detailed: false, json: false }, &TemplateRegistry::new());
    assert_eq!(empty.len(), 1);
    assert_eq!(text(&empty[0]), "No templates available.");
}

fn shipped_like() -> TemplateRegistry {
    let mut reg = TemplateRegistry::new();
    reg.insert(
        "noir-vite".to_string(),
        template("Noir + Vite + TanStack", "Noir app", "https://github.com/sripwoud/cza-templates", "noir-vite"),
    );
    reg
}

#[test]
fn test_list_command_execute() {
    let lines = ListCommand.listing(&ListArgs { detailed: false, json: false }, &shipped_like());
    assert!(lines.iter().any(|l| text(l) == "  noir-vite - Noir app"));
}

#[test]
fn test_list_detailed_command_execute() {
    let lines = ListCommand.listing(&ListArgs { detailed: true, json: false }, &shipped_like());
    assert!(lines
        .iter()
        .any(|l| text(l) == "   Repository: https://github.com/sripwoud/cza-templates/tree/main/noir-vite"));
}

#[test]
fn registry_keeps_keys_sorted_and_unique() {
    let mut reg = TemplateRegistry::new();
    for key in ["noir-vite", "cairo-vite", "zeta", "alpha", "noir", "cairo-vite"] {
        reg.insert(key.to_string(), template(key, "d", "https://github.com/a/b", key));
    }
    let keys: Vec<&str> = reg.templates().iter().map(|(k, _)| k.as_str()).collect();
    assert_eq!(keys, vec!["alpha", "cairo-vite", "noir", "noir-vite", "zeta"]);
    let lines: Vec<String> = ListCommand
        .listing(&ListArgs { detailed: false, json: false }, &reg)
        .iter()
        .map(text)
        .collect();
    assert_eq!(lines[3], "  alpha - d");
    assert_eq!(lines[7], "  zeta - d");
    let mut upper = TemplateRegistry::new();
    upper.insert("b".to_string(), template("b", "d", "https://github.com/a/b", "b"));
    upper.insert("B".to_string(), template("B", "d", "https://github.com/a/b", "B"));
    upper.insert("\u{e9}".to_string(), template("e", "d", "https://github.com/a/b", "e"));
    let keys: Vec<&str> = upper.templates().iter().map(|(k, _)| k.as_str()).collect();
    let mut sorted = keys.clone();
    sorted.sort();
    assert_eq!(keys, sorted);
}
