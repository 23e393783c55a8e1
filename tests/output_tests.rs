use cza::cmd::update::{UpdateArgs, UpdateCommand, UpdatePlan, UpdateStatus};
use cza::output::{
    command_example, directory, error, format_error, header, info, next_steps, plain, step, success,
    template_detailed, template_item, warning, Color, Icon, Line, Stream,
};

fn text(line: &Line) -> String {
    line.spans.iter().map(|s| s.text.clone()).collect()
}

fn texts(lines: &[Line]) -> Vec<String> {
    lines.iter().map(text).collect()
}

#[test]
fn test_convenience_functions() {
    success("Test success");
    info("Test info");
    warning("Test warning");
    error("Test error");
    step("Test step");
    directory("/test/path");
    next_steps(&["Step 1", "Step 2"]);
    command_example("Test", "test command");
    header("Test Header");
    plain("Test plain");
    template_item("template", "description");
    template_detailed("key", "name", "desc", &vec!["framework".to_string()], "repo");
}

#[test]
fn test_format_error_template_not_found() {
    let lines = format_error(
        "Template 'invalid' not found. Use 'cza list' to see available templates.",
    );
    assert_eq!(
        texts(&lines),
        vec!["Template 'invalid' not found", "Use 'cza list' to see available templates."]
    );
    assert_eq!(lines[0].stream, Stream::Stderr);
}

#[test]
fn test_format_error_already_exists() {
    let lines = format_error("Directory already exists");
    assert_eq!(
        texts(&lines),
        vec![
            "Directory already exists",
            "Choose a different project name or remove the existing directory."
        ]
    );
}

#[test]
fn test_format_error_project_name() {
    let lines = format_error("Project name contains invalid characters");
    assert_eq!(lines.len(), 2);
    assert_eq!(text(&lines[0]), "Project name contains invalid characters");
    assert!(text(&lines[1]).starts_with("Project names can only contain"));
}

#[test]
fn test_format_error_generic() {
    let lines = format_error("Generic error message");
    assert_eq!(texts(&lines), vec!["Generic error message"]);
    assert_eq!(lines[0].icon, Some(Icon::Error));
}

#[test]
fn test_format_error_template_not_found_no_split() {
    let lines = format_error("not found. Use 'cza list'");
    assert_eq!(
        texts(&lines),
        vec!["not found", "Use 'cza list' to see available templates."]
    );
}

#[test]
fn test_config_aware_convenience_functions() {
    success("Test success");
    info("Test info");
    warning("Test warning");
    error("Test error");
}

#[test]
fn message_styles() {
    let s = success("done");
    assert_eq!(s.icon, Some(Icon::Success));
    assert_eq!(s.spans[0].style.color, Color::Green);
    assert!(s.spans[0].style.bold);
    assert_eq!(info("i").spans[0].style.color, Color::Blue);
    assert_eq!(warning("w").spans[0].style.color, Color::Yellow);
    assert_eq!(error("e").stream, Stream::Stderr);
    assert_eq!(step("s").spans[0].style.color, Color::Cyan);
    assert_eq!(text(&directory("/test/path")), "Location: /test/path");
    assert_eq!(text(&command_example("Run the app", "npm start")), "  Run the app: npm start");
    assert_eq!(text(&template_item("noir-vite", "Noir with Vite frontend")), "  noir-vite - Noir with Vite frontend");
    assert_eq!(texts(&header("Test Header")), vec!["", "Test Header", ""]);
    assert_eq!(plain("Plain message").icon, None);
}

#[test]
fn next_steps_empty_and_filled() {
    assert!(next_steps(&[]).is_empty());
    assert_eq!(
        texts(&next_steps(&["Step 1", "Step 2", "Step 3"])),
        vec!["", "Next steps:", "  Step 1", "  Step 2", "  Step 3"]
    );
}

#[test]
fn template_detailed_joins_frameworks() {
    let frameworks = vec!["Noir".to_string(), "Vite".to_string()];
    let lines = template_detailed(
        "noir-vite",
        "Noir Vite Template",
        "A template with Noir and Vite",
        &frameworks,
        "github.com/example/repo",
    );
    assert_eq!(
        texts(&lines),
        vec![
            "noir-vite",
            "   Name: Noir Vite Template",
            "   Description: A template with Noir and Vite",
            "   Frameworks: Noir, Vite",
            "   Repository: github.com/example/repo",
            ""
        ]
    );
}

#[test]
fn test_update_command_structure() {
    let command = UpdateCommand;
    let args = UpdateArgs;
    assert_eq!(format!("{:?}", args), "UpdateArgs");
    let _command = command;
}

#[test]
fn test_update_args_debug() {
    let args = UpdateArgs;
    let debug_output = format!("{:?}", args);
    assert_eq!(debug_output, "UpdateArgs");
}

#[test]
fn update_plan_and_report() {
    let cmd = UpdateCommand;
    match cmd.plan("0.3.0", "0.3.0") {
        UpdatePlan::UpToDate(lines) => assert_eq!(texts(&lines), vec!["Already up to date (v0.3.0)"]),
        UpdatePlan::Install(_) => panic!("same version must not install"),
    }
    match cmd.plan("0.3.0", "0.4.0") {
        UpdatePlan::Install(lines) => assert_eq!(
            texts(&lines),
            vec!["Found newer version: 0.3.0 -> 0.4.0", "Downloading and installing update..."]
        ),
        UpdatePlan::UpToDate(_) => panic!("a different version installs"),
    }
    assert_eq!(
        texts(&cmd.report(&UpdateStatus::Updated("0.4.0".to_string())))[0],
        "Successfully updated to v0.4.0"
    );
    let failed = cmd.report(&UpdateStatus::Failed("network".to_string()));
    assert_eq!(text(&failed[0]), "Update failed: network");
    assert_eq!(failed.len(), 3);
    assert_eq!(
        texts(&cmd.report(&UpdateStatus::AlreadyCurrent("0.4.0".to_string()))),
        vec!["Already up to date (v0.4.0)"]
    );
}
