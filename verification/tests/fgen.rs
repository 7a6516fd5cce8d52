use fterm::command::fgen::{
    apply_substitutions, fgen_step, get_output_path, show_preview, FgenAction, FgenEvent, FgenState, DEFAULT_TEMPLATE,
};

#[test]
fn apply_substitutions_replaces_all_patterns() {
        // Arrange
        let template = "Host org.dev-web\n  IdentityFile ~/.ssh/org_dev/k\n  ProxyJump org.env-bastion\n  Path org_env\n";

        // Act
        let result = apply_substitutions(template, "myco", "prod");

        // Assert
        assert!(result.contains("Host myco.prod-web"));
        assert!(!result.contains("org_dev") || result.contains("myco_prod"));
        assert!(result.contains("myco.prod-bastion"));
        assert!(result.contains("myco_prod"));
    }

#[test]
fn apply_substitutions_preserves_non_matching_text() {
        // Arrange
        let template = "Host static-host\n  User admin\n";

        // Act
        let result = apply_substitutions(template, "myco", "staging");

        // Assert
        assert_eq!(result, "Host static-host\n  User admin\n");
    }

#[test]
fn get_output_path_builds_correct_path() {
        // Arrange
        let ssh_home = "/home/user/.ssh";

        // Act
        let path = get_output_path(ssh_home, "myco", "prod");

        // Assert
        assert_eq!(
            path,
            "/home/user/.ssh/conf.d/envs/myco/prod.conf"
        );
    }

#[test]
fn show_preview_short_content() {
        // Arrange
        let content = "line1\nline2\nline3\n";
        
        // Act
        let text = show_preview(content);

        // Assert
                assert!(text.contains("  line1"));
        assert!(text.contains("  line3"));
        assert!(!text.contains("..."));
    }

#[test]
fn show_preview_long_content() {
        // Arrange
        let mut content = String::new();
        for i in 0..30 {
            content.push_str(&format!("line {i}\n"));
        }
        
        // Act
        let text = show_preview(&content);

        // Assert
                assert!(text.contains("  line 0"));
        assert!(text.contains("  line 19"));
        assert!(text.contains("  ..."));
        assert!(!text.contains("  line 20"));
    }

#[test]
fn show_preview_empty_content() {
        // Arrange
        let content = "";
        
        // Act
        let text = show_preview(content);

        // Assert
                assert!(text.is_empty());
    }

#[test]
fn apply_substitutions_empty_template() {
        // Arrange
        let template = "";

        // Act
        let result = apply_substitutions(template, "myco", "prod");

        // Assert
        assert_eq!(result, "");
    }

#[test]
fn apply_substitutions_multiple_occurrences() {
        // Arrange
        let template = "Host org.dev-web\nProxy org.dev-bastion\nAlias org.dev\n";

        // Act
        let result = apply_substitutions(template, "acme", "stg");

        // Assert
        assert!(!result.contains("org.dev"));
        assert_eq!(result.matches("acme.stg").count(), 3);
    }

#[test]
fn default_template_is_valid() {
        // Arrange / Act
        let result = apply_substitutions(DEFAULT_TEMPLATE, "testorg", "staging");

        // Assert
        assert!(result.contains("testorg.staging"));
        assert!(result.contains("testorg_staging"));
        assert!(!result.contains("org.dev"));
        assert!(!result.contains("org_dev"));
    }

/// Runs the generator's dialogue against files held in memory and the
/// typed `input`, as the program does against the disk and the terminal.
fn drive(
    ssh_home: &str,
    files: &mut std::collections::BTreeMap<String, String>,
    input: &str,
) -> (Result<i32, fterm::error::Error>, String) {
    let mut lines = input.split_inclusive('\n');
    let mut out = String::new();
    let mut state = FgenState::Begin;
    let mut event = FgenEvent::Start;
    loop {
        let (next, action) = fgen_step(ssh_home, state, event);
        state = next;
        event = match action {
            FgenAction::CreateNew { path } => {
                if files.contains_key(&path) {
                    FgenEvent::Opened(Ok(false))
                } else {
                    files.insert(path, String::new());
                    FgenEvent::Opened(Ok(true))
                }
            }
            FgenAction::WriteFile { path, content } => {
                files.insert(path, content);
                FgenEvent::Finished(Ok(()))
            }
            FgenAction::Show { text } => {
                out.push_str(&text);
                FgenEvent::Finished(Ok(()))
            }
            FgenAction::Ask { prompt, .. } => {
                out.push_str(&prompt);
                FgenEvent::Line(Ok(String::from(lines.next().unwrap_or(""))))
            }
            FgenAction::ReadFile { path } => FgenEvent::Text(
                files.get(&path).cloned().ok_or_else(|| fterm::error::Error::msg(String::from("No such file"))),
            ),
            FgenAction::MakeDir { .. } => FgenEvent::Finished(Ok(())),
            FgenAction::Exit(r) => return (r, out),
        };
    }
}

const HOME: &str = "/home/user/.ssh";
const TEMPLATE: &str = "/home/user/.ssh/template.conf";

fn files_with(entries: &[(&str, &str)]) -> std::collections::BTreeMap<String, String> {
    entries.iter().map(|(k, v)| (String::from(*k), String::from(*v))).collect()
}

#[test]
fn run_inner_creates_default_template_and_exits_early() {
    let mut files = files_with(&[]);
    let (code, output) = drive(HOME, &mut files, "");
    assert_eq!(code.unwrap(), 0);
    assert_eq!(files.get(TEMPLATE).map(String::as_str), Some(DEFAULT_TEMPLATE));
    assert!(output.contains("Template created"));
    assert!(output.contains("edit it before running fgen again"));
}

#[test]
fn run_inner_empty_org_returns_1() {
    let mut files = files_with(&[(TEMPLATE, DEFAULT_TEMPLATE)]);
    let (code, output) = drive(HOME, &mut files, "\n\n\n");
    assert_eq!(code.unwrap(), 1);
    assert!(output.contains("Organization name cannot be empty"));
    assert!(output.contains("Input cannot be empty"));
}

#[test]
fn run_inner_empty_env_returns_1() {
    let mut files = files_with(&[(TEMPLATE, DEFAULT_TEMPLATE)]);
    let (code, output) = drive(HOME, &mut files, "org\n\n\n\n");
    assert_eq!(code.unwrap(), 1);
    assert!(output.contains("Environment name cannot be empty"));
}

#[test]
fn run_inner_retry_on_empty_org_then_success() {
    let mut files = files_with(&[(TEMPLATE, DEFAULT_TEMPLATE)]);
    let (code, output) = drive(HOME, &mut files, "\nmyco\nprod\n");
    assert_eq!(code.unwrap(), 0);
    assert!(output.contains("Input cannot be empty"));
    assert!(output.contains("Generated:"));
}

#[test]
fn run_inner_generates_config_file() {
    let mut files = files_with(&[(TEMPLATE, "Host org.dev-*\n  User org_dev\n")]);
    let (code, _) = drive(HOME, &mut files, "myco\nprod\n");
    assert_eq!(code.unwrap(), 0);
    let generated = files.get("/home/user/.ssh/conf.d/envs/myco/prod.conf").unwrap();
    assert!(generated.contains("Host myco.prod-*"));
    assert!(generated.contains("User myco_prod"));
}

#[test]
fn run_inner_uses_existing_template() {
    let mut files = files_with(&[(TEMPLATE, "# Custom\nHost org.env-app\n  IdentityFile org_env.pem\n")]);
    let (code, output) = drive(HOME, &mut files, "acme\nstaging\n");
    assert_eq!(code.unwrap(), 0);
    let generated = files.get("/home/user/.ssh/conf.d/envs/acme/staging.conf").unwrap();
    assert!(generated.contains("# Custom"));
    assert!(generated.contains("Host acme.staging-app"));
    assert!(generated.contains("IdentityFile acme_staging.pem"));
    assert!(!output.contains("Creating default template"));
}

#[test]
fn run_inner_overwrite_confirmed() {
    let out_path = "/home/user/.ssh/conf.d/envs/myco/prod.conf";
    let mut files = files_with(&[(TEMPLATE, "Host org.dev-*\n  User org_dev\n"), (out_path, "old content")]);
    let (code, _) = drive(HOME, &mut files, "myco\nprod\ny\n");
    assert_eq!(code.unwrap(), 0);
    assert!(files.get(out_path).unwrap().contains("Host myco.prod-*"));
}

#[test]
fn run_inner_overwrite_declined() {
    let out_path = "/home/user/.ssh/conf.d/envs/myco/prod.conf";
    let mut files = files_with(&[(TEMPLATE, "Host org.dev-*\n  User org_dev\n"), (out_path, "old content")]);
    let (code, output) = drive(HOME, &mut files, "myco\nprod\nn\n");
    assert_eq!(code.unwrap(), 1);
    assert_eq!(files.get(out_path).unwrap(), "old content");
    assert!(output.contains("Aborted"));
}

#[test]
fn run_inner_show_preview_truncates_long_output() {
    let mut template = String::new();
    for i in 0..30 {
        template.push_str(&format!("Line{i} org.dev\n"));
    }
    let mut files = files_with(&[(TEMPLATE, &template)]);
    let (code, output) = drive(HOME, &mut files, "co\ndev\n");
    assert_eq!(code.unwrap(), 0);
    assert!(output.contains("..."));
    assert!(output.contains("Preview (first 20 lines):"));
}

#[test]
fn fgen_read_failure_names_the_template() {
    let (_, action) = fgen_step(
        HOME,
        FgenState::Reading { org: String::from("acme"), env: String::from("prod") },
        FgenEvent::Text(Err(fterm::error::Error::msg(String::from("No such file")))),
    );
    match action {
        FgenAction::Exit(Err(e)) => {
            assert_eq!(e.full_message(), "failed to read template: /home/user/.ssh/template.conf: No such file")
        }
        other => panic!("unexpected action {other:?}"),
    }
}

#[test]
fn fgen_asks_before_overwriting() {
    let (next, action) = fgen_step(
        HOME,
        FgenState::Creating { path: String::from("/o/prod.conf"), output: String::from("x") },
        FgenEvent::Opened(Ok(false)),
    );
    assert!(matches!(next, FgenState::Confirming { .. }));
    match action {
        FgenAction::Ask { prompt, write_context, flush_context } => {
            assert_eq!(prompt, "File already exists: /o/prod.conf. Overwrite? [y/N]: ");
            assert_eq!(write_context, "failed to write output");
            assert_eq!(flush_context, "failed to flush output");
        }
        other => panic!("unexpected action {other:?}"),
    }
}
