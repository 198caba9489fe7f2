use scaffolder::CreateAction;
use scaffolder::CreateEvent;
use scaffolder::CreateFlow;
use scaffolder::clone_args;
use scaffolder::compose_project_path;
use scaffolder::invalid_name_message;
use scaffolder::validate_project_name;

fn expect_finish(action: CreateAction) -> Result<String, String> {
    match action {
        CreateAction::Finish { result } => result,
        _ => panic!("expected the pipeline to finish"),
    }
}

#[test]
fn new_flow_checks_composed_path() {
    let (flow, action) = CreateFlow::new("MyGame", "/tmp/projects", "https://host/tpl.git");
    assert_eq!(flow.name, "MyGame");
    assert_eq!(flow.target, "/tmp/projects/MyGame");
    assert!(flow.warnings.is_empty());
    match action {
        CreateAction::CheckTarget { path } => assert_eq!(path, "/tmp/projects/MyGame"),
        _ => panic!("expected an existence check first"),
    }
}

#[test]
fn compose_project_path_joins_with_separator() {
    assert_eq!(compose_project_path("/home/me/code", "demo"), "/home/me/code/demo");
}

#[test]
fn occupied_target_fails_untouched() {
    // the pre-created target directory makes the call fail before any mutation
    let (mut flow, _) = CreateFlow::new("MyGame", "/tmp/projects", "https://host/tpl.git");
    let action = flow.step(CreateEvent::TargetChecked { exists: true });
    let result = expect_finish(action);
    assert_eq!(result, Err("A folder with this name already exists.".to_string()));
    assert!(flow.warnings.is_empty());
}

#[test]
fn occupied_target_failure_is_idempotent() {
    let mut messages = Vec::new();
    for _ in 0..2 {
        let (mut flow, _) = CreateFlow::new("MyGame", "/tmp/projects", "https://host/tpl.git");
        let action = flow.step(CreateEvent::TargetChecked { exists: true });
        messages.push(expect_finish(action));
    }
    assert_eq!(messages[0], messages[1]);
    assert_eq!(messages[0], Err("A folder with this name already exists.".to_string()));
}

#[test]
fn successful_run_with_manifest() {
    let (mut flow, _) = CreateFlow::new("MyGame", "/tmp/projects", "https://host/tpl.git");

    let action = flow.step(CreateEvent::TargetChecked { exists: false });
    match action {
        CreateAction::RunClone { url, target } => {
            assert_eq!(url, "https://host/tpl.git");
            assert_eq!(target, "/tmp/projects/MyGame");
        }
        _ => panic!("expected the clone to run next"),
    }

    let action = flow.step(CreateEvent::CloneExited { success: true, stderr: String::new() });
    match action {
        CreateAction::RemoveHistoryDir { path } => assert_eq!(path, "/tmp/projects/MyGame/.git"),
        _ => panic!("expected the metadata removal next"),
    }

    let action = flow.step(CreateEvent::HistoryStripped { failure: None });
    match action {
        CreateAction::ReadManifest { path } => assert_eq!(path, "/tmp/projects/MyGame/Cargo.toml"),
        _ => panic!("expected the manifest read next"),
    }

    let manifest = "[package]\nname = \"fantasy-craft-default-template\"\nversion = \"0.1.0\"\n";
    let action = flow.step(CreateEvent::ManifestRead { content: Some(manifest.to_string()) });
    match action {
        CreateAction::WriteManifest { path, content } => {
            assert_eq!(path, "/tmp/projects/MyGame/Cargo.toml");
            assert_eq!(content, "[package]\nname = \"MyGame\"\nversion = \"0.1.0\"\n");
        }
        _ => panic!("expected the manifest write next"),
    }

    let action = flow.step(CreateEvent::ManifestWritten { ok: true });
    let result = expect_finish(action);
    let message = result.expect("the run should succeed");
    assert_eq!(message, "Project MyGame created successfully!");
    assert!(message.contains("MyGame"));
    assert!(flow.warnings.is_empty());
}

#[test]
fn successful_run_without_manifest() {
    let (mut flow, _) = CreateFlow::new("tool", "/srv", "https://host/tpl.git");
    flow.step(CreateEvent::TargetChecked { exists: false });
    flow.step(CreateEvent::CloneExited { success: true, stderr: String::new() });
    flow.step(CreateEvent::HistoryStripped { failure: None });
    let action = flow.step(CreateEvent::ManifestRead { content: None });
    assert_eq!(expect_finish(action), Ok("Project tool created successfully!".to_string()));
}

#[test]
fn clone_spawn_failure_is_reported() {
    let (mut flow, _) = CreateFlow::new("MyGame", "/tmp/projects", "https://host/tpl.git");
    flow.step(CreateEvent::TargetChecked { exists: false });
    let action = flow.step(CreateEvent::CloneSpawnFailed {
        error: "No such file or directory".to_string(),
    });
    assert_eq!(
        expect_finish(action),
        Err("Failed to execute git: No such file or directory".to_string())
    );
}

#[test]
fn clone_exit_failure_surfaces_diagnostic() {
    let (mut flow, _) = CreateFlow::new("MyGame", "/tmp/projects", "https://host/tpl.git");
    flow.step(CreateEvent::TargetChecked { exists: false });
    let action = flow.step(CreateEvent::CloneExited {
        success: false,
        stderr: "fatal: repository not found".to_string(),
    });
    assert_eq!(
        expect_finish(action),
        Err("Git clone failed: fatal: repository not found".to_string())
    );
}

#[test]
fn strip_failure_records_warning_and_continues() {
    let (mut flow, _) = CreateFlow::new("MyGame", "/tmp/projects", "https://host/tpl.git");
    flow.step(CreateEvent::TargetChecked { exists: false });
    flow.step(CreateEvent::CloneExited { success: true, stderr: String::new() });
    let action = flow.step(CreateEvent::HistoryStripped {
        failure: Some("permission denied".to_string()),
    });
    match action {
        CreateAction::ReadManifest { .. } => {}
        _ => panic!("a failed removal must not abort the run"),
    }
    assert_eq!(
        flow.warnings,
        vec!["Could not remove version-control metadata: permission denied".to_string()]
    );
    let action = flow.step(CreateEvent::ManifestRead { content: None });
    assert_eq!(expect_finish(action), Ok("Project MyGame created successfully!".to_string()));
}

#[test]
fn unsafe_project_names_are_rejected() {
    assert!(validate_project_name("MyGame"));
    assert!(validate_project_name("my_game-2"));
    assert!(!validate_project_name(""));
    assert!(!validate_project_name("."));
    assert!(!validate_project_name(".."));
    assert!(!validate_project_name("../evil"));
    assert!(!validate_project_name("a/b"));
    assert!(!validate_project_name("a\\b"));
    assert!(!validate_project_name("a\0b"));
    assert!(validate_project_name("..."));
    assert_eq!(invalid_name_message(), "Invalid project name.");
}

#[test]
fn clone_invocation_is_shallow() {
    let args = clone_args("https://host/tpl.git", "/tmp/projects/MyGame");
    assert_eq!(
        args,
        vec![
            "clone".to_string(),
            "--depth".to_string(),
            "1".to_string(),
            "https://host/tpl.git".to_string(),
            "/tmp/projects/MyGame".to_string(),
        ]
    );
}
