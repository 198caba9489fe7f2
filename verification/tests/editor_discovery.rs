use scaffolder::detect_editors;
use scaffolder::editor_candidates;
use scaffolder::fallback_dirs;
use scaffolder::open_editor_failure_message;

#[test]
fn candidate_table_is_the_fixed_one() {
    let table = editor_candidates();
    assert_eq!(
        table,
        vec![
            ("code", "Visual Studio Code", "vscode"),
            ("code-oss", "VS Code (OSS)", "vscode-oss"),
            ("vscodium", "VSCodium", "vscodium"),
            ("subl", "Sublime Text", "sublime"),
            ("cursor", "Cursor", "cursor"),
            ("nvim", "NeoVim", "neovim"),
            ("com.visualstudio.code", "VS Code (Flatpak)", "vscode-flatpak"),
        ]
    );
}

#[test]
fn fallback_directories_are_the_fixed_ones() {
    assert_eq!(
        fallback_dirs(),
        vec!["/usr/bin", "/usr/local/bin", "/snap/bin", "/var/lib/flatpak/exports/bin"]
    );
}

#[test]
fn discovery_never_fails_and_yields_known_candidates() {
    // whatever the environment holds, the call returns, and every entry
    // pairs a display name and slug from the candidate table
    let editors = detect_editors();
    let table = editor_candidates();
    assert!(editors.len() <= table.len());
    let mut last_index: Option<usize> = None;
    for editor in &editors {
        let position = table
            .iter()
            .position(|(_, name, slug)| *name == editor.name && *slug == editor.slug)
            .expect("every discovered editor must come from the candidate table");
        if let Some(previous) = last_index {
            assert!(position > previous, "discoveries must keep table order");
        }
        last_index = Some(position);
        assert!(!editor.path.is_empty());
    }
}

#[test]
fn launch_failure_message_carries_the_cause() {
    assert_eq!(
        open_editor_failure_message("permission denied"),
        "Failed to open editor: permission denied"
    );
}
