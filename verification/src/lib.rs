//! A local project-scaffolding core: it materializes a new project from a
//! template repository (clone, strip version-control history, rewrite the
//! manifest's name field) and discovers and launches locally installed code
//! editors. Filesystem and subprocess work is performed by the host around
//! this crate; the decisions, the path and message construction, and the
//! manifest rewriting are verified here.

mod editors;
mod project;
mod text;

pub use editors::detect_editors;
pub use editors::editor_candidate_table;
pub use editors::editor_candidates;
pub use editors::fallback_dir_table;
pub use editors::fallback_dirs;
pub use editors::lemma_candidate_slugs_distinct;
pub use editors::lemma_discovered_slugs_distinct;
pub use editors::open_editor_failure_message;
pub use editors::open_editor_failure_text;
pub use editors::selection_of_candidates;
pub use editors::CandidateModel;
pub use editors::EditorInfo;
pub use editors::EditorModel;

pub use project::already_exists_message;
pub use project::already_exists_text;
pub use project::clone_args;
pub use project::clone_failure_message;
pub use project::clone_failure_text;
pub use project::clone_invocation;
pub use project::compose_project_path;
pub use project::git_spawn_failure_message;
pub use project::git_spawn_failure_text;
pub use project::invalid_name_message;
pub use project::invalid_name_text;
pub use project::is_mutating;
pub use project::joined_path;
pub use project::lemma_occupied_failure_idempotent;
pub use project::lemma_occupied_target_fails;
pub use project::lemma_rewrite_exact_placeholder;
pub use project::lemma_successful_run;
pub use project::manifest_name_field;
pub use project::manifest_placeholder;
pub use project::rewrite_manifest;
pub use project::safe_project_name;
pub use project::validate_project_name;
pub use project::rewritten_manifest;
pub use project::strip_warning_message;
pub use project::strip_warning_text;
pub use project::success_message;
pub use project::success_text;
pub use project::step_allowed;
pub use project::transition;
pub use project::ActionModel;
pub use project::CreateAction;
pub use project::CreateEvent;
pub use project::CreateFlow;
pub use project::CreateStep;
pub use project::EventModel;
pub use project::FlowModel;
pub use text::concat2;
pub use text::concat3;
pub use text::lemma_replace_all_absent;
pub use text::occurs_in;
pub use text::replace_all;
pub use text::replace_all_str;
