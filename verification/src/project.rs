//! Project materialization: composing the target path, driving the
//! clone / strip-history / rewrite-manifest pipeline as a state machine,
//! and building every message the host shows.
//!
//! The host performs each returned [`CreateAction`] (an existence check, a
//! subprocess, a file read or write) and feeds the outcome back as a
//! [`CreateEvent`]; every decision in between is verified here against the
//! spec-level [`transition`] function.

use vstd::prelude::*;
use vstd::string::*;

use crate::text::concat2;
use crate::text::concat3;
use crate::text::replace_all;
use crate::text::replace_all_str;

verus! {

// ---------------------------------------------------------------------------
// Fixed texts and path composition
// ---------------------------------------------------------------------------
/// The message reported when the target path is already occupied.
pub open spec fn already_exists_text() -> Seq<char> {
    "A folder with this name already exists."@
}

/// The message reported when the version-control client cannot be spawned.
pub open spec fn git_spawn_failure_text(error: Seq<char>) -> Seq<char> {
    "Failed to execute git: "@ + error
}

/// The message reported when the clone subprocess exits unsuccessfully.
pub open spec fn clone_failure_text(stderr: Seq<char>) -> Seq<char> {
    "Git clone failed: "@ + stderr
}

/// The warning recorded when the version-control metadata directory could
/// not be removed; it does not abort the remaining steps.
pub open spec fn strip_warning_text(error: Seq<char>) -> Seq<char> {
    "Could not remove version-control metadata: "@ + error
}

/// The confirmation returned after a successful creation.
pub open spec fn success_text(name: Seq<char>) -> Seq<char> {
    "Project "@ + name + " created successfully!"@
}

/// The candidate project path: the base directory, a separator, the name.
pub open spec fn joined_path(base: Seq<char>, name: Seq<char>) -> Seq<char> {
    base + "/"@ + name
}

/// The message reported when the project name is rejected.
pub open spec fn invalid_name_text() -> Seq<char> {
    "Invalid project name."@
}

/// A project name safe to compose into a path: non-empty, free of path
/// separators and NUL, and no traversal to the current or the parent
/// directory.
pub open spec fn safe_project_name(name: Seq<char>) -> bool {
    &&& name.len() > 0
    &&& !name.contains('/')
    &&& !name.contains('\\')
    &&& !name.contains('\0')
    &&& name != "."@
    &&& name != ".."@
}

/// The placeholder package name that template manifests carry.
pub open spec fn manifest_placeholder() -> Seq<char> {
    "name = \"fantasy-craft-default-template\""@
}

/// The manifest name field naming the new project.
pub open spec fn manifest_name_field(name: Seq<char>) -> Seq<char> {
    "name = \""@ + name + "\""@
}

/// The manifest text after every occurrence of the placeholder field is
/// replaced by a field naming the new project.
pub open spec fn rewritten_manifest(content: Seq<char>, name: Seq<char>) -> Seq<char> {
    replace_all(content, manifest_placeholder(), manifest_name_field(name))
}

pub fn compose_project_path(base: &str, name: &str) -> (r: String)
    ensures
        r@ == joined_path(base@, name@),
{
    concat3(base, "/", name)
}

pub fn invalid_name_message() -> (r: String)
    ensures
        r@ == invalid_name_text(),
{
    String::from_str("Invalid project name.")
}

/// Decides whether a project name may be composed into a target path.
/// The host asks this before it starts a creation request.
pub fn validate_project_name(name: &str) -> (r: bool)
    ensures
        r == safe_project_name(name@),
{
    proof {
        reveal_strlit(".");
        reveal_strlit("..");
    }
    let n = name.unicode_len();
    if n == 0 {
        return false;
    }
    let mut i: usize = 0;
    while i < n
        invariant
            n == name@.len(),
            i <= n,
            forall|k: int|
                0 <= k < i ==> (#[trigger] name@[k]) != '/' && name@[k] != '\\' && name@[k]
                    != '\0',
        decreases n - i,
    {
        let c = name.get_char(i);
        if c == '/' || c == '\\' || c == '\0' {
            proof {
                assert(name@.contains(name@[i as int]));
            }
            return false;
        }
        i = i + 1;
    }
    if n == 1 && name.get_char(0) == '.' {
        proof {
            assert(name@ =~= "."@);
        }
        return false;
    }
    if n == 2 && name.get_char(0) == '.' && name.get_char(1) == '.' {
        proof {
            assert(name@ =~= ".."@);
        }
        return false;
    }
    proof {
        assert(!name@.contains('/')) by {
            if name@.contains('/') {
                let k = choose|k: int| 0 <= k < name@.len() && name@[k] == '/';
                assert(name@[k] != '/');
            }
        }
        assert(!name@.contains('\\')) by {
            if name@.contains('\\') {
                let k = choose|k: int| 0 <= k < name@.len() && name@[k] == '\\';
                assert(name@[k] != '\\');
            }
        }
        assert(!name@.contains('\0')) by {
            if name@.contains('\0') {
                let k = choose|k: int| 0 <= k < name@.len() && name@[k] == '\0';
                assert(name@[k] != '\0');
            }
        }
        assert(name@ != "."@) by {
            if name@ == "."@ {
                assert(name@.len() == 1);
                assert(name@[0] == '.');
            }
        }
        assert(name@ != ".."@) by {
            if name@ == ".."@ {
                assert(name@.len() == 2);
                assert(name@[0] == '.');
                assert(name@[1] == '.');
            }
        }
    }
    true
}

pub fn already_exists_message() -> (r: String)
    ensures
        r@ == already_exists_text(),
{
    String::from_str("A folder with this name already exists.")
}

pub fn git_spawn_failure_message(error: &str) -> (r: String)
    ensures
        r@ == git_spawn_failure_text(error@),
{
    concat2("Failed to execute git: ", error)
}

pub fn clone_failure_message(stderr: &str) -> (r: String)
    ensures
        r@ == clone_failure_text(stderr@),
{
    concat2("Git clone failed: ", stderr)
}

pub fn strip_warning_message(error: &str) -> (r: String)
    ensures
        r@ == strip_warning_text(error@),
{
    concat2("Could not remove version-control metadata: ", error)
}

pub fn success_message(name: &str) -> (r: String)
    ensures
        r@ == success_text(name@),
{
    concat3("Project ", name, " created successfully!")
}

/// Rewrites a manifest's text: every literal occurrence of the template
/// placeholder field becomes a field naming the new project.
pub fn rewrite_manifest(content: &str, name: &str) -> (r: String)
    ensures
        r@ == rewritten_manifest(content@, name@),
{
    let field = concat3("name = \"", name, "\"");
    proof {
        reveal_strlit("name = \"fantasy-craft-default-template\"");
    }
    replace_all_str(content, "name = \"fantasy-craft-default-template\"", field.as_str())
}

/// The argument list handed to the version-control client for a shallow,
/// history-depth-one clone of the template into the target.
pub open spec fn clone_invocation(url: Seq<char>, target: Seq<char>) -> Seq<Seq<char>> {
    seq!["clone"@, "--depth"@, "1"@, url, target]
}

pub fn clone_args(url: &str, target: &str) -> (r: Vec<String>)
    ensures
        r.deep_view() == clone_invocation(url@, target@),
{
    let mut r: Vec<String> = Vec::new();
    r.push(String::from_str("clone"));
    r.push(String::from_str("--depth"));
    r.push(String::from_str("1"));
    r.push(String::from_str(url));
    r.push(String::from_str(target));
    proof {
        assert(r.deep_view() =~= clone_invocation(url@, target@));
    }
    r
}

// ---------------------------------------------------------------------------
// The creation pipeline as a state machine
// ---------------------------------------------------------------------------
/// Which outcome the pipeline is waiting for.
#[derive(Clone, Copy, PartialEq, Eq, Structural)]
pub enum CreateStep {
    CheckingTarget,
    Cloning,
    StrippingHistory,
    ReadingManifest,
    WritingManifest,
    Done,
}

/// What the host must do next. Only the host touches the filesystem or
/// spawns processes; `Finish` carries the result to report.
pub enum CreateAction {
    CheckTarget { path: String },
    RunClone { url: String, target: String },
    RemoveHistoryDir { path: String },
    ReadManifest { path: String },
    WriteManifest { path: String, content: String },
    Finish { result: Result<String, String> },
}

/// The outcome of the action the host performed. `HistoryStripped`
/// carries a failure text only when removal failed for a reason other
/// than the directory being absent; `ManifestRead` carries `None` when
/// the manifest is absent or unreadable.
pub enum CreateEvent {
    TargetChecked { exists: bool },
    CloneSpawnFailed { error: String },
    CloneExited { success: bool, stderr: String },
    HistoryStripped { failure: Option<String> },
    ManifestRead { content: Option<String> },
    ManifestWritten { ok: bool },
}

/// Spec-level image of a [`CreateAction`].
#[verifier::ext_equal]
pub enum ActionModel {
    CheckTarget { path: Seq<char> },
    RunClone { url: Seq<char>, target: Seq<char> },
    RemoveHistoryDir { path: Seq<char> },
    ReadManifest { path: Seq<char> },
    WriteManifest { path: Seq<char>, content: Seq<char> },
    Finish { result: Result<Seq<char>, Seq<char>> },
}

/// Spec-level image of a [`CreateEvent`].
pub enum EventModel {
    TargetChecked { exists: bool },
    CloneSpawnFailed { error: Seq<char> },
    CloneExited { success: bool, stderr: Seq<char> },
    HistoryStripped { failure: Option<Seq<char>> },
    ManifestRead { content: Option<Seq<char>> },
    ManifestWritten { ok: bool },
}

/// One in-flight creation request.
pub struct CreateFlow {
    pub name: String,
    pub template_url: String,
    pub target: String,
    pub step: CreateStep,
    pub warnings: Vec<String>,
}

/// Spec-level image of a [`CreateFlow`].
#[verifier::ext_equal]
pub struct FlowModel {
    pub name: Seq<char>,
    pub template_url: Seq<char>,
    pub target: Seq<char>,
    pub step: CreateStep,
    pub warnings: Seq<Seq<char>>,
}

impl View for CreateFlow {
    type V = FlowModel;

    open spec fn view(&self) -> FlowModel {
        FlowModel {
            name: self.name@,
            template_url: self.template_url@,
            target: self.target@,
            step: self.step,
            warnings: self.warnings.deep_view(),
        }
    }
}

impl View for CreateEvent {
    type V = EventModel;

    open spec fn view(&self) -> EventModel {
        match self {
            CreateEvent::TargetChecked { exists } => EventModel::TargetChecked { exists: *exists },
            CreateEvent::CloneSpawnFailed { error } => EventModel::CloneSpawnFailed {
                error: error@,
            },
            CreateEvent::CloneExited { success, stderr } => EventModel::CloneExited {
                success: *success,
                stderr: stderr@,
            },
            CreateEvent::HistoryStripped { failure } => EventModel::HistoryStripped {
                failure: match failure {
                    Some(e) => Some(e@),
                    None => None,
                },
            },
            CreateEvent::ManifestRead { content } => EventModel::ManifestRead {
                content: match content {
                    Some(c) => Some(c@),
                    None => None,
                },
            },
            CreateEvent::ManifestWritten { ok } => EventModel::ManifestWritten { ok: *ok },
        }
    }
}

impl View for CreateAction {
    type V = ActionModel;

    open spec fn view(&self) -> ActionModel {
        match self {
            CreateAction::CheckTarget { path } => ActionModel::CheckTarget { path: path@ },
            CreateAction::RunClone { url, target } => ActionModel::RunClone {
                url: url@,
                target: target@,
            },
            CreateAction::RemoveHistoryDir { path } => ActionModel::RemoveHistoryDir {
                path: path@,
            },
            CreateAction::ReadManifest { path } => ActionModel::ReadManifest { path: path@ },
            CreateAction::WriteManifest { path, content } => ActionModel::WriteManifest {
                path: path@,
                content: content@,
            },
            CreateAction::Finish { result } => ActionModel::Finish {
                result: match result {
                    Ok(s) => Ok(s@),
                    Err(s) => Err(s@),
                },
            },
        }
    }
}

/// Which event answers which step.
pub open spec fn step_allowed(step: CreateStep, ev: EventModel) -> bool {
    match ev {
        EventModel::TargetChecked { .. } => step is CheckingTarget,
        EventModel::CloneSpawnFailed { .. } => step is Cloning,
        EventModel::CloneExited { .. } => step is Cloning,
        EventModel::HistoryStripped { .. } => step is StrippingHistory,
        EventModel::ManifestRead { .. } => step is ReadingManifest,
        EventModel::ManifestWritten { .. } => step is WritingManifest,
    }
}

/// The whole creation policy: given the flow and the outcome of the last
/// action, the next flow state and the next action. An occupied target
/// aborts before any mutation; a clone failure aborts with the
/// subprocess's diagnostic; a failed metadata removal only records a
/// warning; a missing manifest is success; a read manifest is written
/// back with the placeholder field replaced.
pub open spec fn transition(m: FlowModel, ev: EventModel) -> (FlowModel, ActionModel) {
    match ev {
        EventModel::TargetChecked { exists } => if exists {
            (
                FlowModel { step: CreateStep::Done, ..m },
                ActionModel::Finish { result: Err(already_exists_text()) },
            )
        } else {
            (
                FlowModel { step: CreateStep::Cloning, ..m },
                ActionModel::RunClone { url: m.template_url, target: m.target },
            )
        },
        EventModel::CloneSpawnFailed { error } => (
            FlowModel { step: CreateStep::Done, ..m },
            ActionModel::Finish { result: Err(git_spawn_failure_text(error)) },
        ),
        EventModel::CloneExited { success, stderr } => if success {
            (
                FlowModel { step: CreateStep::StrippingHistory, ..m },
                ActionModel::RemoveHistoryDir { path: m.target + "/.git"@ },
            )
        } else {
            (
                FlowModel { step: CreateStep::Done, ..m },
                ActionModel::Finish { result: Err(clone_failure_text(stderr)) },
            )
        },
        EventModel::HistoryStripped { failure } => (
            FlowModel {
                step: CreateStep::ReadingManifest,
                warnings: match failure {
                    Some(error) => m.warnings.push(strip_warning_text(error)),
                    None => m.warnings,
                },
                ..m
            },
            ActionModel::ReadManifest { path: m.target + "/Cargo.toml"@ },
        ),
        EventModel::ManifestRead { content } => match content {
            Some(c) => (
                FlowModel { step: CreateStep::WritingManifest, ..m },
                ActionModel::WriteManifest {
                    path: m.target + "/Cargo.toml"@,
                    content: rewritten_manifest(c, m.name),
                },
            ),
            None => (
                FlowModel { step: CreateStep::Done, ..m },
                ActionModel::Finish { result: Ok(success_text(m.name)) },
            ),
        },
        EventModel::ManifestWritten { .. } => (
            FlowModel { step: CreateStep::Done, ..m },
            ActionModel::Finish { result: Ok(success_text(m.name)) },
        ),
    }
}

/// Whether an action changes anything outside the flow: a clone, a
/// removal or a write. Checks, reads and reports mutate nothing.
pub open spec fn is_mutating(a: ActionModel) -> bool {
    match a {
        ActionModel::RunClone { .. } => true,
        ActionModel::RemoveHistoryDir { .. } => true,
        ActionModel::WriteManifest { .. } => true,
        ActionModel::CheckTarget { .. } => false,
        ActionModel::ReadManifest { .. } => false,
        ActionModel::Finish { .. } => false,
    }
}

/// An occupied target path makes the whole creation fail with the
/// already-exists message, issuing no mutating action: the pipeline ends
/// right there, before any clone, removal or write.
pub proof fn lemma_occupied_target_fails(m: FlowModel)
    requires
        m.step is CheckingTarget,
    ensures
        transition(m, EventModel::TargetChecked { exists: true }).1 == (ActionModel::Finish {
            result: Err(already_exists_text()),
        }),
        !is_mutating(transition(m, EventModel::TargetChecked { exists: true }).1),
        transition(m, EventModel::TargetChecked { exists: true }).0.step is Done,
        transition(m, EventModel::TargetChecked { exists: true }).0.warnings == m.warnings,
{
}

/// Failure on an occupied path is idempotent: any two attempts that find
/// the target occupied fail with the very same message and with no
/// mutating action, whatever else their states hold.
pub proof fn lemma_occupied_failure_idempotent(m1: FlowModel, m2: FlowModel)
    requires
        m1.step is CheckingTarget,
        m2.step is CheckingTarget,
    ensures
        transition(m1, EventModel::TargetChecked { exists: true }).1 == transition(
            m2,
            EventModel::TargetChecked { exists: true },
        ).1,
        !is_mutating(transition(m1, EventModel::TargetChecked { exists: true }).1),
{
}

/// A run in which every performed action succeeds issues exactly: the
/// shallow clone of the template into the target, the removal of the
/// target's version-control metadata directory, the manifest read, the
/// write-back of the manifest with the placeholder field replaced when a
/// manifest was read, and it ends with the success message naming the
/// project. A missing manifest is success as well.
pub proof fn lemma_successful_run(
    m0: FlowModel,
    stderr: Seq<char>,
    failure: Option<Seq<char>>,
    content: Option<Seq<char>>,
    ok: bool,
)
    requires
        m0.step is CheckingTarget,
    ensures
        ({
            let (m1, a1) = transition(m0, EventModel::TargetChecked { exists: false });
            let (m2, a2) = transition(m1, EventModel::CloneExited { success: true, stderr });
            let (m3, a3) = transition(m2, EventModel::HistoryStripped { failure });
            let (m4, a4) = transition(m3, EventModel::ManifestRead { content });
            &&& a1 == (ActionModel::RunClone { url: m0.template_url, target: m0.target })
            &&& a2 == (ActionModel::RemoveHistoryDir { path: m0.target + "/.git"@ })
            &&& a3 == (ActionModel::ReadManifest { path: m0.target + "/Cargo.toml"@ })
            &&& (content matches Some(c) ==> {
                let (m5, a5) = transition(m4, EventModel::ManifestWritten { ok });
                &&& a4 == (ActionModel::WriteManifest {
                    path: m0.target + "/Cargo.toml"@,
                    content: rewritten_manifest(c, m0.name),
                })
                &&& a5 == (ActionModel::Finish { result: Ok(success_text(m0.name)) })
                &&& m5.step is Done
            })
            &&& (content is None ==> a4 == (ActionModel::Finish {
                result: Ok(success_text(m0.name)),
            }) && m4.step is Done)
        }),
{
}

/// A manifest that consists of exactly the placeholder field is rewritten
/// to exactly the field naming the new project.
pub proof fn lemma_rewrite_exact_placeholder(name: Seq<char>)
    ensures
        rewritten_manifest(manifest_placeholder(), name) == manifest_name_field(name),
{
    reveal_strlit("name = \"fantasy-craft-default-template\"");
    let pat = manifest_placeholder();
    let repl = manifest_name_field(name);
    assert(pat.take(pat.len() as int) =~= pat);
    assert(pat.skip(pat.len() as int) =~= Seq::<char>::empty());
    assert(replace_all(Seq::<char>::empty(), pat, repl) == Seq::<char>::empty());
    assert(repl + Seq::<char>::empty() =~= repl);
}

impl CreateFlow {
    /// Starts a creation request: the first action checks whether the
    /// composed target path is already occupied.
    pub fn new(name: &str, base_directory: &str, template_url: &str) -> (r: (
        CreateFlow,
        CreateAction,
    ))
        ensures
            r.0@ == (FlowModel {
                name: name@,
                template_url: template_url@,
                target: joined_path(base_directory@, name@),
                step: CreateStep::CheckingTarget,
                warnings: Seq::empty(),
            }),
            r.1@ == (ActionModel::CheckTarget { path: joined_path(base_directory@, name@) }),
    {
        let target = compose_project_path(base_directory, name);
        let flow = CreateFlow {
            name: String::from_str(name),
            template_url: String::from_str(template_url),
            target: target.clone(),
            step: CreateStep::CheckingTarget,
            warnings: Vec::new(),
        };
        let action = CreateAction::CheckTarget { path: target };
        proof {
            assert(flow@ =~= (FlowModel {
                name: name@,
                template_url: template_url@,
                target: joined_path(base_directory@, name@),
                step: CreateStep::CheckingTarget,
                warnings: Seq::empty(),
            }));
        }
        (flow, action)
    }

    /// Feeds the outcome of the last action into the pipeline and returns
    /// what the host must do next, exactly as [`transition`] says.
    pub fn step(&mut self, event: CreateEvent) -> (action: CreateAction)
        requires
            step_allowed(old(self)@.step, event@),
        ensures
            final(self)@ == transition(old(self)@, event@).0,
            action@ == transition(old(self)@, event@).1,
    {
        match event {
            CreateEvent::TargetChecked { exists } => {
                if exists {
                    self.step = CreateStep::Done;
                    CreateAction::Finish { result: Err(already_exists_message()) }
                } else {
                    self.step = CreateStep::Cloning;
                    CreateAction::RunClone {
                        url: self.template_url.clone(),
                        target: self.target.clone(),
                    }
                }
            },
            CreateEvent::CloneSpawnFailed { error } => {
                self.step = CreateStep::Done;
                CreateAction::Finish { result: Err(git_spawn_failure_message(error.as_str())) }
            },
            CreateEvent::CloneExited { success, stderr } => {
                if success {
                    self.step = CreateStep::StrippingHistory;
                    CreateAction::RemoveHistoryDir {
                        path: concat2(self.target.as_str(), "/.git"),
                    }
                } else {
                    self.step = CreateStep::Done;
                    CreateAction::Finish { result: Err(clone_failure_message(stderr.as_str())) }
                }
            },
            CreateEvent::HistoryStripped { failure } => {
                match failure {
                    Some(error) => {
                        let w = strip_warning_message(error.as_str());
                        self.warnings.push(w);
                        proof {
                            assert(self.warnings.deep_view() =~= old(
                                self,
                            ).warnings.deep_view().push(strip_warning_text(error@)));
                        }
                    },
                    None => {},
                }
                self.step = CreateStep::ReadingManifest;
                CreateAction::ReadManifest { path: concat2(self.target.as_str(), "/Cargo.toml") }
            },
            CreateEvent::ManifestRead { content } => match content {
                Some(c) => {
                    self.step = CreateStep::WritingManifest;
                    let new_content = rewrite_manifest(c.as_str(), self.name.as_str());
                    CreateAction::WriteManifest {
                        path: concat2(self.target.as_str(), "/Cargo.toml"),
                        content: new_content,
                    }
                },
                None => {
                    self.step = CreateStep::Done;
                    CreateAction::Finish { result: Ok(success_message(self.name.as_str())) }
                },
            },
            CreateEvent::ManifestWritten { .. } => {
                self.step = CreateStep::Done;
                CreateAction::Finish { result: Ok(success_message(self.name.as_str())) }
            },
        }
    }
}

} // verus!
