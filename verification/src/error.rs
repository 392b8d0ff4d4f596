//! The library's error type and the process exit codes it maps to.
use vstd::prelude::*;
use crate::text::{int_text, owned, push_int, push_str};

verus! {

/// Exit code of a successful command.
pub const EXIT_SUCCESS: i32 = 0;
/// Exit code of an internal error.
pub const EXIT_INTERNAL: i32 = 1;
/// Exit code of a user error (bad arguments, invalid input, workspace checks).
pub const EXIT_USER_ERROR: i32 = 2;
/// Exit code of a missing entity.
pub const EXIT_NOT_FOUND: i32 = 3;
/// Exit code of a conflict (concurrency, claims, registry).
pub const EXIT_CONFLICT: i32 = 4;
/// Exit code of blocked work (unmet dependencies, blocked task).
pub const EXIT_BLOCKED: i32 = 5;

/// Errors of the library. Failures that come from I/O, the database or a
/// configuration format carry their message.
#[derive(Debug)]
pub enum GranaryError {
    WorkspaceNotFound(String),
    WorkspaceAlreadyExists(String),
    WorkspaceRegistry(String),
    DirectoryAlreadyRegistered { path: String, workspace: String },
    NotWorkspaceRoot(String),
    LocalWorkspaceExistsGlobal,
    LocalWorkspaceExistsLocal,
    NestedWorkspace(String),
    NotGitRoot(String),
    ProjectNotFound(String),
    TaskNotFound(String),
    CommentNotFound(String),
    SessionNotFound(String),
    CheckpointNotFound(String),
    ArtifactNotFound(String),
    InitiativeNotFound(String),
    WorkerNotFound(String),
    RunNotFound(String),
    RunnerNotFound(String),
    ActionNotFound(String),
    NoActiveSession,
    Conflict(String),
    VersionMismatch { expected: i64, found: i64 },
    TaskBlocked(String),
    UnmetDependencies(String),
    DependencyCycle(String),
    ClaimConflict { owner: String, expires_at: String },
    InvalidArgument(String),
    InvalidId(String),
    Database(String),
    Migration(String),
    Io(String),
    Json(serde_json::Error),
    Yaml(String),
    Network(String),
    Update(String),
    GlobalConfig(String),
    Toml(String),
    DaemonConnection(String),
    DaemonProtocol(String),
    DaemonError(String),
    Other(String),
}

/// The error's message, as the command line shows it. A JSON error's message
/// is that of the parser, after its prefix.
pub open spec fn message_spec(e: GranaryError) -> Seq<char> {
    match e {
        GranaryError::WorkspaceNotFound(s) => "Workspace not found at specified path: "@ + s@,
        GranaryError::WorkspaceAlreadyExists(s) => "Workspace already exists at "@ + s@,
        GranaryError::WorkspaceRegistry(s) => "Workspace registry error: "@ + s@,
        GranaryError::DirectoryAlreadyRegistered { path, workspace } => "Directory already belongs to workspace \""@ + workspace@ + "\". Remove it first with 'granary workspace "@ + workspace@ + " remove'."@,
        GranaryError::NotWorkspaceRoot(s) => "Not in a workspace root: "@ + s@,
        GranaryError::LocalWorkspaceExistsGlobal => "Workspace already initialized locally at ./.granary. Use --force to overwrite, or run 'granary workspace migrate --global' to migrate to a named workspace."@,
        GranaryError::LocalWorkspaceExistsLocal => "Workspace already initialized locally at ./.granary. Use --force to overwrite."@,
        GranaryError::NestedWorkspace(s) => "Already inside workspace at "@ + s@ + ". Use --force to initialize a nested workspace."@,
        GranaryError::NotGitRoot(s) => "Not in git repository root (git root is "@ + s@ + "). Use --skip-git-check if intentional."@,
        GranaryError::ProjectNotFound(s) => "Project not found: "@ + s@,
        GranaryError::TaskNotFound(s) => "Task not found: "@ + s@,
        GranaryError::CommentNotFound(s) => "Comment not found: "@ + s@,
        GranaryError::SessionNotFound(s) => "Session not found: "@ + s@,
        GranaryError::CheckpointNotFound(s) => "Checkpoint not found: "@ + s@,
        GranaryError::ArtifactNotFound(s) => "Artifact not found: "@ + s@,
        GranaryError::InitiativeNotFound(s) => "Initiative not found: "@ + s@,
        GranaryError::WorkerNotFound(s) => "Worker not found: "@ + s@,
        GranaryError::RunNotFound(s) => "Run not found: "@ + s@,
        GranaryError::RunnerNotFound(s) => "Runner not found: "@ + s@,
        GranaryError::ActionNotFound(s) => "Action not found: "@ + s@,
        GranaryError::NoActiveSession => "No active session. Start one with 'granary session start <name>'."@,
        GranaryError::Conflict(s) => "Conflict: "@ + s@,
        GranaryError::VersionMismatch { expected, found } => "Version mismatch: expected "@ + int_text(expected as int) + ", found "@ + int_text(found as int),
        GranaryError::TaskBlocked(s) => "Task is blocked: "@ + s@,
        GranaryError::UnmetDependencies(s) => "Task has unmet dependencies: "@ + s@,
        GranaryError::DependencyCycle(s) => "Dependency cycle detected: "@ + s@,
        GranaryError::ClaimConflict { owner, expires_at } => "Claim conflict: task is claimed by "@ + owner@ + " until "@ + expires_at@,
        GranaryError::InvalidArgument(s) => "Invalid argument: "@ + s@,
        GranaryError::InvalidId(s) => "Invalid ID format: "@ + s@,
        GranaryError::Database(s) => "Database error: "@ + s@,
        GranaryError::Migration(s) => "Migration error: "@ + s@,
        GranaryError::Io(s) => "IO error: "@ + s@,
        GranaryError::Json(_) => "JSON error: "@,
        GranaryError::Yaml(s) => "YAML error: "@ + s@,
        GranaryError::Network(s) => "Network error: "@ + s@,
        GranaryError::Update(s) => "Update error: "@ + s@,
        GranaryError::GlobalConfig(s) => "Global config error: "@ + s@,
        GranaryError::Toml(s) => "TOML parse error: "@ + s@,
        GranaryError::DaemonConnection(s) => "Failed to connect to daemon: "@ + s@,
        GranaryError::DaemonProtocol(s) => "Daemon protocol error: "@ + s@,
        GranaryError::DaemonError(s) => "Daemon error: "@ + s@,
        GranaryError::Other(s) => s@,
    }
}

/// The exit code of an error: user errors 2, missing entities 3, conflicts 4,
/// blocked work 5, everything else 1.
pub open spec fn exit_code_spec(e: GranaryError) -> i32 {
    match e {
        GranaryError::WorkspaceNotFound(..) => EXIT_NOT_FOUND,
        GranaryError::WorkspaceAlreadyExists(..) => EXIT_CONFLICT,
        GranaryError::WorkspaceRegistry(..) => EXIT_INTERNAL,
        GranaryError::DirectoryAlreadyRegistered { .. } => EXIT_CONFLICT,
        GranaryError::NotWorkspaceRoot(..) => EXIT_USER_ERROR,
        GranaryError::LocalWorkspaceExistsGlobal => EXIT_USER_ERROR,
        GranaryError::LocalWorkspaceExistsLocal => EXIT_USER_ERROR,
        GranaryError::NestedWorkspace(..) => EXIT_USER_ERROR,
        GranaryError::NotGitRoot(..) => EXIT_USER_ERROR,
        GranaryError::ProjectNotFound(..) => EXIT_NOT_FOUND,
        GranaryError::TaskNotFound(..) => EXIT_NOT_FOUND,
        GranaryError::CommentNotFound(..) => EXIT_NOT_FOUND,
        GranaryError::SessionNotFound(..) => EXIT_NOT_FOUND,
        GranaryError::CheckpointNotFound(..) => EXIT_NOT_FOUND,
        GranaryError::ArtifactNotFound(..) => EXIT_NOT_FOUND,
        GranaryError::InitiativeNotFound(..) => EXIT_NOT_FOUND,
        GranaryError::WorkerNotFound(..) => EXIT_NOT_FOUND,
        GranaryError::RunNotFound(..) => EXIT_NOT_FOUND,
        GranaryError::RunnerNotFound(..) => EXIT_NOT_FOUND,
        GranaryError::ActionNotFound(..) => EXIT_NOT_FOUND,
        GranaryError::NoActiveSession => EXIT_NOT_FOUND,
        GranaryError::Conflict(..) => EXIT_CONFLICT,
        GranaryError::VersionMismatch { .. } => EXIT_CONFLICT,
        GranaryError::TaskBlocked(..) => EXIT_BLOCKED,
        GranaryError::UnmetDependencies(..) => EXIT_BLOCKED,
        GranaryError::DependencyCycle(..) => EXIT_CONFLICT,
        GranaryError::ClaimConflict { .. } => EXIT_CONFLICT,
        GranaryError::InvalidArgument(..) => EXIT_USER_ERROR,
        GranaryError::InvalidId(..) => EXIT_USER_ERROR,
        GranaryError::Database(..) => EXIT_INTERNAL,
        GranaryError::Migration(..) => EXIT_INTERNAL,
        GranaryError::Io(..) => EXIT_INTERNAL,
        GranaryError::Json(..) => EXIT_INTERNAL,
        GranaryError::Yaml(..) => EXIT_INTERNAL,
        GranaryError::Network(..) => EXIT_INTERNAL,
        GranaryError::Update(..) => EXIT_INTERNAL,
        GranaryError::GlobalConfig(..) => EXIT_INTERNAL,
        GranaryError::Toml(..) => EXIT_INTERNAL,
        GranaryError::DaemonConnection(..) => EXIT_INTERNAL,
        GranaryError::DaemonProtocol(..) => EXIT_INTERNAL,
        GranaryError::DaemonError(..) => EXIT_INTERNAL,
        GranaryError::Other(..) => EXIT_INTERNAL,
    }
}

/// The text of a JSON parser error (its `Display` form).
#[verifier::external_body]
fn json_error_text(e: &serde_json::Error) -> String {
    e.to_string()
}

impl GranaryError {
    /// The process exit code for this error.
    pub fn exit_code(&self) -> (r: i32)
        ensures
            r == exit_code_spec(*self),
    {
        match self {
            GranaryError::WorkspaceNotFound(..) => EXIT_NOT_FOUND,
            GranaryError::WorkspaceAlreadyExists(..) => EXIT_CONFLICT,
            GranaryError::WorkspaceRegistry(..) => EXIT_INTERNAL,
            GranaryError::DirectoryAlreadyRegistered { .. } => EXIT_CONFLICT,
            GranaryError::NotWorkspaceRoot(..) => EXIT_USER_ERROR,
            GranaryError::LocalWorkspaceExistsGlobal => EXIT_USER_ERROR,
            GranaryError::LocalWorkspaceExistsLocal => EXIT_USER_ERROR,
            GranaryError::NestedWorkspace(..) => EXIT_USER_ERROR,
            GranaryError::NotGitRoot(..) => EXIT_USER_ERROR,
            GranaryError::ProjectNotFound(..) => EXIT_NOT_FOUND,
            GranaryError::TaskNotFound(..) => EXIT_NOT_FOUND,
            GranaryError::CommentNotFound(..) => EXIT_NOT_FOUND,
            GranaryError::SessionNotFound(..) => EXIT_NOT_FOUND,
            GranaryError::CheckpointNotFound(..) => EXIT_NOT_FOUND,
            GranaryError::ArtifactNotFound(..) => EXIT_NOT_FOUND,
            GranaryError::InitiativeNotFound(..) => EXIT_NOT_FOUND,
            GranaryError::WorkerNotFound(..) => EXIT_NOT_FOUND,
            GranaryError::RunNotFound(..) => EXIT_NOT_FOUND,
            GranaryError::RunnerNotFound(..) => EXIT_NOT_FOUND,
            GranaryError::ActionNotFound(..) => EXIT_NOT_FOUND,
            GranaryError::NoActiveSession => EXIT_NOT_FOUND,
            GranaryError::Conflict(..) => EXIT_CONFLICT,
            GranaryError::VersionMismatch { .. } => EXIT_CONFLICT,
            GranaryError::TaskBlocked(..) => EXIT_BLOCKED,
            GranaryError::UnmetDependencies(..) => EXIT_BLOCKED,
            GranaryError::DependencyCycle(..) => EXIT_CONFLICT,
            GranaryError::ClaimConflict { .. } => EXIT_CONFLICT,
            GranaryError::InvalidArgument(..) => EXIT_USER_ERROR,
            GranaryError::InvalidId(..) => EXIT_USER_ERROR,
            GranaryError::Database(..) => EXIT_INTERNAL,
            GranaryError::Migration(..) => EXIT_INTERNAL,
            GranaryError::Io(..) => EXIT_INTERNAL,
            GranaryError::Json(..) => EXIT_INTERNAL,
            GranaryError::Yaml(..) => EXIT_INTERNAL,
            GranaryError::Network(..) => EXIT_INTERNAL,
            GranaryError::Update(..) => EXIT_INTERNAL,
            GranaryError::GlobalConfig(..) => EXIT_INTERNAL,
            GranaryError::Toml(..) => EXIT_INTERNAL,
            GranaryError::DaemonConnection(..) => EXIT_INTERNAL,
            GranaryError::DaemonProtocol(..) => EXIT_INTERNAL,
            GranaryError::DaemonError(..) => EXIT_INTERNAL,
            GranaryError::Other(..) => EXIT_INTERNAL,
        }
    }

    /// The error's message (what the command line prints for it).
    pub fn message(&self) -> (r: String)
        ensures
            self is Json ==> r@.subrange(0, 12) == message_spec(*self),
            !(self is Json) ==> r@ == message_spec(*self),
    {
        match self {
            GranaryError::WorkspaceNotFound(s) => {
                let mut r = owned("Workspace not found at specified path: ");
                push_str(&mut r, s.as_str());
                r
            },
            GranaryError::WorkspaceAlreadyExists(s) => {
                let mut r = owned("Workspace already exists at ");
                push_str(&mut r, s.as_str());
                r
            },
            GranaryError::WorkspaceRegistry(s) => {
                let mut r = owned("Workspace registry error: ");
                push_str(&mut r, s.as_str());
                r
            },
            GranaryError::DirectoryAlreadyRegistered { path: _, workspace } => {
                let mut r = owned("Directory already belongs to workspace \"");
                push_str(&mut r, workspace.as_str());
                push_str(&mut r, "\". Remove it first with 'granary workspace ");
                push_str(&mut r, workspace.as_str());
                push_str(&mut r, " remove'.");
                r
            },
            GranaryError::NotWorkspaceRoot(s) => {
                let mut r = owned("Not in a workspace root: ");
                push_str(&mut r, s.as_str());
                r
            },
            GranaryError::LocalWorkspaceExistsGlobal => owned("Workspace already initialized locally at ./.granary. Use --force to overwrite, or run 'granary workspace migrate --global' to migrate to a named workspace."),
            GranaryError::LocalWorkspaceExistsLocal => owned("Workspace already initialized locally at ./.granary. Use --force to overwrite."),
            GranaryError::NestedWorkspace(s) => {
                let mut r = owned("Already inside workspace at ");
                push_str(&mut r, s.as_str());
                push_str(&mut r, ". Use --force to initialize a nested workspace.");
                r
            },
            GranaryError::NotGitRoot(s) => {
                let mut r = owned("Not in git repository root (git root is ");
                push_str(&mut r, s.as_str());
                push_str(&mut r, "). Use --skip-git-check if intentional.");
                r
            },
            GranaryError::ProjectNotFound(s) => {
                let mut r = owned("Project not found: ");
                push_str(&mut r, s.as_str());
                r
            },
            GranaryError::TaskNotFound(s) => {
                let mut r = owned("Task not found: ");
                push_str(&mut r, s.as_str());
                r
            },
            GranaryError::CommentNotFound(s) => {
                let mut r = owned("Comment not found: ");
                push_str(&mut r, s.as_str());
                r
            },
            GranaryError::SessionNotFound(s) => {
                let mut r = owned("Session not found: ");
                push_str(&mut r, s.as_str());
                r
            },
            GranaryError::CheckpointNotFound(s) => {
                let mut r = owned("Checkpoint not found: ");
                push_str(&mut r, s.as_str());
                r
            },
            GranaryError::ArtifactNotFound(s) => {
                let mut r = owned("Artifact not found: ");
                push_str(&mut r, s.as_str());
                r
            },
            GranaryError::InitiativeNotFound(s) => {
                let mut r = owned("Initiative not found: ");
                push_str(&mut r, s.as_str());
                r
            },
            GranaryError::WorkerNotFound(s) => {
                let mut r = owned("Worker not found: ");
                push_str(&mut r, s.as_str());
                r
            },
            GranaryError::RunNotFound(s) => {
                let mut r = owned("Run not found: ");
                push_str(&mut r, s.as_str());
                r
            },
            GranaryError::RunnerNotFound(s) => {
                let mut r = owned("Runner not found: ");
                push_str(&mut r, s.as_str());
                r
            },
            GranaryError::ActionNotFound(s) => {
                let mut r = owned("Action not found: ");
                push_str(&mut r, s.as_str());
                r
            },
            GranaryError::NoActiveSession => owned("No active session. Start one with 'granary session start <name>'."),
            GranaryError::Conflict(s) => {
                let mut r = owned("Conflict: ");
                push_str(&mut r, s.as_str());
                r
            },
            GranaryError::VersionMismatch { expected, found } => {
                let mut r = owned("Version mismatch: expected ");
                push_int(&mut r, *expected);
                push_str(&mut r, ", found ");
                push_int(&mut r, *found);
                r
            },
            GranaryError::TaskBlocked(s) => {
                let mut r = owned("Task is blocked: ");
                push_str(&mut r, s.as_str());
                r
            },
            GranaryError::UnmetDependencies(s) => {
                let mut r = owned("Task has unmet dependencies: ");
                push_str(&mut r, s.as_str());
                r
            },
            GranaryError::DependencyCycle(s) => {
                let mut r = owned("Dependency cycle detected: ");
                push_str(&mut r, s.as_str());
                r
            },
            GranaryError::ClaimConflict { owner, expires_at } => {
                let mut r = owned("Claim conflict: task is claimed by ");
                push_str(&mut r, owner.as_str());
                push_str(&mut r, " until ");
                push_str(&mut r, expires_at.as_str());
                r
            },
            GranaryError::InvalidArgument(s) => {
                let mut r = owned("Invalid argument: ");
                push_str(&mut r, s.as_str());
                r
            },
            GranaryError::InvalidId(s) => {
                let mut r = owned("Invalid ID format: ");
                push_str(&mut r, s.as_str());
                r
            },
            GranaryError::Database(s) => {
                let mut r = owned("Database error: ");
                push_str(&mut r, s.as_str());
                r
            },
            GranaryError::Migration(s) => {
                let mut r = owned("Migration error: ");
                push_str(&mut r, s.as_str());
                r
            },
            GranaryError::Io(s) => {
                let mut r = owned("IO error: ");
                push_str(&mut r, s.as_str());
                r
            },
            GranaryError::Json(e) => {
                let mut r = owned("JSON error: ");
                let ghost head = r@;
                let t = json_error_text(e);
                push_str(&mut r, t.as_str());
                proof {
                    reveal_strlit("JSON error: ");
                    assert(r@.subrange(0, 12) =~= head);
                }
                r
            },
            GranaryError::Yaml(s) => {
                let mut r = owned("YAML error: ");
                push_str(&mut r, s.as_str());
                r
            },
            GranaryError::Network(s) => {
                let mut r = owned("Network error: ");
                push_str(&mut r, s.as_str());
                r
            },
            GranaryError::Update(s) => {
                let mut r = owned("Update error: ");
                push_str(&mut r, s.as_str());
                r
            },
            GranaryError::GlobalConfig(s) => {
                let mut r = owned("Global config error: ");
                push_str(&mut r, s.as_str());
                r
            },
            GranaryError::Toml(s) => {
                let mut r = owned("TOML parse error: ");
                push_str(&mut r, s.as_str());
                r
            },
            GranaryError::DaemonConnection(s) => {
                let mut r = owned("Failed to connect to daemon: ");
                push_str(&mut r, s.as_str());
                r
            },
            GranaryError::DaemonProtocol(s) => {
                let mut r = owned("Daemon protocol error: ");
                push_str(&mut r, s.as_str());
                r
            },
            GranaryError::DaemonError(s) => {
                let mut r = owned("Daemon error: ");
                push_str(&mut r, s.as_str());
                r
            },
            GranaryError::Other(s) => owned(s.as_str()),
        }
    }
}

/// Result type of the library.
pub type Result<T> = std::result::Result<T, GranaryError>;

/// Every error maps to one of the five failure codes, never to success.
pub proof fn law_exit_code_is_failure(e: GranaryError)
    ensures
        1 <= exit_code_spec(e) <= 5,
{
}

} // verus!
