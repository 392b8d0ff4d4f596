//! The output kind each command prefers, and how `Output::format` picks the
//! rendering. The command outputs are modelled here by small types that
//! implement `Output` as the commands do: the commands written for language
//! models prefer prompt text, and every other command keeps the default.
use granary::output::types::{CliOutputFormat, Output, OutputType};

struct BatchOutput;

impl Output for BatchOutput {
    fn to_json(&self) -> String {
        "{}".to_string()
    }
    fn to_prompt(&self) -> String {
        "BatchOutput (prompt)".to_string()
    }
    fn to_text(&self) -> String {
        "BatchOutput".to_string()
    }
}

struct BatchStreamOutput;

impl Output for BatchStreamOutput {
    fn to_json(&self) -> String {
        "{}".to_string()
    }
    fn to_prompt(&self) -> String {
        "BatchStreamOutput (prompt)".to_string()
    }
    fn to_text(&self) -> String {
        "BatchStreamOutput".to_string()
    }
}

struct EntrypointOutput;

impl Output for EntrypointOutput {
    fn to_json(&self) -> String {
        "{}".to_string()
    }
    fn to_prompt(&self) -> String {
        "EntrypointOutput (prompt)".to_string()
    }
    fn to_text(&self) -> String {
        "EntrypointOutput".to_string()
    }
}

struct PlanOutput;

impl Output for PlanOutput {
    fn output_type() -> OutputType {
        OutputType::Prompt
    }
    fn to_json(&self) -> String {
        "{}".to_string()
    }
    fn to_prompt(&self) -> String {
        "PlanOutput (prompt)".to_string()
    }
    fn to_text(&self) -> String {
        "PlanOutput".to_string()
    }
}

struct ExistingPlanOutput;

impl Output for ExistingPlanOutput {
    fn output_type() -> OutputType {
        OutputType::Prompt
    }
    fn to_json(&self) -> String {
        "{}".to_string()
    }
    fn to_prompt(&self) -> String {
        "ExistingPlanOutput (prompt)".to_string()
    }
    fn to_text(&self) -> String {
        "ExistingPlanOutput".to_string()
    }
}

struct WorkOutput;

impl Output for WorkOutput {
    fn output_type() -> OutputType {
        OutputType::Prompt
    }
    fn to_json(&self) -> String {
        "{}".to_string()
    }
    fn to_prompt(&self) -> String {
        "WorkOutput (prompt)".to_string()
    }
    fn to_text(&self) -> String {
        "WorkOutput".to_string()
    }
}

struct ContextOutput;

impl Output for ContextOutput {
    fn output_type() -> OutputType {
        OutputType::Prompt
    }
    fn to_json(&self) -> String {
        "{}".to_string()
    }
    fn to_prompt(&self) -> String {
        "ContextOutput (prompt)".to_string()
    }
    fn to_text(&self) -> String {
        "ContextOutput".to_string()
    }
}

struct HandoffOutput;

impl Output for HandoffOutput {
    fn output_type() -> OutputType {
        OutputType::Prompt
    }
    fn to_json(&self) -> String {
        "{}".to_string()
    }
    fn to_prompt(&self) -> String {
        "HandoffOutput (prompt)".to_string()
    }
    fn to_text(&self) -> String {
        "HandoffOutput".to_string()
    }
}

struct InitiateOutput;

impl Output for InitiateOutput {
    fn output_type() -> OutputType {
        OutputType::Prompt
    }
    fn to_json(&self) -> String {
        "{}".to_string()
    }
    fn to_prompt(&self) -> String {
        "InitiateOutput (prompt)".to_string()
    }
    fn to_text(&self) -> String {
        "InitiateOutput".to_string()
    }
}

struct WorkDoneOutput;

impl Output for WorkDoneOutput {
    fn to_json(&self) -> String {
        "{}".to_string()
    }
    fn to_prompt(&self) -> String {
        "WorkDoneOutput (prompt)".to_string()
    }
    fn to_text(&self) -> String {
        "WorkDoneOutput".to_string()
    }
}

struct WorkBlockOutput;

impl Output for WorkBlockOutput {
    fn to_json(&self) -> String {
        "{}".to_string()
    }
    fn to_prompt(&self) -> String {
        "WorkBlockOutput (prompt)".to_string()
    }
    fn to_text(&self) -> String {
        "WorkBlockOutput".to_string()
    }
}

struct WorkReleaseOutput;

impl Output for WorkReleaseOutput {
    fn to_json(&self) -> String {
        "{}".to_string()
    }
    fn to_prompt(&self) -> String {
        "WorkReleaseOutput (prompt)".to_string()
    }
    fn to_text(&self) -> String {
        "WorkReleaseOutput".to_string()
    }
}

struct TaskOutput;

impl Output for TaskOutput {
    fn to_json(&self) -> String {
        "{}".to_string()
    }
    fn to_prompt(&self) -> String {
        "TaskOutput (prompt)".to_string()
    }
    fn to_text(&self) -> String {
        "TaskOutput".to_string()
    }
}

struct NextTaskOutput;

impl Output for NextTaskOutput {
    fn to_json(&self) -> String {
        "{}".to_string()
    }
    fn to_prompt(&self) -> String {
        "NextTaskOutput (prompt)".to_string()
    }
    fn to_text(&self) -> String {
        "NextTaskOutput".to_string()
    }
}

struct TaskCreatedOutput;

impl Output for TaskCreatedOutput {
    fn to_json(&self) -> String {
        "{}".to_string()
    }
    fn to_prompt(&self) -> String {
        "TaskCreatedOutput (prompt)".to_string()
    }
    fn to_text(&self) -> String {
        "TaskCreatedOutput".to_string()
    }
}

struct RunsOutput;

impl Output for RunsOutput {
    fn to_json(&self) -> String {
        "{}".to_string()
    }
    fn to_prompt(&self) -> String {
        "RunsOutput (prompt)".to_string()
    }
    fn to_text(&self) -> String {
        "RunsOutput".to_string()
    }
}

struct RunOutput;

impl Output for RunOutput {
    fn to_json(&self) -> String {
        "{}".to_string()
    }
    fn to_prompt(&self) -> String {
        "RunOutput (prompt)".to_string()
    }
    fn to_text(&self) -> String {
        "RunOutput".to_string()
    }
}

struct SearchOutput;

impl Output for SearchOutput {
    fn to_json(&self) -> String {
        "{}".to_string()
    }
    fn to_prompt(&self) -> String {
        "SearchOutput (prompt)".to_string()
    }
    fn to_text(&self) -> String {
        "SearchOutput".to_string()
    }
}

struct ProjectsOutput;

impl Output for ProjectsOutput {
    fn to_json(&self) -> String {
        "{}".to_string()
    }
    fn to_prompt(&self) -> String {
        "ProjectsOutput (prompt)".to_string()
    }
    fn to_text(&self) -> String {
        "ProjectsOutput".to_string()
    }
}

struct ProjectOutput;

impl Output for ProjectOutput {
    fn to_json(&self) -> String {
        "{}".to_string()
    }
    fn to_prompt(&self) -> String {
        "ProjectOutput (prompt)".to_string()
    }
    fn to_text(&self) -> String {
        "ProjectOutput".to_string()
    }
}

struct ProjectTasksOutput;

impl Output for ProjectTasksOutput {
    fn to_json(&self) -> String {
        "{}".to_string()
    }
    fn to_prompt(&self) -> String {
        "ProjectTasksOutput (prompt)".to_string()
    }
    fn to_text(&self) -> String {
        "ProjectTasksOutput".to_string()
    }
}

struct SummaryOutput;

impl Output for SummaryOutput {
    fn to_json(&self) -> String {
        "{}".to_string()
    }
    fn to_prompt(&self) -> String {
        "SummaryOutput (prompt)".to_string()
    }
    fn to_text(&self) -> String {
        "SummaryOutput".to_string()
    }
}

struct SessionsOutput;

impl Output for SessionsOutput {
    fn to_json(&self) -> String {
        "{}".to_string()
    }
    fn to_prompt(&self) -> String {
        "SessionsOutput (prompt)".to_string()
    }
    fn to_text(&self) -> String {
        "SessionsOutput".to_string()
    }
}

struct SessionOutput;

impl Output for SessionOutput {
    fn to_json(&self) -> String {
        "{}".to_string()
    }
    fn to_prompt(&self) -> String {
        "SessionOutput (prompt)".to_string()
    }
    fn to_text(&self) -> String {
        "SessionOutput".to_string()
    }
}

struct CheckpointsOutput;

impl Output for CheckpointsOutput {
    fn to_json(&self) -> String {
        "{}".to_string()
    }
    fn to_prompt(&self) -> String {
        "CheckpointsOutput (prompt)".to_string()
    }
    fn to_text(&self) -> String {
        "CheckpointsOutput".to_string()
    }
}

struct CheckpointOutput;

impl Output for CheckpointOutput {
    fn to_json(&self) -> String {
        "{}".to_string()
    }
    fn to_prompt(&self) -> String {
        "CheckpointOutput (prompt)".to_string()
    }
    fn to_text(&self) -> String {
        "CheckpointOutput".to_string()
    }
}

struct CommentsOutput;

impl Output for CommentsOutput {
    fn to_json(&self) -> String {
        "{}".to_string()
    }
    fn to_prompt(&self) -> String {
        "CommentsOutput (prompt)".to_string()
    }
    fn to_text(&self) -> String {
        "CommentsOutput".to_string()
    }
}

struct CommentOutput;

impl Output for CommentOutput {
    fn to_json(&self) -> String {
        "{}".to_string()
    }
    fn to_prompt(&self) -> String {
        "CommentOutput (prompt)".to_string()
    }
    fn to_text(&self) -> String {
        "CommentOutput".to_string()
    }
}

struct ArtifactsOutput;

impl Output for ArtifactsOutput {
    fn to_json(&self) -> String {
        "{}".to_string()
    }
    fn to_prompt(&self) -> String {
        "ArtifactsOutput (prompt)".to_string()
    }
    fn to_text(&self) -> String {
        "ArtifactsOutput".to_string()
    }
}

struct ArtifactOutput;

impl Output for ArtifactOutput {
    fn to_json(&self) -> String {
        "{}".to_string()
    }
    fn to_prompt(&self) -> String {
        "ArtifactOutput (prompt)".to_string()
    }
    fn to_text(&self) -> String {
        "ArtifactOutput".to_string()
    }
}

struct WorkersOutput;

impl Output for WorkersOutput {
    fn to_json(&self) -> String {
        "{}".to_string()
    }
    fn to_prompt(&self) -> String {
        "WorkersOutput (prompt)".to_string()
    }
    fn to_text(&self) -> String {
        "WorkersOutput".to_string()
    }
}

struct WorkerOutput;

impl Output for WorkerOutput {
    fn to_json(&self) -> String {
        "{}".to_string()
    }
    fn to_prompt(&self) -> String {
        "WorkerOutput (prompt)".to_string()
    }
    fn to_text(&self) -> String {
        "WorkerOutput".to_string()
    }
}

struct InitiativesOutput;

impl Output for InitiativesOutput {
    fn to_json(&self) -> String {
        "{}".to_string()
    }
    fn to_prompt(&self) -> String {
        "InitiativesOutput (prompt)".to_string()
    }
    fn to_text(&self) -> String {
        "InitiativesOutput".to_string()
    }
}

struct InitiativeShowOutput;

impl Output for InitiativeShowOutput {
    fn to_json(&self) -> String {
        "{}".to_string()
    }
    fn to_prompt(&self) -> String {
        "InitiativeShowOutput (prompt)".to_string()
    }
    fn to_text(&self) -> String {
        "InitiativeShowOutput".to_string()
    }
}

struct InitiativeSummaryOutput;

impl Output for InitiativeSummaryOutput {
    fn to_json(&self) -> String {
        "{}".to_string()
    }
    fn to_prompt(&self) -> String {
        "InitiativeSummaryOutput (prompt)".to_string()
    }
    fn to_text(&self) -> String {
        "InitiativeSummaryOutput".to_string()
    }
}

struct InitiativeProjectsOutput;

impl Output for InitiativeProjectsOutput {
    fn to_json(&self) -> String {
        "{}".to_string()
    }
    fn to_prompt(&self) -> String {
        "InitiativeProjectsOutput (prompt)".to_string()
    }
    fn to_text(&self) -> String {
        "InitiativeProjectsOutput".to_string()
    }
}

struct InitiativeTasksOutput;

impl Output for InitiativeTasksOutput {
    fn to_json(&self) -> String {
        "{}".to_string()
    }
    fn to_prompt(&self) -> String {
        "InitiativeTasksOutput (prompt)".to_string()
    }
    fn to_text(&self) -> String {
        "InitiativeTasksOutput".to_string()
    }
}

struct InitiativeTaskOutput;

impl Output for InitiativeTaskOutput {
    fn to_json(&self) -> String {
        "{}".to_string()
    }
    fn to_prompt(&self) -> String {
        "InitiativeTaskOutput (prompt)".to_string()
    }
    fn to_text(&self) -> String {
        "InitiativeTaskOutput".to_string()
    }
}

struct DaemonStatusOutput;

impl Output for DaemonStatusOutput {
    fn to_json(&self) -> String {
        "{}".to_string()
    }
    fn to_prompt(&self) -> String {
        "DaemonStatusOutput (prompt)".to_string()
    }
    fn to_text(&self) -> String {
        "DaemonStatusOutput".to_string()
    }
}

struct DaemonStartOutput;

impl Output for DaemonStartOutput {
    fn to_json(&self) -> String {
        "{}".to_string()
    }
    fn to_prompt(&self) -> String {
        "DaemonStartOutput (prompt)".to_string()
    }
    fn to_text(&self) -> String {
        "DaemonStartOutput".to_string()
    }
}

struct DaemonStopOutput;

impl Output for DaemonStopOutput {
    fn to_json(&self) -> String {
        "{}".to_string()
    }
    fn to_prompt(&self) -> String {
        "DaemonStopOutput (prompt)".to_string()
    }
    fn to_text(&self) -> String {
        "DaemonStopOutput".to_string()
    }
}

struct DaemonRestartOutput;

impl Output for DaemonRestartOutput {
    fn to_json(&self) -> String {
        "{}".to_string()
    }
    fn to_prompt(&self) -> String {
        "DaemonRestartOutput (prompt)".to_string()
    }
    fn to_text(&self) -> String {
        "DaemonRestartOutput".to_string()
    }
}

struct DaemonLogsOutput;

impl Output for DaemonLogsOutput {
    fn to_json(&self) -> String {
        "{}".to_string()
    }
    fn to_prompt(&self) -> String {
        "DaemonLogsOutput (prompt)".to_string()
    }
    fn to_text(&self) -> String {
        "DaemonLogsOutput".to_string()
    }
}

struct WorkerStopOutput;

impl Output for WorkerStopOutput {
    fn to_json(&self) -> String {
        "{}".to_string()
    }
    fn to_prompt(&self) -> String {
        "WorkerStopOutput (prompt)".to_string()
    }
    fn to_text(&self) -> String {
        "WorkerStopOutput".to_string()
    }
}

struct WorkerPruneOutput;

impl Output for WorkerPruneOutput {
    fn to_json(&self) -> String {
        "{}".to_string()
    }
    fn to_prompt(&self) -> String {
        "WorkerPruneOutput (prompt)".to_string()
    }
    fn to_text(&self) -> String {
        "WorkerPruneOutput".to_string()
    }
}

struct WorkerStatusOutput;

impl Output for WorkerStatusOutput {
    fn to_json(&self) -> String {
        "{}".to_string()
    }
    fn to_prompt(&self) -> String {
        "WorkerStatusOutput (prompt)".to_string()
    }
    fn to_text(&self) -> String {
        "WorkerStatusOutput".to_string()
    }
}

struct RunStopOutput;

impl Output for RunStopOutput {
    fn to_json(&self) -> String {
        "{}".to_string()
    }
    fn to_prompt(&self) -> String {
        "RunStopOutput (prompt)".to_string()
    }
    fn to_text(&self) -> String {
        "RunStopOutput".to_string()
    }
}

struct RunPauseOutput;

impl Output for RunPauseOutput {
    fn to_json(&self) -> String {
        "{}".to_string()
    }
    fn to_prompt(&self) -> String {
        "RunPauseOutput (prompt)".to_string()
    }
    fn to_text(&self) -> String {
        "RunPauseOutput".to_string()
    }
}

struct RunResumeOutput;

impl Output for RunResumeOutput {
    fn to_json(&self) -> String {
        "{}".to_string()
    }
    fn to_prompt(&self) -> String {
        "RunResumeOutput (prompt)".to_string()
    }
    fn to_text(&self) -> String {
        "RunResumeOutput".to_string()
    }
}

struct UpdateCheckOutput;

impl Output for UpdateCheckOutput {
    fn to_json(&self) -> String {
        "{}".to_string()
    }
    fn to_prompt(&self) -> String {
        "UpdateCheckOutput (prompt)".to_string()
    }
    fn to_text(&self) -> String {
        "UpdateCheckOutput".to_string()
    }
}

struct UpdateOutput;

impl Output for UpdateOutput {
    fn to_json(&self) -> String {
        "{}".to_string()
    }
    fn to_prompt(&self) -> String {
        "UpdateOutput (prompt)".to_string()
    }
    fn to_text(&self) -> String {
        "UpdateOutput".to_string()
    }
}

struct TasksOutput {
    tasks: Vec<String>,
}

impl Output for TasksOutput {
    fn to_json(&self) -> String {
        format!("{{\"tasks\":{:?}}}", self.tasks)
    }
    fn to_prompt(&self) -> String {
        format!("Tasks: {}", self.tasks.len())
    }
    fn to_text(&self) -> String {
        if self.tasks.is_empty() {
            "No tasks found.".to_string()
        } else {
            self.tasks.join("\n")
        }
    }
}

#[test]
fn batch_output_defaults_to_text() {
    assert_eq!(BatchOutput::output_type(), OutputType::Text);
}

#[test]
fn batch_stream_output_defaults_to_text() {
    assert_eq!(BatchStreamOutput::output_type(), OutputType::Text);
}

#[test]
fn entrypoint_output_defaults_to_text() {
    assert_eq!(EntrypointOutput::output_type(), OutputType::Text);
}

#[test]
fn plan_output_defaults_to_prompt() {
    assert_eq!(PlanOutput::output_type(), OutputType::Prompt);
}

#[test]
fn existing_plan_output_defaults_to_prompt() {
    assert_eq!(ExistingPlanOutput::output_type(), OutputType::Prompt);
}

#[test]
fn work_output_defaults_to_prompt() {
    assert_eq!(WorkOutput::output_type(), OutputType::Prompt);
}

#[test]
fn context_output_defaults_to_prompt() {
    assert_eq!(ContextOutput::output_type(), OutputType::Prompt);
}

#[test]
fn handoff_output_defaults_to_prompt() {
    assert_eq!(HandoffOutput::output_type(), OutputType::Prompt);
}

#[test]
fn initiate_output_defaults_to_prompt() {
    assert_eq!(InitiateOutput::output_type(), OutputType::Prompt);
}

#[test]
fn work_done_output_defaults_to_text() {
    assert_eq!(WorkDoneOutput::output_type(), OutputType::Text);
}

#[test]
fn work_block_output_defaults_to_text() {
    assert_eq!(WorkBlockOutput::output_type(), OutputType::Text);
}

#[test]
fn work_release_output_defaults_to_text() {
    assert_eq!(WorkReleaseOutput::output_type(), OutputType::Text);
}

#[test]
fn tasks_output_defaults_to_text() {
    assert_eq!(TasksOutput::output_type(), OutputType::Text);
}

#[test]
fn task_output_defaults_to_text() {
    assert_eq!(TaskOutput::output_type(), OutputType::Text);
}

#[test]
fn next_task_output_defaults_to_text() {
    assert_eq!(NextTaskOutput::output_type(), OutputType::Text);
}

#[test]
fn task_created_output_defaults_to_text() {
    assert_eq!(TaskCreatedOutput::output_type(), OutputType::Text);
}

#[test]
fn runs_output_defaults_to_text() {
    assert_eq!(RunsOutput::output_type(), OutputType::Text);
}

#[test]
fn run_output_defaults_to_text() {
    assert_eq!(RunOutput::output_type(), OutputType::Text);
}

#[test]
fn search_output_defaults_to_text() {
    assert_eq!(SearchOutput::output_type(), OutputType::Text);
}

#[test]
fn projects_output_defaults_to_text() {
    assert_eq!(ProjectsOutput::output_type(), OutputType::Text);
}

#[test]
fn project_output_defaults_to_text() {
    assert_eq!(ProjectOutput::output_type(), OutputType::Text);
}

#[test]
fn project_tasks_output_defaults_to_text() {
    assert_eq!(ProjectTasksOutput::output_type(), OutputType::Text);
}

#[test]
fn summary_output_defaults_to_text() {
    assert_eq!(SummaryOutput::output_type(), OutputType::Text);
}

#[test]
fn sessions_output_defaults_to_text() {
    assert_eq!(SessionsOutput::output_type(), OutputType::Text);
}

#[test]
fn session_output_defaults_to_text() {
    assert_eq!(SessionOutput::output_type(), OutputType::Text);
}

#[test]
fn checkpoints_output_defaults_to_text() {
    assert_eq!(CheckpointsOutput::output_type(), OutputType::Text);
}

#[test]
fn checkpoint_output_defaults_to_text() {
    assert_eq!(CheckpointOutput::output_type(), OutputType::Text);
}

#[test]
fn comments_output_defaults_to_text() {
    assert_eq!(CommentsOutput::output_type(), OutputType::Text);
}

#[test]
fn comment_output_defaults_to_text() {
    assert_eq!(CommentOutput::output_type(), OutputType::Text);
}

#[test]
fn artifacts_output_defaults_to_text() {
    assert_eq!(ArtifactsOutput::output_type(), OutputType::Text);
}

#[test]
fn artifact_output_defaults_to_text() {
    assert_eq!(ArtifactOutput::output_type(), OutputType::Text);
}

#[test]
fn workers_output_defaults_to_text() {
    assert_eq!(WorkersOutput::output_type(), OutputType::Text);
}

#[test]
fn worker_output_defaults_to_text() {
    assert_eq!(WorkerOutput::output_type(), OutputType::Text);
}

#[test]
fn initiatives_output_defaults_to_text() {
    assert_eq!(InitiativesOutput::output_type(), OutputType::Text);
}

#[test]
fn initiative_output_defaults_to_text() {
    assert_eq!(InitiativeShowOutput::output_type(), OutputType::Text);
}

#[test]
fn initiative_summary_output_defaults_to_text() {
    assert_eq!(InitiativeSummaryOutput::output_type(), OutputType::Text);
}

#[test]
fn initiative_projects_output_defaults_to_text() {
    assert_eq!(InitiativeProjectsOutput::output_type(), OutputType::Text);
}

#[test]
fn initiative_tasks_output_defaults_to_text() {
    assert_eq!(InitiativeTasksOutput::output_type(), OutputType::Text);
}

#[test]
fn initiative_task_output_defaults_to_text() {
    assert_eq!(InitiativeTaskOutput::output_type(), OutputType::Text);
}

#[test]
fn daemon_status_output_defaults_to_text() {
    assert_eq!(DaemonStatusOutput::output_type(), OutputType::Text);
}

#[test]
fn daemon_start_output_defaults_to_text() {
    assert_eq!(DaemonStartOutput::output_type(), OutputType::Text);
}

#[test]
fn daemon_stop_output_defaults_to_text() {
    assert_eq!(DaemonStopOutput::output_type(), OutputType::Text);
}

#[test]
fn daemon_restart_output_defaults_to_text() {
    assert_eq!(DaemonRestartOutput::output_type(), OutputType::Text);
}

#[test]
fn daemon_logs_output_defaults_to_text() {
    assert_eq!(DaemonLogsOutput::output_type(), OutputType::Text);
}

#[test]
fn worker_stop_output_defaults_to_text() {
    assert_eq!(WorkerStopOutput::output_type(), OutputType::Text);
}

#[test]
fn worker_prune_output_defaults_to_text() {
    assert_eq!(WorkerPruneOutput::output_type(), OutputType::Text);
}

#[test]
fn worker_status_output_defaults_to_text() {
    assert_eq!(WorkerStatusOutput::output_type(), OutputType::Text);
}

#[test]
fn run_stop_output_defaults_to_text() {
    assert_eq!(RunStopOutput::output_type(), OutputType::Text);
}

#[test]
fn run_pause_output_defaults_to_text() {
    assert_eq!(RunPauseOutput::output_type(), OutputType::Text);
}

#[test]
fn run_resume_output_defaults_to_text() {
    assert_eq!(RunResumeOutput::output_type(), OutputType::Text);
}

#[test]
fn update_check_output_defaults_to_text() {
    assert_eq!(UpdateCheckOutput::output_type(), OutputType::Text);
}

#[test]
fn update_output_defaults_to_text() {
    assert_eq!(UpdateOutput::output_type(), OutputType::Text);
}

#[test]
fn format_none_uses_default_output_type() {
    let output = TasksOutput { tasks: vec![] };
    let via_format = output.format(None);
    let via_text = output.to_text();
    assert_eq!(via_format, via_text);
}

#[test]
fn format_json_override() {
    let output = TasksOutput { tasks: vec![] };
    let via_format = output.format(Some(CliOutputFormat::Json));
    let via_json = output.to_json();
    assert_eq!(via_format, via_json);
}

#[test]
fn format_prompt_override() {
    let output = TasksOutput { tasks: vec![] };
    let via_format = output.format(Some(CliOutputFormat::Prompt));
    let via_prompt = output.to_prompt();
    assert_eq!(via_format, via_prompt);
}

#[test]
fn format_table_override() {
    let output = WorkDoneOutput;
    let via_format = output.format(Some(CliOutputFormat::Table));
    let via_text = output.to_text();
    assert_eq!(via_format, via_text);
}

#[test]
fn format_md_falls_back_to_text() {
    let output = WorkDoneOutput;
    let via_format = output.format(Some(CliOutputFormat::Md));
    let via_text = output.to_text();
    assert_eq!(via_format, via_text);
}

#[test]
fn format_yaml_falls_back_to_text() {
    let output = WorkDoneOutput;
    let via_format = output.format(Some(CliOutputFormat::Yaml));
    let via_text = output.to_text();
    assert_eq!(via_format, via_text);
}

#[test]
fn prompt_preferring_output_renders_prompt_without_request() {
    let output = PlanOutput;
    assert_eq!(output.format(None), "PlanOutput (prompt)");
    assert_eq!(output.format(Some(CliOutputFormat::Table)), "PlanOutput");
}
