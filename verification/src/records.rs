//! The records the harness keeps: sessions, workspaces, tool calls and results, working
//! memories, sub-agents and deletion audits.

use vstd::prelude::*;

use crate::domain::{ApprovalMode, SessionStatus};
use crate::text::owned;
use crate::util::{new_uuid, now_rfc3339, utc_timestamp};

verus! {

/// How risky a tool is.
#[derive(Debug, Clone, Copy, PartialEq, Eq, Structural)]
pub enum ToolRiskLevel {
    /// Reads only.
    ReadOnly,
    /// Writes files.
    Write,
    /// Runs commands.
    Execute,
    /// Uses the network.
    Network,
    /// Drives sub-agents.
    Agent,
}

/// Why a tool call failed.
#[derive(Debug, Clone, Copy, PartialEq, Eq, Structural)]
pub enum ToolFailureType {
    /// The arguments were not acceptable.
    InvalidArgs,
    /// Approval was refused.
    ApprovalDenied,
    /// The tool itself failed.
    ExecError,
}

/// How a tool result is handed back to the model.
#[derive(Debug, Clone, Copy, PartialEq, Eq, Structural)]
pub enum ToolProjectionType {
    /// The whole text inline.
    InlineFull,
    /// A summary only.
    Summary,
    /// A summary with the head and tail of the text.
    SummaryWithPreview,
    /// The first line of the summary only.
    SummaryOnly,
}

impl ToolFailureType {
    /// The stored name of the failure type.
    pub fn as_str(self) -> (res: &'static str)
        ensures
            res@ == failure_type_name(self),
    {
        match self {
            ToolFailureType::InvalidArgs => "InvalidArgs",
            ToolFailureType::ApprovalDenied => "ApprovalDenied",
            ToolFailureType::ExecError => "ExecError",
        }
    }
}

/// The stored name of a failure type.
pub open spec fn failure_type_name(t: ToolFailureType) -> Seq<char> {
    match t {
        ToolFailureType::InvalidArgs => "InvalidArgs"@,
        ToolFailureType::ApprovalDenied => "ApprovalDenied"@,
        ToolFailureType::ExecError => "ExecError"@,
    }
}

/// The stored name of a projection type.
pub open spec fn projection_type_name(t: ToolProjectionType) -> Seq<char> {
    match t {
        ToolProjectionType::InlineFull => "InlineFull"@,
        ToolProjectionType::Summary => "Summary"@,
        ToolProjectionType::SummaryWithPreview => "SummaryWithPreview"@,
        ToolProjectionType::SummaryOnly => "SummaryOnly"@,
    }
}

impl ToolProjectionType {
    /// The stored name of the projection type.
    pub fn as_str(self) -> (res: &'static str)
        ensures
            res@ == projection_type_name(self),
    {
        match self {
            ToolProjectionType::InlineFull => "InlineFull",
            ToolProjectionType::Summary => "Summary",
            ToolProjectionType::SummaryWithPreview => "SummaryWithPreview",
            ToolProjectionType::SummaryOnly => "SummaryOnly",
        }
    }
}

/// A 1-based line range of a file to replace, with the new text.
#[derive(Debug)]
pub struct ReplaceRange {
    /// First line replaced.
    pub start_line: usize,
    /// Last line replaced.
    pub end_line: usize,
    /// The new text.
    pub new_content: String,
}

/// A stored tool call.
#[derive(Debug)]
pub struct ToolCallRecord {
    /// Call identifier.
    pub id: String,
    /// Session identifier.
    pub session_id: String,
    /// Round number.
    pub round_no: i64,
    /// Tool name.
    pub tool_name: String,
    /// Arguments as JSON text.
    pub arguments_json: String,
    /// `done` or `failed`.
    pub status: String,
    /// Whether the call succeeded.
    pub success: bool,
    /// Why it failed.
    pub failure_type: Option<ToolFailureType>,
    /// Error text.
    pub error_message: String,
    /// Creation time.
    pub created_at: String,
    /// Last update time.
    pub updated_at: String,
}

/// A stored tool result index entry.
#[derive(Debug)]
pub struct ToolResultRecord {
    /// Call identifier.
    pub tool_call_id: String,
    /// Tool name.
    pub tool_name: String,
    /// Handle, `tool:` followed by the call identifier.
    pub handle: String,
    /// File holding the full text when it was externalized.
    pub body_file_path: String,
    /// How the result is handed back.
    pub projection_type: ToolProjectionType,
    /// The text handed back.
    pub projection_content: String,
    /// One-line summary.
    pub summary: String,
    /// First characters of the text.
    pub preview_head: String,
    /// Last characters of the text.
    pub preview_tail: String,
    /// Number of characters.
    pub char_count: usize,
    /// Number of UTF-8 bytes.
    pub byte_count: usize,
    /// Whether the call succeeded.
    pub success: bool,
    /// Whether the handed-back text was cut.
    pub truncated: bool,
    /// Whether the full text lives in a file.
    pub externalized: bool,
    /// Last update time.
    pub updated_at: String,
}

/// A stored compaction summary.
#[derive(Debug)]
pub struct WorkingMemoryEntry {
    /// Entry identifier.
    pub id: String,
    /// Session identifier.
    pub session_id: String,
    /// The compaction it records.
    pub compact_boundary_id: String,
    /// Version number.
    pub working_memory_version: i64,
    /// Estimated tokens before compaction.
    pub estimated_tokens_before: i64,
    /// Estimated tokens after compaction.
    pub estimated_tokens_after: i64,
    /// Summary text.
    pub content: String,
    /// Creation time.
    pub created_at: String,
}

/// A project directory that sessions belong to.
#[derive(Debug)]
pub struct WorkspaceDirectory {
    /// Identifier.
    pub id: String,
    /// Project name.
    pub project_name: String,
    /// Project path.
    pub project_path: String,
    /// Creation time.
    pub created_at: String,
    /// Last update time.
    pub updated_at: String,
    /// Whether it was deleted.
    pub is_deleted: bool,
}

/// An audit entry for a deletion.
#[derive(Debug)]
pub struct DeletionAudit {
    /// Identifier.
    pub id: String,
    /// `session` or `workspace`.
    pub target_type: String,
    /// The deleted item.
    pub target_id: String,
    /// `soft` or `hard`.
    pub delete_mode: String,
    /// Whether files were already missing.
    pub artifact_missing: bool,
    /// Who deleted.
    pub operator: String,
    /// The deleted item as JSON text.
    pub payload_json: String,
    /// Creation time.
    pub created_at: String,
    /// When it was restored.
    pub restored_at: Option<String>,
}

impl DeletionAudit {
    /// A new audit entry with a fresh identifier, created now and not restored.
    pub fn new(
        target_type: &str,
        target_id: &str,
        delete_mode: &str,
        artifact_missing: bool,
        operator: &str,
        payload_json: &str,
    ) -> (res: DeletionAudit)
        ensures
            res.target_type@ == target_type@,
            res.target_id@ == target_id@,
            res.delete_mode@ == delete_mode@,
            res.artifact_missing == artifact_missing,
            res.operator@ == operator@,
            res.payload_json@ == payload_json@,
            res.restored_at is None,
            utc_timestamp(res.created_at@),
    {
        DeletionAudit {
            id: new_uuid(),
            target_type: owned(target_type),
            target_id: owned(target_id),
            delete_mode: owned(delete_mode),
            artifact_missing,
            operator: owned(operator),
            payload_json: owned(payload_json),
            created_at: now_rfc3339(),
            restored_at: None,
        }
    }
}

/// How a sub-agent sees its parent's context.
#[derive(Debug, Clone, Copy, PartialEq, Eq, Structural)]
pub enum AgentMode {
    /// Inherits the parent's context.
    Inherit,
    /// Runs apart from it.
    Isolate,
}

/// The state of a sub-agent.
#[derive(Debug, Clone, Copy, PartialEq, Eq, Structural)]
pub enum AgentStatus {
    /// Created, not run.
    Open,
    /// Running.
    Running,
    /// Finished a task.
    Done,
    /// Closed.
    Closed,
}

/// A stored sub-agent.
#[derive(Debug)]
pub struct AgentInstance {
    /// Identifier.
    pub id: String,
    /// Parent session.
    pub parent_session_id: String,
    /// Parent agent, if nested.
    pub parent_agent_id: Option<String>,
    /// Context mode.
    pub mode: AgentMode,
    /// Whether it inherits context.
    pub inherit_context: bool,
    /// Nesting level, 1 for a direct child.
    pub level: i32,
    /// State.
    pub status: AgentStatus,
    /// Its session directory.
    pub session_dir: String,
    /// Its session identifier.
    pub child_session_id: String,
    /// Paths it may touch, as JSON text.
    pub allowed_paths_json: String,
    /// Its task, as JSON text.
    pub task_spec_json: String,
    /// Hash of its constraints.
    pub constraint_hash: String,
    /// Summary of its result.
    pub result_summary: String,
    /// Creation time.
    pub created_at: String,
    /// Last update time.
    pub updated_at: String,
}

/// A conversation with its settings and progress.
#[derive(Debug)]
pub struct Session {
    /// Identifier.
    pub id: String,
    /// Workspace identifier.
    pub directory_id: String,
    /// Display name.
    pub name: String,
    /// Project name.
    pub project_name: String,
    /// Project path.
    pub project_path: String,
    /// Working directory.
    pub working_directory: String,
    /// Model name.
    pub model: String,
    /// Approval mode.
    pub approval_mode: ApprovalMode,
    /// State.
    pub status: SessionStatus,
    /// Whether output is streamed.
    pub stream_output: bool,
    /// Completed rounds.
    pub round: i64,
    /// Whether the session is finished.
    pub is_finished: bool,
    /// Session directory.
    pub session_dir: String,
    /// Snapshot format version.
    pub snapshot_version: i64,
    /// Last saved round.
    pub last_round_no: i64,
    /// Hash of the saved messages.
    pub content_hash: String,
    /// System prompt.
    pub system_prompt: String,
    /// Creation time.
    pub created_at: String,
    /// Last update time.
    pub updated_at: String,
}

impl Session {
    /// A new selected session at round 0, snapshot version 1, created now.
    pub fn new(
        id: String,
        directory_id: String,
        name: String,
        project_name: String,
        project_path: String,
        working_directory: String,
        model: String,
        approval_mode: ApprovalMode,
        stream_output: bool,
        session_dir: String,
        system_prompt: String,
    ) -> (res: Session)
        ensures
            res.id == id,
            res.directory_id == directory_id,
            res.name == name,
            res.project_name == project_name,
            res.project_path == project_path,
            res.working_directory == working_directory,
            res.model == model,
            res.approval_mode == approval_mode,
            res.status == SessionStatus::Selected,
            res.stream_output == stream_output,
            res.round == 0,
            !res.is_finished,
            res.session_dir == session_dir,
            res.snapshot_version == 1,
            res.last_round_no == 0,
            res.content_hash@.len() == 0,
            res.system_prompt == system_prompt,
            res.created_at == res.updated_at,
            utc_timestamp(res.created_at@),
    {
        let now = now_rfc3339();
        let created_at = now.clone();
        proof {
            reveal_strlit("");
        }
        Session {
            id,
            directory_id,
            name,
            project_name,
            project_path,
            working_directory,
            model,
            approval_mode,
            status: SessionStatus::Selected,
            stream_output,
            round: 0,
            is_finished: false,
            session_dir,
            snapshot_version: 1,
            last_round_no: 0,
            content_hash: owned(""),
            system_prompt,
            created_at,
            updated_at: now,
        }
    }
}

} // verus!
