//! The data the command layer hands to the frontend: repository snapshots,
//! refs, history rows, diffs and the small result records of each command.

use vstd::prelude::*;
use crate::error::{AppError, ErrorCode};

verus! {

/// Where HEAD points.
#[derive(Debug, Clone, PartialEq, Eq)]
pub enum HeadState {
    Branch { ref_id: String, name: String, oid: String },
    Detached { oid: String },
    Unborn { name: String },
}

/// Untrusted repositories are read-only: no hooks, filters or writes.
#[derive(Debug, Clone, Copy, PartialEq, Eq, Structural)]
pub enum TrustState {
    ReadOnly,
    Trusted,
}

#[derive(Debug, Clone, Copy, PartialEq, Eq, Structural)]
pub enum RepoState {
    Normal,
    Merging,
    StashConflict,
    ExternalOperation,
}

#[derive(Debug, Clone, PartialEq, Eq)]
pub struct UpstreamInfo {
    pub ref_id: String,
    pub ahead: u64,
    pub behind: u64,
}

/// Versioned view of one open repository; every mutation bumps `version`.
#[derive(Debug, Clone, PartialEq, Eq)]
pub struct RepoSnapshot {
    pub repo_id: String,
    pub workspace_key: String,
    pub version: u64,
    pub display_name: String,
    pub display_path: String,
    pub head: HeadState,
    pub trust: TrustState,
    pub state: RepoState,
    pub merge_origin: Option<String>,
    pub upstream: Option<UpstreamInfo>,
    pub last_fetch_at: Option<String>,
    pub active_operation: Option<String>,
    pub staged_count: Option<u64>,
    pub unstaged_count: Option<u64>,
    pub conflict_count: Option<u64>,
}

#[derive(Debug, Clone, PartialEq, Eq)]
pub struct RefItem {
    pub ref_id: String,
    pub full_name: String,
    pub label: String,
    pub kind: String,
    pub oid: String,
    pub current: bool,
    pub checked_out_elsewhere: bool,
}

#[derive(Debug, Clone, PartialEq, Eq)]
pub struct CommitRow {
    pub oid: String,
    pub parents: Vec<String>,
    pub subject: String,
    pub author_name: String,
    pub authored_at: String,
    pub committed_at: String,
    pub refs: Vec<String>,
    pub boundary: bool,
}

#[derive(Debug, Clone, PartialEq, Eq)]
pub struct HistoryPage {
    pub history_session_id: String,
    pub rows: Vec<CommitRow>,
    pub next_cursor: Option<String>,
    pub truncated: bool,
}

#[derive(Debug, Clone, PartialEq, Eq)]
pub struct CommitFileChange {
    pub status: String,
    pub path: String,
    pub old_path: Option<String>,
    pub path_id: String,
}

#[derive(Debug, Clone, PartialEq, Eq)]
pub struct DiffLine {
    pub kind: String,
    pub old_line: Option<u64>,
    pub new_line: Option<u64>,
    pub text: String,
}

#[derive(Debug, Clone, PartialEq, Eq)]
pub struct DiffHunk {
    pub hunk_id: String,
    pub header: String,
    pub old_start: u64,
    pub new_start: u64,
    pub lines: Vec<DiffLine>,
}

#[derive(Debug, Clone, PartialEq, Eq)]
pub struct DiffDocument {
    pub kind: String,
    pub display_path: String,
    pub additions: Option<u64>,
    pub deletions: Option<u64>,
    pub hunks: Vec<DiffHunk>,
    pub truncated: bool,
    pub reason: Option<String>,
}

#[derive(Debug, Clone, PartialEq, Eq)]
pub struct IdentityInfo {
    pub name: Option<String>,
    pub email: Option<String>,
    pub scope: String,
    pub signing: bool,
}

#[derive(Debug, Clone, PartialEq, Eq)]
pub struct CommitResult {
    pub oid: String,
    pub snapshot: Box<RepoSnapshot>,
}

#[derive(Debug, Clone, PartialEq, Eq)]
pub struct BranchCreateResult {
    pub snapshot: Box<RepoSnapshot>,
    pub switched: bool,
    pub switch_error: Option<AppError>,
}

#[derive(Debug, Clone, PartialEq, Eq)]
pub struct RemoteStatus {
    pub remote_name: Option<String>,
    pub url: Option<String>,
    pub upstream_ref: Option<String>,
    pub ahead: Option<u64>,
    pub behind: Option<u64>,
    pub last_fetch_at: Option<String>,
}

#[derive(Debug, Clone, PartialEq, Eq)]
pub struct BitbucketConnectionResult {
    pub remote_name: String,
    pub username: String,
    pub credential_saved: bool,
}

#[derive(Debug, Clone, PartialEq, Eq)]
pub struct OperationLogEntry {
    pub seq: u64,
    pub at: u64,
    pub kind: String,
    pub summary: String,
    pub outcome: String,
    pub error_code: Option<String>,
}

#[derive(Debug, Clone, PartialEq, Eq)]
pub struct OperationLogPage {
    pub entries: Vec<OperationLogEntry>,
    pub next_cursor: u64,
}

#[derive(Debug, Clone, PartialEq, Eq)]
pub struct OperationStarted {
    pub operation_id: String,
}

#[derive(Debug, Clone, PartialEq, Eq)]
pub struct ConfirmationDetails {
    pub confirmation_token: String,
    pub summary: String,
    pub expires_at: u64,
}

/// What a diff request looks at.
#[derive(Debug, Clone, PartialEq, Eq)]
pub enum DiffTarget {
    Worktree { path_id: String },
    Index { path_id: String },
    Commit { oid: String, parent_index: Option<usize>, path_id: String },
}

#[derive(Debug, Clone, PartialEq, Eq)]
pub struct CommitDetails {
    pub oid: String,
    pub subject: String,
    pub body: String,
    pub author_name: String,
    pub authored_at: String,
    pub committed_at: String,
    pub parents: Vec<String>,
    pub parent_index: Option<usize>,
    pub files: Vec<CommitFileChange>,
}

#[derive(Debug, Clone, PartialEq, Eq)]
pub struct SearchResults {
    pub rows: Vec<CommitRow>,
    pub next_cursor: Option<String>,
    pub incomplete: bool,
}

#[derive(Debug, Clone, PartialEq, Eq)]
pub struct ChangedFile {
    pub path_id: String,
    pub display_path: String,
    pub original_display_path: Option<String>,
    pub index_status: String,
    pub worktree_status: String,
    pub kind: String,
    pub conflicted: bool,
}

#[derive(Debug, Clone, PartialEq, Eq)]
pub struct StatusData {
    pub files: Vec<ChangedFile>,
}

#[derive(Debug, Clone, PartialEq, Eq)]
pub struct RecentEntry {
    pub entry_id: String,
    pub key: String,
    pub display_path: String,
    pub last_opened_at: u64,
}

#[derive(Debug, Clone, PartialEq, Eq)]
pub struct OpenWorkspaceEntry {
    pub key: String,
    pub display_path: String,
}

#[derive(Debug, Clone, PartialEq, Eq)]
pub struct SkippedWorkspace {
    pub key: String,
    pub display_path: String,
    pub code: ErrorCode,
    pub message: String,
}

#[derive(Debug, Clone)]
pub struct WorkspacesRestoreResult {
    pub opened: Vec<RepoSnapshot>,
    pub skipped: Vec<SkippedWorkspace>,
    pub active_key: Option<String>,
}

#[derive(Debug, Clone, Copy, PartialEq, Eq, Structural)]
pub struct WorkspacesSaved {
    pub saved: bool,
}

} // verus!
