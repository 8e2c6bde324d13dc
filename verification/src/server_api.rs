//! Request and response shapes for the management calls offered to the
//! front end: server status, accounts, models, skills, reviews and
//! configuration. Payloads whose structure the library never inspects are
//! carried as JSON text.

use vstd::prelude::*;

verus! {

/// Whether the engine subprocess is running.
#[derive(Debug, Clone)]
pub struct ServerStatus {
    pub is_running: bool,
    pub version: Option<String>,
}

/// The engine's answer to starting a login flow.
#[derive(Debug, Clone)]
pub struct LoginResponse {
    pub login_type: String,
    pub login_id: Option<String>,
    pub auth_url: Option<String>,
}

/// One reasoning effort a model supports.
#[derive(Debug, Clone)]
pub struct ReasoningEffortOption {
    pub reasoning_effort: String,
    pub description: String,
}

/// One available model.
#[derive(Debug, Clone)]
pub struct Model {
    pub id: String,
    pub model: String,
    pub display_name: String,
    pub description: String,
    pub supported_reasoning_efforts: Vec<ReasoningEffortOption>,
    pub default_reasoning_effort: String,
    pub is_default: bool,
}

/// The engine's answer to listing models.
#[derive(Debug, Clone)]
pub struct ModelListResponse {
    pub data: Vec<Model>,
    pub next_cursor: Option<String>,
}

/// Parameters for listing skills.
#[derive(Debug, Clone)]
pub struct SkillsListParams {
    pub cwds: Vec<String>,
    pub force_reload: bool,
}

/// One skill's metadata.
#[derive(Debug, Clone)]
pub struct SkillMetadata {
    pub name: String,
    pub description: String,
    pub short_description: Option<String>,
    pub path: String,
    pub scope: String,
}

/// A skill that failed to load.
#[derive(Debug, Clone)]
pub struct SkillErrorInfo {
    pub path: String,
    pub message: String,
}

/// The skills found under one working directory.
#[derive(Debug, Clone)]
pub struct SkillsListEntry {
    pub cwd: String,
    pub skills: Vec<SkillMetadata>,
    pub errors: Vec<SkillErrorInfo>,
}

/// The engine's answer to listing skills.
#[derive(Debug, Clone)]
pub struct SkillsListResponse {
    pub data: Vec<SkillsListEntry>,
}

/// What a review should look at.
#[derive(Debug, Clone)]
pub enum ReviewTarget {
    /// The working tree: staged, unstaged and untracked files.
    UncommittedChanges,
    /// The changes between the current branch and a base branch.
    BaseBranch { branch: String },
    /// The changes introduced by one commit.
    Commit { sha: String, title: Option<String> },
    /// Free-form instructions.
    Custom { instructions: String },
}

/// Parameters for starting a review.
#[derive(Debug, Clone)]
pub struct ReviewStartParams {
    pub thread_id: String,
    pub target: ReviewTarget,
}

/// Parameters for running a local shell command through the engine.
#[derive(Debug, Clone)]
pub struct UserShellCommandParams {
    pub thread_id: String,
    pub command: String,
}

/// Where one configuration value came from.
#[derive(Debug, Clone)]
pub struct ConfigOrigin {
    pub layer: String,
    pub path: Option<String>,
}

/// A skill handed along with a message.
#[derive(Debug, Clone)]
pub struct SkillInput {
    pub name: String,
    pub path: String,
}

} // verus!
