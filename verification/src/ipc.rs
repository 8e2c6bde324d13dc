//! The request and response shapes exchanged with the engine subprocess.
//!
//! JSON payloads whose structure the library never inspects are carried as
//! JSON text; the serializing front end converts at the boundary. The
//! approval decision sub-protocol — answering a server-issued request — is
//! modelled exactly, down to the JSON written back on the wire.

use vstd::prelude::*;

use crate::codec::{json_escaped, append_json_escaped};
use crate::errors::Error;
use crate::strutil::str_eq;

verus! {

/// Parameters for starting a thread.
#[derive(Debug, Clone)]
pub struct ThreadStartParams {
    /// Working directory for the thread.
    pub cwd: Option<String>,
    /// Model to use.
    pub model: Option<String>,
    /// Model provider.
    pub model_provider: Option<String>,
    /// Sandbox policy name.
    pub sandbox: Option<String>,
    /// Approval policy name.
    pub approval_policy: Option<String>,
    /// Base instructions for the agent.
    pub base_instructions: Option<String>,
    /// Developer instructions, overriding the base ones.
    pub developer_instructions: Option<String>,
    /// Additional configuration, as JSON text.
    pub config: Option<String>,
}

/// A sandbox policy, as the engine reports it.
#[derive(Debug, Clone)]
pub enum SandboxPolicy {
    ReadOnly,
    WorkspaceWrite {
        writable_roots: Vec<String>,
        network_access: bool,
        exclude_tmpdir_env_var: bool,
        exclude_slash_tmp: bool,
    },
    DangerFullAccess,
    ExternalSandbox { network_access: String },
}

/// The network access an external sandbox gets when none is named.
pub fn default_network_access() -> (r: String)
    ensures
        r@ == "restricted"@,
{
    String::from_str("restricted")
}

/// Information about one thread.
#[derive(Debug, Clone)]
pub struct ThreadInfo {
    pub id: String,
    pub cwd: String,
    pub model: Option<String>,
    pub model_provider: Option<String>,
    pub preview: Option<String>,
    pub created_at: Option<i64>,
    pub cli_version: Option<String>,
    pub approval_policy: Option<String>,
    pub sandbox_policy: Option<SandboxPolicy>,
}

/// The engine's answer to starting a thread.
#[derive(Debug, Clone)]
pub struct ThreadStartResponse {
    pub thread: ThreadInfo,
    pub model: String,
    pub model_provider: String,
    pub cwd: String,
    pub approval_policy: String,
    pub sandbox: SandboxPolicy,
    pub reasoning_effort: Option<String>,
    pub reasoning_summary: Option<String>,
}

/// Parameters for resuming a thread.
#[derive(Debug, Clone)]
pub struct ThreadResumeParams {
    pub thread_id: String,
}

/// The engine's answer to resuming a thread; items are JSON text.
#[derive(Debug, Clone)]
pub struct ThreadResumeResponse {
    pub thread: ThreadInfo,
    pub items: Vec<String>,
}

/// Parameters for listing threads.
#[derive(Debug, Clone)]
pub struct ThreadListParams {
    pub limit: Option<u32>,
    pub cursor: Option<String>,
    pub model_providers: Option<Vec<String>>,
}

/// Git information attached to a thread summary.
#[derive(Debug, Clone)]
pub struct GitInfo {
    pub sha: Option<String>,
    pub branch: Option<String>,
    pub origin_url: Option<String>,
}

/// One thread in a listing.
#[derive(Debug, Clone)]
pub struct ThreadSummary {
    pub id: String,
    pub preview: String,
    pub model_provider: String,
    pub created_at: i64,
    pub cwd: String,
    pub cli_version: String,
    pub source: String,
    pub git_info: Option<GitInfo>,
}

/// The engine's answer to listing threads.
#[derive(Debug, Clone)]
pub struct ThreadListResponse {
    pub data: Vec<ThreadSummary>,
    pub next_cursor: Option<String>,
}

/// One piece of user input for a turn.
#[derive(Debug, Clone)]
pub enum UserInput {
    /// Plain text.
    Text { text: String },
    /// An image on the local disk.
    LocalImage { path: String },
    /// A skill selected by the user: its name and its definition file.
    Skill { name: String, path: String },
}

/// Parameters for starting a turn.
#[derive(Debug, Clone)]
pub struct TurnStartParams {
    pub thread_id: String,
    pub input: Vec<UserInput>,
    /// Reasoning effort override.
    pub effort: Option<String>,
    /// Reasoning summary override.
    pub summary: Option<String>,
    /// Working directory override.
    pub cwd: Option<String>,
    /// Approval policy override.
    pub approval_policy: Option<String>,
    /// Sandbox policy override.
    pub sandbox_policy: Option<String>,
    /// Model override.
    pub model: Option<String>,
}

/// Information about one turn; items and error are JSON text.
#[derive(Debug, Clone)]
pub struct TurnInfo {
    pub id: String,
    pub status: String,
    pub items: Vec<String>,
    pub error: Option<String>,
}

/// The engine's answer to starting a turn.
#[derive(Debug, Clone)]
pub struct TurnStartResponse {
    pub turn: TurnInfo,
}

/// Parameters for interrupting a turn.
#[derive(Debug, Clone)]
pub struct TurnInterruptParams {
    pub thread_id: String,
    /// The turn to interrupt; the current turn when absent.
    pub turn_id: Option<String>,
}

/// A persistent amendment to the execution policy: one allowed command.
#[derive(Debug, Clone)]
pub struct ExecPolicyAmendment {
    pub command: Vec<String>,
}

/// The user's decision on an approval request.
#[derive(Debug, Clone)]
pub enum ApprovalDecision {
    /// Run this action once.
    Accept,
    /// Allow this action for the current session.
    AcceptForSession,
    /// Approve and persist an execution-policy amendment.
    AcceptWithExecpolicyAmendment { execpolicy_amendment: ExecPolicyAmendment },
    /// Decline this action.
    Decline,
    /// Cancel the request.
    Cancel,
}

/// Approval parameters for the notification fallback transport.
#[derive(Debug, Clone)]
pub struct ApprovalResponseParams {
    pub thread_id: String,
    pub item_id: String,
    pub decision: ApprovalDecision,
}

/// The result object answering a server-issued approval request.
#[derive(Debug, Clone)]
pub struct ApprovalResponseResult {
    pub decision: ApprovalDecision,
}

/// Account details when logged in.
#[derive(Debug, Clone)]
pub struct AccountDetails {
    pub account_type: String,
    pub email: Option<String>,
    pub plan_type: Option<String>,
}

/// Account information reported by the engine.
#[derive(Debug, Clone)]
pub struct AccountInfo {
    pub account: Option<AccountDetails>,
    pub requires_openai_auth: bool,
}

/// A JSON array of quoted, escaped strings, comma separated.
pub open spec fn comma_join_quoted(v: Seq<Seq<char>>) -> Seq<char>
    decreases v.len(),
{
    if v.len() == 0 {
        Seq::empty()
    } else if v.len() == 1 {
        seq!['"'] + json_escaped(v[0]) + seq!['"']
    } else {
        comma_join_quoted(v.drop_last()) + seq![','] + seq!['"'] + json_escaped(v.last()) + seq![
            '"',
        ]
    }
}

/// The JSON rendering of a string array.
pub open spec fn json_string_array(v: Seq<Seq<char>>) -> Seq<char> {
    seq!['['] + comma_join_quoted(v) + seq![']']
}

/// Render a string list as a JSON array.
pub fn encode_json_string_array(v: &Vec<String>) -> (r: String)
    ensures
        r@ == json_string_array(v.deep_view()),
{
    proof {
        reveal_strlit("[");
        reveal_strlit("]");
        reveal_strlit(",");
        reveal_strlit("\"");
    }
    let mut out = String::from_str("[");
    let n = v.len();
    proof {
        assert(out@ =~= seq!['['] + comma_join_quoted(v.deep_view().take(0)));
    }
    let mut i: usize = 0;
    while i < n
        invariant
            n == v@.len(),
            0 <= i <= n,
            out@ == seq!['['] + comma_join_quoted(v.deep_view().take(i as int)),
        decreases n - i,
    {
        proof {
            reveal_strlit(",");
            reveal_strlit("\"");
        }
        if i > 0 {
            out.append(",");
        }
        out.append("\"");
        append_json_escaped(&mut out, v[i].as_str());
        out.append("\"");
        proof {
            assert(v.deep_view().take(i + 1).drop_last() =~~= v.deep_view().take(i as int));
            assert(v.deep_view().take(i + 1).last() == v@[i as int]@);
            assert(out@ =~= seq!['['] + comma_join_quoted(v.deep_view().take(i + 1)));
        }
        i += 1;
    }
    out.append("]");
    proof {
        assert(v.deep_view().take(n as int) =~~= v.deep_view());
        assert(out@ =~= json_string_array(v.deep_view()));
    }
    out
}

/// The JSON written back to the subprocess for each decision.
pub open spec fn approval_result_json_spec(d: ApprovalDecision) -> Seq<char> {
    match d {
        ApprovalDecision::Accept => "{\"decision\":\"accept\"}"@,
        ApprovalDecision::AcceptForSession => "{\"decision\":\"acceptForSession\"}"@,
        ApprovalDecision::Decline => "{\"decision\":\"decline\"}"@,
        ApprovalDecision::Cancel => "{\"decision\":\"cancel\"}"@,
        ApprovalDecision::AcceptWithExecpolicyAmendment { execpolicy_amendment } => {
            "{\"decision\":{\"acceptWithExecpolicyAmendment\":{\"execpolicyAmendment\":{\"command\":"@
                + json_string_array(execpolicy_amendment.command.deep_view()) + "}}}}"@
        },
    }
}

/// Render the result object answering an approval request, ready to be
/// carried by a response line.
pub fn approval_result_json(result: &ApprovalResponseResult) -> (r: String)
    ensures
        r@ == approval_result_json_spec(result.decision),
{
    match &result.decision {
        ApprovalDecision::Accept => String::from_str("{\"decision\":\"accept\"}"),
        ApprovalDecision::AcceptForSession => String::from_str(
            "{\"decision\":\"acceptForSession\"}",
        ),
        ApprovalDecision::Decline => String::from_str("{\"decision\":\"decline\"}"),
        ApprovalDecision::Cancel => String::from_str("{\"decision\":\"cancel\"}"),
        ApprovalDecision::AcceptWithExecpolicyAmendment { execpolicy_amendment } => {
            let mut out = String::from_str(
                "{\"decision\":{\"acceptWithExecpolicyAmendment\":{\"execpolicyAmendment\":{\"command\":",
            );
            let arr = encode_json_string_array(&execpolicy_amendment.command);
            out.append(arr.as_str());
            out.append("}}}}");
            out
        },
    }
}

/// The decision a wire word names. An amendment is required with the
/// amendment-carrying decision and ignored otherwise; an unknown word is
/// rejected.
pub open spec fn decision_of_str(
    d: Seq<char>,
    amendment: Option<ExecPolicyAmendment>,
) -> Result<ApprovalDecision, ()> {
    if d == "accept"@ {
        Ok(ApprovalDecision::Accept)
    } else if d == "acceptForSession"@ {
        Ok(ApprovalDecision::AcceptForSession)
    } else if d == "acceptWithExecpolicyAmendment"@ {
        match amendment {
            Some(a) => Ok(
                ApprovalDecision::AcceptWithExecpolicyAmendment { execpolicy_amendment: a },
            ),
            None => Err(()),
        }
    } else if d == "decline"@ {
        Ok(ApprovalDecision::Decline)
    } else if d == "cancel"@ {
        Ok(ApprovalDecision::Cancel)
    } else {
        Err(())
    }
}

/// Parse the front end's decision word. The amendment must come along
/// exactly when the decision persists a policy amendment; unknown words and
/// a missing amendment are errors.
pub fn parse_approval_decision(decision: &str, amendment: Option<ExecPolicyAmendment>) -> (r:
    Result<ApprovalDecision, Error>)
    ensures
        match r {
            Ok(d) => decision_of_str(decision@, amendment) == Ok::<ApprovalDecision, ()>(d),
            Err(_) => decision_of_str(decision@, amendment) is Err,
        },
{
    if str_eq(decision, "accept") {
        Ok(ApprovalDecision::Accept)
    } else if str_eq(decision, "acceptForSession") {
        Ok(ApprovalDecision::AcceptForSession)
    } else if str_eq(decision, "acceptWithExecpolicyAmendment") {
        match amendment {
            Some(a) => Ok(ApprovalDecision::AcceptWithExecpolicyAmendment {
                execpolicy_amendment: a,
            }),
            None => Err(Error::Other(String::from_str("Missing execpolicy amendment"))),
        }
    } else if str_eq(decision, "decline") {
        Ok(ApprovalDecision::Decline)
    } else if str_eq(decision, "cancel") {
        Ok(ApprovalDecision::Cancel)
    } else {
        Err(Error::Other(String::from_str("Invalid decision")))
    }
}

/// Assemble the input list for a turn: the text first, then the selected
/// skills, then the images.
pub fn build_turn_input(text: String, skills: Vec<(String, String)>, image_paths: Vec<String>) -> (r:
    Vec<UserInput>)
    ensures
        r@.len() == 1 + skills@.len() + image_paths@.len(),
        (r@[0] matches UserInput::Text { text: t } && t == text),
        forall|i: int|
            0 <= i < skills@.len() ==> ((#[trigger] r@[1 + i]) matches UserInput::Skill {
                name,
                path,
            } && name == skills@[i].0 && path == skills@[i].1),
        forall|i: int|
            0 <= i < image_paths@.len() ==> ((#[trigger] r@[1 + skills@.len() + i])
                matches UserInput::LocalImage { path } && path == image_paths@[i]),
{
    let ghost text_snapshot = text;
    let mut input: Vec<UserInput> = Vec::new();
    input.push(UserInput::Text { text });
    let ns = skills.len();
    let mut i: usize = 0;
    while i < ns
        invariant
            ns == skills@.len(),
            0 <= i <= ns,
            input@.len() == 1 + i,
            (input@[0] matches UserInput::Text { text: t } && t == text_snapshot),
            forall|k: int|
                0 <= k < i ==> ((#[trigger] input@[1 + k]) matches UserInput::Skill { name, path }
                    && name == skills@[k].0 && path == skills@[k].1),
        decreases ns - i,
    {
        let name = skills[i].0.clone();
        let path = skills[i].1.clone();
        input.push(UserInput::Skill { name, path });
        i += 1;
    }
    let np = image_paths.len();
    let mut j: usize = 0;
    while j < np
        invariant
            ns == skills@.len(),
            np == image_paths@.len(),
            0 <= j <= np,
            input@.len() == 1 + ns + j,
            (input@[0] matches UserInput::Text { text: t } && t == text_snapshot),
            forall|k: int|
                0 <= k < ns ==> ((#[trigger] input@[1 + k]) matches UserInput::Skill { name, path }
                    && name == skills@[k].0 && path == skills@[k].1),
            forall|k: int|
                0 <= k < j ==> ((#[trigger] input@[1 + ns + k]) matches UserInput::LocalImage {
                    path,
                } && path == image_paths@[k]),
        decreases np - j,
    {
        let path = image_paths[j].clone();
        input.push(UserInput::LocalImage { path });
        j += 1;
    }
    input
}

} // verus!
