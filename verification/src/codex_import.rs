//! Reading sessions recorded by the command-line client.
//!
//! A session file is a sequence of events. The caller decodes each line of
//! the file into a [`SessionEvent`]; the summary and the full session are
//! folded out of that event list here, and search over the summaries is
//! pure text matching.

use vstd::prelude::*;
use vstd::string::StrSliceExecFns;

use crate::errors::Error;
use crate::models::{file_name, file_name_of};
use crate::strutil::{
    has_prefix, has_substring, has_suffix, lower_of, lowercase, str_contains, str_starts_with,
    str_ends_with,
};

verus! {

/// A session summary for list views.
#[derive(Debug, Clone)]
pub struct CodexSessionSummary {
    /// Session identifier.
    pub id: String,
    /// Path of the session file.
    pub file_path: String,
    /// Session start timestamp.
    pub timestamp: String,
    /// Working directory.
    pub cwd: String,
    /// Project name, derived from the working directory.
    pub project_name: String,
    /// Client version that wrote the session.
    pub cli_version: String,
    /// Git branch, if recorded.
    pub git_branch: Option<String>,
    /// Git commit, if recorded.
    pub git_commit: Option<String>,
    /// First user message, as a preview.
    pub first_message: Option<String>,
    /// Total message count.
    pub message_count: usize,
    /// File size in bytes.
    pub file_size: u64,
}

/// Git information recorded in a session.
#[derive(Debug, Clone)]
pub struct GitInfo {
    pub commit_hash: Option<String>,
    pub branch: Option<String>,
}

/// Metadata recorded at the head of a session.
#[derive(Debug, Clone)]
pub struct CodexSessionMeta {
    pub id: String,
    pub timestamp: String,
    pub cwd: String,
    pub originator: String,
    pub cli_version: String,
    pub instructions: String,
    pub source: String,
    pub model_provider: String,
    pub git: Option<GitInfo>,
}

/// One message of a session; the content is JSON text.
#[derive(Debug, Clone)]
pub struct SessionMessage {
    /// Message timestamp.
    pub timestamp: String,
    /// Message type (user, assistant, a tool call).
    pub message_type: String,
    /// Message role, where the type carries one.
    pub role: Option<String>,
    /// Message content, as JSON text.
    pub content: String,
}

/// One recorded response item; the content is JSON text.
#[derive(Debug, Clone)]
pub struct ResponseItem {
    pub item_type: String,
    pub role: Option<String>,
    pub content: Option<String>,
}

/// A full session: its summary, its metadata and all messages.
#[derive(Debug, Clone)]
pub struct CodexSession {
    pub summary: CodexSessionSummary,
    pub meta: CodexSessionMeta,
    pub messages: Vec<SessionMessage>,
}

/// A decoded line of a session file.
#[derive(Debug, Clone)]
pub enum SessionEvent {
    /// The session's metadata record.
    Meta { meta: CodexSessionMeta },
    /// One response item, with the plain texts of its content pieces
    /// extracted in order and the raw content kept as JSON text.
    Item { timestamp: String, item_type: String, role: Option<String>, texts: Vec<String>, content: String },
    /// Any other event; it carries nothing the import needs.
    Other,
}

/// The configuration of the command-line client.
#[derive(Debug, Clone)]
pub struct CodexConfig {
    /// Current model.
    pub model: Option<String>,
    /// Model reasoning effort.
    pub model_reasoning_effort: Option<String>,
    /// Projects by path.
    pub projects: Vec<(String, CodexProject)>,
}

/// Per-project configuration of the command-line client.
#[derive(Debug, Clone)]
pub struct CodexProject {
    /// Trust level granted to the project.
    pub trust_level: Option<String>,
    /// Project-specific model override.
    pub model: Option<String>,
    /// Custom instructions for the project.
    pub instructions: Option<String>,
}

/// A session file name: a rollout file with the session extension.
pub open spec fn is_session_file_spec(name: Seq<char>) -> bool {
    has_prefix(name, "rollout-"@) && has_suffix(name, ".jsonl"@)
}

/// Whether a file name names a recorded session.
pub fn is_session_file_name(name: &str) -> (r: bool)
    ensures
        r == is_session_file_spec(name@),
{
    str_starts_with(name, "rollout-") && str_ends_with(name, ".jsonl")
}

/// The preview of one message text: at most 200 characters, with an
/// ellipsis where it was cut.
pub open spec fn preview_of(t: Seq<char>) -> Seq<char> {
    if t.len() > 200 {
        t.take(200) + "..."@
    } else {
        t
    }
}

/// An instruction block injected by the client rather than typed by the
/// user.
pub open spec fn is_injected_text(t: Seq<char>) -> bool {
    has_prefix(t, "<user_instructions>"@) || has_prefix(t, "<environment_context>"@)
}

/// The first text of a user message that was actually typed: injected
/// instruction blocks are skipped, and the hit is previewed.
pub open spec fn extract_user_text_spec(texts: Seq<Seq<char>>) -> Option<Seq<char>>
    decreases texts.len(),
{
    if texts.len() == 0 {
        None
    } else if !is_injected_text(texts[0]) {
        Some(preview_of(texts[0]))
    } else {
        extract_user_text_spec(texts.skip(1))
    }
}

/// Extract the preview of the first genuine user text.
pub fn extract_user_text(texts: &Vec<String>) -> (r: Option<String>)
    ensures
        r is Some <==> extract_user_text_spec(texts.deep_view()) is Some,
        r matches Some(p) ==> extract_user_text_spec(texts.deep_view()) == Some(p@),
{
    proof {
        reveal_strlit("...");
        assert("..."@ =~= seq!['.', '.', '.']);
    }
    let n = texts.len();
    proof {
        assert(texts.deep_view().skip(0) =~~= texts.deep_view());
    }
    let mut i: usize = 0;
    while i < n
        invariant
            n == texts@.len(),
            0 <= i <= n,
            extract_user_text_spec(texts.deep_view().skip(i as int)) == extract_user_text_spec(
                texts.deep_view(),
            ),
        decreases n - i,
    {
        proof {
            assert(texts.deep_view().skip(i as int)[0] == texts@[i as int]@);
            assert(texts.deep_view().skip(i as int).skip(1) =~~= texts.deep_view().skip(i + 1));
        }
        let t = &texts[i];
        let injected = str_starts_with(t.as_str(), "<user_instructions>") || str_starts_with(
            t.as_str(),
            "<environment_context>",
        );
        if !injected {
            let tn = t.as_str().unicode_len();
            if tn > 200 {
                let mut p = t.as_str().substring_char(0, 200).to_owned();
                p.append("...");
                proof {
                    assert(p@ =~= preview_of(texts@[i as int]@));
                }
                return Some(p);
            }
            return Some(t.clone());
        }
        i += 1;
    }
    proof {
        assert(texts.deep_view().skip(n as int) =~~= Seq::<Seq<char>>::empty());
    }
    None
}

/// The metadata chosen by a fold over the events: the last metadata record
/// wins.
pub open spec fn meta_of_events(events: Seq<SessionEvent>) -> Option<CodexSessionMeta>
    decreases events.len(),
{
    if events.len() == 0 {
        None
    } else {
        match events.last() {
            SessionEvent::Meta { meta } => Some(meta),
            _ => meta_of_events(events.drop_last()),
        }
    }
}

/// How many response items the events hold.
pub open spec fn item_count_of_events(events: Seq<SessionEvent>) -> int
    decreases events.len(),
{
    if events.len() == 0 {
        0
    } else {
        item_count_of_events(events.drop_last()) + (match events.last() {
            SessionEvent::Item { .. } => 1int,
            _ => 0int,
        })
    }
}

/// The first user message found in the events: the first user item whose
/// texts yield a preview.
pub open spec fn first_message_of_events(events: Seq<SessionEvent>) -> Option<Seq<char>>
    decreases events.len(),
{
    if events.len() == 0 {
        None
    } else {
        match first_message_of_events(events.drop_last()) {
            Some(m) => Some(m),
            None => match events.last() {
                SessionEvent::Item { role, texts, .. } => {
                    if role matches Some(rr) && rr@ == "user"@ {
                        extract_user_text_spec(texts.deep_view())
                    } else {
                        None
                    }
                },
                _ => None,
            },
        }
    }
}

/// The messages the events hold, in order.
pub open spec fn messages_of_events(events: Seq<SessionEvent>) -> Seq<SessionMessage>
    decreases events.len(),
{
    if events.len() == 0 {
        Seq::empty()
    } else {
        let rest = messages_of_events(events.drop_last());
        match events.last() {
            SessionEvent::Item { timestamp, item_type, role, content, .. } => rest.push(
                SessionMessage {
                    timestamp: timestamp,
                    message_type: item_type,
                    role: role,
                    content: content,
                },
            ),
            _ => rest,
        }
    }
}

/// The project name derived from a working directory: its last path
/// component, or a placeholder.
pub open spec fn project_name_of(cwd: Seq<char>) -> Seq<char> {
    match file_name_of(cwd) {
        Some(n) => n,
        None => "Unknown"@,
    }
}

fn project_name(cwd: &str) -> (r: String)
    ensures
        r@ == project_name_of(cwd@),
{
    match file_name(cwd) {
        Some(n) => n,
        None => String::from_str("Unknown"),
    }
}

struct FoldState {
    meta: Option<CodexSessionMeta>,
    count: usize,
    first: Option<String>,
    messages: Vec<SessionMessage>,
}

fn fold_events(events: Vec<SessionEvent>) -> (r: FoldState)
    ensures
        ({
            let ev = events@;
            &&& r.meta == meta_of_events(ev)
            &&& r.count == item_count_of_events(ev)
            &&& (match r.first {
                Some(ref m) => first_message_of_events(ev) == Some(m@),
                None => first_message_of_events(ev) is None,
            })
            &&& r.messages@ == messages_of_events(ev)
        }),
{
    let ghost orig = events@;
    let n0 = events.len();
    let mut events = events;
    let mut st = FoldState { meta: None, count: 0, first: None, messages: Vec::new() };
    proof {
        assert(orig.take(0) =~= Seq::<SessionEvent>::empty());
        assert(st.messages@ =~= messages_of_events(orig.take(0)));
        assert(events@ =~= orig.skip(0));
    }
    let ghost mut done: int = 0;
    while events.len() > 0
        invariant
            n0 == orig.len(),
            0 <= done <= orig.len(),
            events@ == orig.skip(done),
            done + events@.len() == orig.len(),
            st.meta == meta_of_events(orig.take(done)),
            st.count == item_count_of_events(orig.take(done)),
            st.count <= done,
            (match st.first {
                Some(ref m) => first_message_of_events(orig.take(done)) == Some(m@),
                None => first_message_of_events(orig.take(done)) is None,
            }),
            st.messages@ == messages_of_events(orig.take(done)),
        decreases events@.len(),
    {
        let ev = events.remove(0);
        proof {
            assert(ev == orig[done]);
            assert(events@ =~= orig.skip(done + 1));
            assert(orig.take(done + 1).drop_last() =~= orig.take(done));
            assert(orig.take(done + 1).last() == orig[done]);
        }
        match ev {
            SessionEvent::Meta { meta } => {
                st.meta = Some(meta);
            },
            SessionEvent::Item { timestamp, item_type, role, texts, content } => {
                st.count = st.count + 1;
                let is_user = match &role {
                    Some(rr) => crate::strutil::str_eq(rr.as_str(), "user"),
                    None => false,
                };
                if st.first.is_none() && is_user {
                    st.first = extract_user_text(&texts);
                }
                st.messages.push(
                    SessionMessage { timestamp, message_type: item_type, role, content },
                );
            },
            SessionEvent::Other => {
            },
        }
        proof {
            assert(st.messages@ =~= messages_of_events(orig.take(done + 1)));
            done = done + 1;
        }
    }
    proof {
        assert(orig.take(orig.len() as int) =~= orig);
    }
    st
}

/// Fold a session file's events into its summary. A session without a
/// metadata record is rejected; otherwise the summary carries the (last)
/// metadata, the item count and the first genuine user message.
pub fn session_summary_from_events(events: Vec<SessionEvent>, file_path: String, file_size: u64) -> (r:
    Result<CodexSessionSummary, Error>)
    ensures
        ({
            let ev = events@;
            match r {
                Ok(s) => {
                    &&& meta_of_events(ev) matches Some(m) && {
                        &&& s.id == m.id
                        &&& s.timestamp == m.timestamp
                        &&& s.cwd == m.cwd
                        &&& s.cli_version == m.cli_version
                        &&& s.project_name@ == project_name_of(m.cwd@)
                        &&& (match m.git {
                            Some(ref g) => s.git_branch == g.branch && s.git_commit
                                == g.commit_hash,
                            None => s.git_branch is None && s.git_commit is None,
                        })
                    }
                    &&& s.file_path == file_path
                    &&& s.file_size == file_size
                    &&& s.message_count == item_count_of_events(ev)
                    &&& (match s.first_message {
                        Some(ref fm) => first_message_of_events(ev) == Some(fm@),
                        None => first_message_of_events(ev) is None,
                    })
                },
                Err(e) => meta_of_events(ev) is None && e is Other,
            }
        }),
{
    let st = fold_events(events);
    let meta = match st.meta {
        Some(m) => m,
        None => {
            return Err(Error::Other(String::from_str("Session has no metadata")));
        },
    };
    let (git_branch, git_commit) = match &meta.git {
        Some(g) => (clone_opt_string(&g.branch), clone_opt_string(&g.commit_hash)),
        None => (None, None),
    };
    let name = project_name(meta.cwd.as_str());
    Ok(
        CodexSessionSummary {
            id: meta.id,
            file_path,
            timestamp: meta.timestamp,
            cwd: meta.cwd,
            project_name: name,
            cli_version: meta.cli_version,
            git_branch,
            git_commit,
            first_message: st.first,
            message_count: st.count,
            file_size,
        },
    )
}

/// Fold a session file's events into the full session: the summary, the
/// (last) metadata record and every response item as a message, in order.
pub fn session_from_events(events: Vec<SessionEvent>, file_path: String, file_size: u64) -> (r:
    Result<CodexSession, Error>)
    ensures
        ({
            let ev = events@;
            match r {
                Ok(s) => {
                    &&& meta_of_events(ev) == Some(s.meta)
                    &&& s.messages@ == messages_of_events(ev)
                    &&& s.summary.file_path == file_path
                    &&& s.summary.file_size == file_size
                    &&& s.summary.id == s.meta.id
                    &&& s.summary.message_count == item_count_of_events(ev)
                    &&& (match s.summary.first_message {
                        Some(ref fm) => first_message_of_events(ev) == Some(fm@),
                        None => first_message_of_events(ev) is None,
                    })
                },
                Err(e) => meta_of_events(ev) is None && e is Other,
            }
        }),
{
    let st = fold_events(events);
    let meta = match st.meta {
        Some(m) => m,
        None => {
            return Err(Error::Other(String::from_str("Session has no metadata")));
        },
    };
    let (git_branch, git_commit) = match &meta.git {
        Some(g) => (clone_opt_string(&g.branch), clone_opt_string(&g.commit_hash)),
        None => (None, None),
    };
    let name = project_name(meta.cwd.as_str());
    let summary = CodexSessionSummary {
        id: meta.id.clone(),
        file_path,
        timestamp: meta.timestamp.clone(),
        cwd: meta.cwd.clone(),
        project_name: name,
        cli_version: meta.cli_version.clone(),
        git_branch,
        git_commit,
        first_message: st.first,
        message_count: st.count,
        file_size,
    };
    Ok(CodexSession { summary, meta, messages: st.messages })
}

fn clone_opt_string(s: &Option<String>) -> (r: Option<String>)
    ensures
        r == *s,
{
    match s {
        Some(v) => Some(v.clone()),
        None => None,
    }
}

/// Whether a summary matches a (lowercased) search query: on the project
/// name, the working directory, the first message or the git branch.
pub open spec fn summary_matches(s: CodexSessionSummary, q: Seq<char>) -> bool {
    ||| has_substring(lower_of(s.project_name@), q)
    ||| has_substring(lower_of(s.cwd@), q)
    ||| (s.first_message matches Some(m) && has_substring(lower_of(m@), q))
    ||| (s.git_branch matches Some(b) && has_substring(lower_of(b@), q))
}

/// The summaries matching a query, in their original order.
pub open spec fn matching_summaries(all: Seq<CodexSessionSummary>, q: Seq<char>) -> Seq<
    CodexSessionSummary,
>
    decreases all.len(),
{
    if all.len() == 0 {
        Seq::empty()
    } else if summary_matches(all.last(), q) {
        matching_summaries(all.drop_last(), q).push(all.last())
    } else {
        matching_summaries(all.drop_last(), q)
    }
}

fn summary_matches_exec(s: &CodexSessionSummary, query_lower: &str) -> (r: bool)
    ensures
        r == summary_matches(*s, query_lower@),
{
    if str_contains(lowercase(s.project_name.as_str()).as_str(), query_lower) {
        return true;
    }
    if str_contains(lowercase(s.cwd.as_str()).as_str(), query_lower) {
        return true;
    }
    if let Some(m) = &s.first_message {
        if str_contains(lowercase(m.as_str()).as_str(), query_lower) {
            return true;
        }
    }
    if let Some(b) = &s.git_branch {
        if str_contains(lowercase(b.as_str()).as_str(), query_lower) {
            return true;
        }
    }
    false
}

/// Search session summaries by keyword, case-insensitively, returning at
/// most `limit` hits in their original order.
pub fn search_sessions(all_sessions: Vec<CodexSessionSummary>, query: &str, limit: usize) -> (r:
    Vec<CodexSessionSummary>)
    ensures
        ({
            let hits = matching_summaries(all_sessions@, lower_of(query@));
            r@ == (if hits.len() > limit {
                hits.take(limit as int)
            } else {
                hits
            })
        }),
{
    let query_lower = lowercase(query);
    let ghost q = lower_of(query@);
    let ghost orig = all_sessions@;
    let mut all_sessions = all_sessions;
    let mut out: Vec<CodexSessionSummary> = Vec::new();
    proof {
        assert(out@ =~= matching_summaries(orig.take(0), q));
        assert(all_sessions@ =~= orig.skip(0));
    }
    let ghost mut done: int = 0;
    while all_sessions.len() > 0
        invariant
            query_lower@ == q,
            0 <= done <= orig.len(),
            all_sessions@ == orig.skip(done),
            out@ == matching_summaries(orig.take(done), q),
        decreases all_sessions@.len(),
    {
        let s = all_sessions.remove(0);
        proof {
            assert(s == orig[done]);
            assert(all_sessions@ =~= orig.skip(done + 1));
            assert(orig.take(done + 1).drop_last() =~= orig.take(done));
            assert(orig.take(done + 1).last() == orig[done]);
        }
        if summary_matches_exec(&s, query_lower.as_str()) {
            out.push(s);
        }
        proof {
            assert(out@ =~= matching_summaries(orig.take(done + 1), q));
            done = done + 1;
        }
    }
    proof {
        assert(orig.take(orig.len() as int) =~= orig);
    }
    if out.len() > limit {
        out.truncate(limit);
    }
    out
}

} // verus!
