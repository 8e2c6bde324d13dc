//! The locally stored records: projects, session metadata and snapshots.

use vstd::prelude::*;
use vstd::string::StrSliceExecFns;

use crate::codec::{append_json_escaped, json_escaped};
use crate::paths::{nonempty_parts, nonempty_parts_exec, split_slash, split_slash_exec, views};
use crate::strutil::{lower_of, lowercase, str_eq};

verus! {

/// Relies on `uuid::Uuid::new_v4` and its hyphenated rendering: a freshly
/// drawn random identifier, 36 characters long. Nothing else is assumed of
/// its value.
#[verifier::external_body]
pub(crate) fn new_uuid_string() -> (r: String)
    ensures
        r@.len() == 36,
{
    uuid::Uuid::new_v4().to_string()
}

/// Relies on `chrono::Utc::now().timestamp()`: the current Unix time in
/// seconds. Nothing is assumed of the clock's value.
#[verifier::external_body]
pub(crate) fn now_timestamp() -> i64 {
    chrono::Utc::now().timestamp()
}

/// The JSON string-array a text encodes, if it encodes one, as
/// `serde_json::from_str::<Vec<String>>` decides it.
pub uninterp spec fn string_list_of(s: Seq<char>) -> Option<Seq<Seq<char>>>;

/// Relies on `serde_json::from_str::<Vec<String>>`: the string list a JSON
/// text encodes, a function of the text alone.
#[verifier::external_body]
pub(crate) fn parse_string_list(s: &str) -> (r: Option<Vec<String>>)
    ensures
        r is Some <==> string_list_of(s@) is Some,
        r matches Some(v) ==> string_list_of(s@) == Some(v.deep_view()),
{
    serde_json::from_str::<Vec<String>>(s).ok()
}

/// The JSON rendering of a string list, as `serde_json::to_string` writes
/// it.
pub uninterp spec fn string_list_json(v: Seq<Seq<char>>) -> Seq<char>;

/// Relies on `serde_json::to_string` on a `Vec<String>`: its JSON array
/// rendering, a function of the list alone.
#[verifier::external_body]
pub(crate) fn encode_string_list(v: &Vec<String>) -> (r: String)
    ensures
        r@ == string_list_json(v.deep_view()),
{
    serde_json::to_string(v).unwrap_or_default()
}

/// The task list a JSON text encodes, if it encodes one: each task's
/// content and status, in order, as `serde_json` reads an array of objects
/// with string "content" and "status" fields.
pub uninterp spec fn task_list_of(s: Seq<char>) -> Option<Seq<(Seq<char>, Seq<char>)>>;

/// Relies on `serde_json::from_str` and `Value` accessors: the task list a
/// JSON text encodes, a function of the text alone.
#[verifier::external_body]
pub(crate) fn parse_task_list(s: &str) -> (r: Option<Vec<TaskItem>>)
    ensures
        r is Some <==> task_list_of(s@) is Some,
        r matches Some(v) ==> task_list_of(s@) == Some(
            v@.map_values(|t: TaskItem| (t.content@, t.status@)),
        ),
{
    let vals = serde_json::from_str::<Vec<serde_json::Value>>(s).ok()?;
    vals.iter()
        .map(
            |v| Some(
                TaskItem {
                    content: v.get("content")?.as_str()?.to_string(),
                    status: v.get("status")?.as_str()?.to_string(),
                },
            ),
        )
        .collect()
}

/// One task rendered as a JSON object.
pub open spec fn task_item_json(content: Seq<char>, status: Seq<char>) -> Seq<char> {
    seq!['{', '"', 'c', 'o', 'n', 't', 'e', 'n', 't', '"', ':', '"'] + json_escaped(content)
        + seq!['"', ',', '"', 's', 't', 'a', 't', 'u', 's', '"', ':', '"'] + json_escaped(status)
        + seq!['"', '}']
}

/// Task objects joined by commas.
pub open spec fn comma_join_tasks(v: Seq<(Seq<char>, Seq<char>)>) -> Seq<char>
    decreases v.len(),
{
    if v.len() == 0 {
        Seq::empty()
    } else if v.len() == 1 {
        task_item_json(v[0].0, v[0].1)
    } else {
        comma_join_tasks(v.drop_last()) + seq![','] + task_item_json(v.last().0, v.last().1)
    }
}

/// The JSON rendering of a task list.
pub open spec fn task_list_json(v: Seq<(Seq<char>, Seq<char>)>) -> Seq<char> {
    seq!['['] + comma_join_tasks(v) + seq![']']
}

fn append_task_item(out: &mut String, t: &TaskItem)
    ensures
        final(out)@ == old(out)@ + task_item_json(t.content@, t.status@),
{
    proof {
        reveal_strlit("{\"content\":\"");
        reveal_strlit("\",\"status\":\"");
        reveal_strlit("\"}");
        assert("{\"content\":\""@ =~= seq![
            '{', '"', 'c', 'o', 'n', 't', 'e', 'n', 't', '"', ':', '"',
        ]);
        assert("\",\"status\":\""@ =~= seq![
            '"', ',', '"', 's', 't', 'a', 't', 'u', 's', '"', ':', '"',
        ]);
        assert("\"}"@ =~= seq!['"', '}']);
    }
    out.append("{\"content\":\"");
    append_json_escaped(out, t.content.as_str());
    out.append("\",\"status\":\"");
    append_json_escaped(out, t.status.as_str());
    out.append("\"}");
    proof {
        assert(out@ =~= old(out)@ + task_item_json(t.content@, t.status@));
    }
}

/// Render a task list as JSON text.
pub fn encode_task_list(tasks: &Vec<TaskItem>) -> (r: String)
    ensures
        r@ == task_list_json(tasks@.map_values(|t: TaskItem| (t.content@, t.status@))),
{
    proof {
        reveal_strlit("[");
        reveal_strlit("]");
        reveal_strlit(",");
    }
    let ghost tv = tasks@.map_values(|t: TaskItem| (t.content@, t.status@));
    let mut out = String::from_str("[");
    let n = tasks.len();
    proof {
        assert(out@ =~= seq!['['] + comma_join_tasks(tv.take(0)));
    }
    let mut i: usize = 0;
    while i < n
        invariant
            n == tasks@.len(),
            tv == tasks@.map_values(|t: TaskItem| (t.content@, t.status@)),
            0 <= i <= n,
            out@ == seq!['['] + comma_join_tasks(tv.take(i as int)),
        decreases n - i,
    {
        proof {
            reveal_strlit(",");
        }
        if i > 0 {
            out.append(",");
        }
        append_task_item(&mut out, &tasks[i]);
        proof {
            assert(tv.take(i + 1).drop_last() =~~= tv.take(i as int));
            assert(tv.take(i + 1).last() == tv[i as int]);
            assert(out@ =~= seq!['['] + comma_join_tasks(tv.take(i + 1)));
        }
        i += 1;
    }
    out.append("]");
    proof {
        assert(tv.take(n as int) =~~= tv);
        assert(out@ =~= task_list_json(tv));
    }
    out
}

/// The final path component of `s`: its last nonempty piece, unless that
/// piece is a dot component.
pub open spec fn file_name_of(s: Seq<char>) -> Option<Seq<char>> {
    let parts = nonempty_parts(split_slash(s));
    if parts.len() == 0 {
        None
    } else if parts.last() == seq!['.'] || parts.last() == seq!['.', '.'] {
        None
    } else {
        Some(parts.last())
    }
}

/// The last nonempty path component, used as a default display name.
pub fn file_name(path: &str) -> (r: Option<String>)
    ensures
        r is Some <==> file_name_of(path@) is Some,
        r matches Some(v) ==> file_name_of(path@) == Some(v@),
{
    proof {
        reveal_strlit(".");
        reveal_strlit("..");
        assert("."@ =~= seq!['.']);
        assert(".."@ =~= seq!['.', '.']);
    }
    let parts = split_slash_exec(path);
    let clean = nonempty_parts_exec(&parts);
    if clean.len() == 0 {
        return None;
    }
    let last = &clean[clean.len() - 1];
    proof {
        assert(views(clean@).last() == clean@[clean@.len() - 1]@);
    }
    if str_eq(last.as_str(), ".") || str_eq(last.as_str(), "..") {
        return None;
    }
    Some(last.clone())
}

/// A project registered in the local database.
#[derive(Debug, Clone)]
pub struct Project {
    /// Unique identifier.
    pub id: String,
    /// Absolute path to the project directory.
    pub path: String,
    /// Display name, defaulting to the folder name.
    pub display_name: Option<String>,
    /// Unix timestamp when the project was added.
    pub created_at: i64,
    /// Unix timestamp when the project was last opened.
    pub last_opened_at: Option<i64>,
    /// JSON-encoded project settings.
    pub settings_json: Option<String>,
}

impl Project {
    /// A new project at `path`, under a fresh identifier, named after the
    /// path's last component.
    pub fn new(path: &str) -> (r: Self)
        ensures
            r.path@ == path@,
            r.id@.len() == 36,
            match r.display_name {
                Some(n) => file_name_of(path@) == Some(n@),
                None => file_name_of(path@) is None,
            },
            r.last_opened_at is None,
            r.settings_json is None,
    {
        Project {
            id: new_uuid_string(),
            path: path.to_owned(),
            display_name: file_name(path),
            created_at: now_timestamp(),
            last_opened_at: None,
            settings_json: None,
        }
    }
}

/// The lifecycle state of an agent session.
#[derive(Debug, Clone, Copy, PartialEq, Eq, Structural)]
pub enum SessionStatus {
    Idle,
    Running,
    Completed,
    Failed,
    Interrupted,
}

/// The wire word for each status.
pub open spec fn status_str(s: SessionStatus) -> Seq<char> {
    match s {
        SessionStatus::Idle => "idle"@,
        SessionStatus::Running => "running"@,
        SessionStatus::Completed => "completed"@,
        SessionStatus::Failed => "failed"@,
        SessionStatus::Interrupted => "interrupted"@,
    }
}

/// The status a (lowercased) word names; anything unknown is `Idle`.
pub open spec fn status_of_str(t: Seq<char>) -> SessionStatus {
    if t == "running"@ { SessionStatus::Running }
    else if t == "completed"@ { SessionStatus::Completed }
    else if t == "failed"@ { SessionStatus::Failed }
    else if t == "interrupted"@ { SessionStatus::Interrupted }
    else { SessionStatus::Idle }
}

impl SessionStatus {
    /// The status as its stored word.
    pub fn as_str(&self) -> (r: &'static str)
        ensures
            r@ == status_str(*self),
    {
        match self {
            SessionStatus::Idle => "idle",
            SessionStatus::Running => "running",
            SessionStatus::Completed => "completed",
            SessionStatus::Failed => "failed",
            SessionStatus::Interrupted => "interrupted",
        }
    }

    /// Parse a status word, ignoring case; unknown words mean `Idle`.
    pub fn from_str(s: &str) -> (r: Self)
        ensures
            r == status_of_str(lower_of(s@)),
    {
        let lowered = lowercase(s);
        if str_eq(lowered.as_str(), "running") {
            SessionStatus::Running
        } else if str_eq(lowered.as_str(), "completed") {
            SessionStatus::Completed
        } else if str_eq(lowered.as_str(), "failed") {
            SessionStatus::Failed
        } else if str_eq(lowered.as_str(), "interrupted") {
            SessionStatus::Interrupted
        } else {
            SessionStatus::Idle
        }
    }
}

impl Default for SessionStatus {
    /// The default status is `Idle`.
    fn default() -> (r: Self)
        ensures
            r == SessionStatus::Idle,
    {
        SessionStatus::Idle
    }
}

/// A task item tracked for a session.
#[derive(Debug, Clone)]
pub struct TaskItem {
    /// Task description.
    pub content: String,
    /// Task status word (pending, in progress, completed).
    pub status: String,
}

/// Locally stored extensions for one agent session: title, tags, favorite
/// and archive flags, status and the first user message.
#[derive(Debug, Clone)]
pub struct SessionMetadata {
    /// The engine's thread id.
    pub session_id: String,
    /// The project this session belongs to.
    pub project_id: String,
    /// User-defined title.
    pub title: Option<String>,
    /// JSON array of tags.
    pub tags: Option<String>,
    /// Whether this session is favorited.
    pub is_favorite: bool,
    /// Whether this session is archived.
    pub is_archived: bool,
    /// Unix timestamp when last accessed.
    pub last_accessed_at: Option<i64>,
    /// Unix timestamp when created.
    pub created_at: i64,
    /// Current session status.
    pub status: SessionStatus,
    /// First user message, the session name when no title is set.
    pub first_message: Option<String>,
    /// JSON array of tasks for progress tracking.
    pub tasks_json: Option<String>,
}

/// The tags a stored tag text stands for: the list it encodes, or nothing.
pub open spec fn tags_of(tags: Option<String>) -> Seq<Seq<char>> {
    match tags {
        Some(t) => match string_list_of(t@) {
            Some(l) => l,
            None => Seq::empty(),
        },
        None => Seq::empty(),
    }
}

/// The display name: the title when one is set and non-empty, else the
/// first message truncated to 30 characters, else a name derived from the
/// session id.
pub open spec fn display_name_of(
    title: Option<Seq<char>>,
    first: Option<Seq<char>>,
    sid: Seq<char>,
) -> Seq<char> {
    let fallback = match first {
        Some(f) => if f.len() > 30 {
            f.take(30) + "..."@
        } else {
            f
        },
        None => "Session "@ + sid.take(if sid.len() < 8 { sid.len() as int } else { 8 }),
    };
    match title {
        Some(t) => if t.len() > 0 {
            t
        } else {
            fallback
        },
        None => fallback,
    }
}

impl SessionMetadata {
    /// Fresh metadata tying a session to its project: untitled, untagged,
    /// not favorite, not archived, idle.
    pub fn new(session_id: &str, project_id: &str) -> (r: Self)
        ensures
            r.session_id@ == session_id@,
            r.project_id@ == project_id@,
            r.title is None,
            r.tags is None,
            !r.is_favorite,
            !r.is_archived,
            r.last_accessed_at is Some,
            r.status == SessionStatus::Idle,
            r.first_message is None,
            r.tasks_json is None,
    {
        let now = now_timestamp();
        SessionMetadata {
            session_id: session_id.to_owned(),
            project_id: project_id.to_owned(),
            title: None,
            tags: None,
            is_favorite: false,
            is_archived: false,
            last_accessed_at: Some(now),
            created_at: now,
            status: SessionStatus::Idle,
            first_message: None,
            tasks_json: None,
        }
    }

    /// The tags stored for this session; an unreadable tag text counts as
    /// no tags.
    pub fn get_tags(&self) -> (r: Vec<String>)
        ensures
            r.deep_view() == tags_of(self.tags),
    {
        match &self.tags {
            Some(t) => match parse_string_list(t.as_str()) {
                Some(v) => v,
                None => {
                    let empty: Vec<String> = Vec::new();
                    proof {
                        assert(empty.deep_view() =~~= Seq::<Seq<char>>::empty());
                    }
                    empty
                },
            },
            None => {
                let empty: Vec<String> = Vec::new();
                proof {
                    assert(empty.deep_view() =~~= Seq::<Seq<char>>::empty());
                }
                empty
            },
        }
    }

    /// Store `tags` as the session's tag list.
    pub fn set_tags(&mut self, tags: Vec<String>)
        ensures
            final(self).tags matches Some(t) && t@ == string_list_json(tags.deep_view()),
            final(self).session_id == old(self).session_id,
            final(self).project_id == old(self).project_id,
            final(self).title == old(self).title,
            final(self).is_favorite == old(self).is_favorite,
            final(self).is_archived == old(self).is_archived,
            final(self).last_accessed_at == old(self).last_accessed_at,
            final(self).created_at == old(self).created_at,
            final(self).status == old(self).status,
            final(self).first_message == old(self).first_message,
            final(self).tasks_json == old(self).tasks_json,
    {
        self.tags = Some(encode_string_list(&tags));
    }

    /// The tasks stored for this session; an unreadable task text counts as
    /// no tasks.
    pub fn get_tasks(&self) -> (r: Vec<TaskItem>)
        ensures
            ({
                let parsed = match self.tasks_json {
                    Some(ref t) => match task_list_of(t@) {
                        Some(l) => l,
                        None => Seq::empty(),
                    },
                    None => Seq::empty(),
                };
                r@.map_values(|t: TaskItem| (t.content@, t.status@)) == parsed
            }),
    {
        let empty_tasks: Vec<TaskItem> = Vec::new();
        proof {
            assert(empty_tasks@.map_values(|t: TaskItem| (t.content@, t.status@)) =~~= Seq::<
                (Seq<char>, Seq<char>),
            >::empty());
        }
        match &self.tasks_json {
            Some(t) => match parse_task_list(t.as_str()) {
                Some(v) => v,
                None => empty_tasks,
            },
            None => empty_tasks,
        }
    }

    /// Store `tasks` as the session's task list.
    pub fn set_tasks(&mut self, tasks: Vec<TaskItem>)
        ensures
            final(self).tasks_json matches Some(t) && t@ == task_list_json(
                tasks@.map_values(|t: TaskItem| (t.content@, t.status@)),
            ),
            final(self).session_id == old(self).session_id,
            final(self).project_id == old(self).project_id,
            final(self).title == old(self).title,
            final(self).tags == old(self).tags,
            final(self).is_favorite == old(self).is_favorite,
            final(self).is_archived == old(self).is_archived,
            final(self).last_accessed_at == old(self).last_accessed_at,
            final(self).created_at == old(self).created_at,
            final(self).status == old(self).status,
            final(self).first_message == old(self).first_message,
    {
        self.tasks_json = Some(encode_task_list(&tasks));
    }

    /// The name shown for this session: the title, or the first message
    /// truncated to 30 characters, or a name derived from the session id.
    pub fn get_display_name(&self) -> (r: String)
        ensures
            r@ == display_name_of(
                match self.title {
                    Some(t) => Some(t@),
                    None => None,
                },
                match self.first_message {
                    Some(f) => Some(f@),
                    None => None,
                },
                self.session_id@,
            ),
    {
        proof {
            reveal_strlit("...");
            reveal_strlit("Session ");
            assert("..."@ =~= seq!['.', '.', '.']);
        }
        if let Some(title) = &self.title {
            if !title.as_str().is_empty() {
                return title.clone();
            }
        }
        if let Some(first_msg) = &self.first_message {
            let n = first_msg.as_str().unicode_len();
            if n > 30 {
                let mut out = first_msg.as_str().substring_char(0, 30).to_owned();
                out.append("...");
                proof {
                    assert(out@ =~= first_msg@.take(30) + "..."@);
                }
                return out;
            }
            return first_msg.clone();
        }
        let mut out = String::from_str("Session ");
        let n = self.session_id.as_str().unicode_len();
        let k = if n < 8 { n } else { 8 };
        out.append(self.session_id.as_str().substring_char(0, k));
        proof {
            assert(out@ =~= "Session "@ + self.session_id@.take(k as int));
        }
        out
    }
}

/// What a git snapshot stores: the commit (or stash) reference it must
/// restore, as a JSON object.
pub open spec fn git_ghost_metadata(commit_sha: Seq<char>) -> Seq<char> {
    seq!['{', '"', 'c', 'o', 'm', 'm', 'i', 't', '_', 's', 'h', 'a', '"', ':', '"']
        + json_escaped(commit_sha) + seq!['"', '}']
}

/// A snapshot taken before changes are applied, either a git reference or a
/// file backup.
#[derive(Debug, Clone)]
pub struct Snapshot {
    /// Unique identifier.
    pub id: String,
    /// The session this snapshot belongs to.
    pub session_id: String,
    /// Unix timestamp when created.
    pub created_at: i64,
    /// Either a git ghost commit or a file backup.
    pub snapshot_type: String,
    /// JSON-encoded snapshot metadata.
    pub metadata_json: Option<String>,
}

impl Snapshot {
    /// A snapshot standing for a git commit or stash reference.
    pub fn new_git_ghost(session_id: &str, commit_sha: &str) -> (r: Self)
        ensures
            r.session_id@ == session_id@,
            r.snapshot_type@ == "git_ghost"@,
            r.metadata_json matches Some(m) && m@ == git_ghost_metadata(commit_sha@),
            r.id@.len() == 36,
    {
        proof {
            reveal_strlit("{\"commit_sha\":\"");
            reveal_strlit("\"}");
            assert("{\"commit_sha\":\""@ =~= seq![
                '{', '"', 'c', 'o', 'm', 'm', 'i', 't', '_', 's', 'h', 'a', '"', ':', '"',
            ]);
            assert("\"}"@ =~= seq!['"', '}']);
        }
        let mut metadata = String::from_str("{\"commit_sha\":\"");
        append_json_escaped(&mut metadata, commit_sha);
        metadata.append("\"}");
        proof {
            assert(metadata@ =~= git_ghost_metadata(commit_sha@));
        }
        Snapshot {
            id: new_uuid_string(),
            session_id: session_id.to_owned(),
            created_at: now_timestamp(),
            snapshot_type: String::from_str("git_ghost"),
            metadata_json: Some(metadata),
        }
    }

    /// A snapshot carrying a file backup's metadata.
    pub fn new_file_backup(session_id: &str, metadata_json: &str) -> (r: Self)
        ensures
            r.session_id@ == session_id@,
            r.snapshot_type@ == "file_backup"@,
            r.metadata_json matches Some(m) && m@ == metadata_json@,
            r.id@.len() == 36,
    {
        Snapshot {
            id: new_uuid_string(),
            session_id: session_id.to_owned(),
            created_at: now_timestamp(),
            snapshot_type: String::from_str("file_backup"),
            metadata_json: Some(metadata_json.to_owned()),
        }
    }
}

/// Per-project settings stored as JSON.
#[derive(Debug, Clone)]
pub struct ProjectSettings {
    /// Custom working directory, defaulting to the project path.
    pub cwd: Option<String>,
    /// Environment variables to set.
    pub env_vars: Option<Vec<(String, String)>>,
    /// Default model to use.
    pub model: Option<String>,
    /// Default sandbox mode.
    pub sandbox_mode: Option<String>,
    /// Default approval policy.
    pub ask_for_approval: Option<String>,
}

impl Default for ProjectSettings {
    /// Settings with nothing overridden.
    fn default() -> (r: Self)
        ensures
            r.cwd is None,
            r.env_vars is None,
            r.model is None,
            r.sandbox_mode is None,
            r.ask_for_approval is None,
    {
        ProjectSettings {
            cwd: None,
            env_vars: None,
            model: None,
            sandbox_mode: None,
            ask_for_approval: None,
        }
    }
}

} // verus!
