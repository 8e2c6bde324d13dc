use codex_desktop::codex_import::{
    extract_user_text, is_session_file_name, search_sessions as search_summaries,
    session_summary_from_events, CodexSessionMeta, CodexSessionSummary, GitInfo, SessionEvent,
};
use codex_desktop::errors::{CodexErrorInfo, CodexErrorType};
use codex_desktop::images::{decode_data_url, parse_data_url};
use codex_desktop::ipc::default_network_access;
use codex_desktop::models::{file_name, Project, SessionMetadata, SessionStatus, Snapshot, TaskItem};
use codex_desktop::projects::{
    fuzzy_match, is_hidden_skipped, is_ignored_dir, parse_git_branches, parse_git_commit_line,
    parse_git_commits, sort_file_entries, FileEntry,
};
use codex_desktop::sessions::{apply_session_update, calculate_relevance_score, search_sessions};
use codex_desktop::strutil::u64_to_dec;

fn meta(id: &str, cwd: &str) -> CodexSessionMeta {
    CodexSessionMeta {
        id: id.to_string(),
        timestamp: "2024-01-01T00:00:00Z".to_string(),
        cwd: cwd.to_string(),
        originator: String::new(),
        cli_version: "0.1".to_string(),
        instructions: String::new(),
        source: String::new(),
        model_provider: String::new(),
        git: Some(GitInfo { commit_hash: Some("abc1234".to_string()), branch: Some("main".to_string()) }),
    }
}

fn session(id: &str, title: Option<&str>, first: Option<&str>, fav: bool, t: i64) -> SessionMetadata {
    let mut s = SessionMetadata::new(id, "proj");
    s.title = title.map(|x| x.to_string());
    s.first_message = first.map(|x| x.to_string());
    s.is_favorite = fav;
    s.last_accessed_at = Some(t);
    s
}

// ==================== strings and numbers ====================

#[test]
fn u64_to_dec_renders_decimal() {
    assert_eq!(u64_to_dec(0), "0");
    assert_eq!(u64_to_dec(7), "7");
    assert_eq!(u64_to_dec(1234567890), "1234567890");
    assert_eq!(u64_to_dec(u64::MAX), "18446744073709551615");
}

// ==================== fuzzy matching ====================

#[test]
fn fuzzy_match_finds_subsequences() {
    assert!(fuzzy_match("main.rs", "mrs"));
    assert!(fuzzy_match("main.rs", ""));
    assert!(fuzzy_match("abc", "abc"));
    assert!(!fuzzy_match("abc", "acb"));
    assert!(!fuzzy_match("", "a"));
}

// ==================== listing rules ====================

#[test]
fn listing_skips_ignored_and_hidden() {
    assert!(is_ignored_dir("node_modules"));
    assert!(is_ignored_dir(".git"));
    assert!(!is_ignored_dir("src"));
    assert!(is_hidden_skipped(".secret"));
    assert!(!is_hidden_skipped(".gitignore"));
    assert!(!is_hidden_skipped("plain.txt"));
}

#[test]
fn file_entries_sort_directories_first() {
    let entries = vec![
        FileEntry { path: "b.txt".to_string(), name: "b.txt".to_string(), is_dir: false },
        FileEntry { path: "src".to_string(), name: "src".to_string(), is_dir: true },
        FileEntry { path: "a.txt".to_string(), name: "a.txt".to_string(), is_dir: false },
        FileEntry { path: "docs".to_string(), name: "docs".to_string(), is_dir: true },
    ];
    let sorted = sort_file_entries(entries);
    let paths: Vec<&str> = sorted.iter().map(|e| e.path.as_str()).collect();
    assert_eq!(paths, vec!["docs", "src", "a.txt", "b.txt"]);
}

// ==================== git output parsing ====================

#[test]
fn commit_lines_parse_into_fields() {
    let c = parse_git_commit_line("abc123|abc|Fix bug|Ann|2 days ago").unwrap();
    assert_eq!(c.sha, "abc123");
    assert_eq!(c.short_sha, "abc");
    assert_eq!(c.title, "Fix bug");
    assert_eq!(c.author, "Ann");
    assert_eq!(c.date, "2 days ago");
    assert!(parse_git_commit_line("too|few|fields").is_none());

    // The date keeps any further separators.
    let c = parse_git_commit_line("s|ss|t|a|then|more").unwrap();
    assert_eq!(c.date, "then|more");

    let all = parse_git_commits("a|b|c|d|e\nbad line\nf|g|h|i|j\n");
    assert_eq!(all.len(), 2);
    assert_eq!(all[0].sha, "a");
    assert_eq!(all[1].sha, "f");
}

#[test]
fn branch_listing_dedups_and_sorts() {
    let out = "* main\n  origin/main\n  feature/x\n  origin/HEAD\n  dev\n";
    let branches = parse_git_branches(out);
    let names: Vec<(&str, bool)> =
        branches.iter().map(|b| (b.name.as_str(), b.is_current)).collect();
    assert_eq!(names, vec![("main", true), ("dev", false), ("feature/x", false)]);
}

// ==================== models ====================

#[test]
fn project_new_takes_folder_name() {
    let p = Project::new("/home/u/work/myproj");
    assert_eq!(p.path, "/home/u/work/myproj");
    assert_eq!(p.display_name.as_deref(), Some("myproj"));
    assert_eq!(p.id.len(), 36);
    assert!(p.last_opened_at.is_none());
    assert_eq!(file_name("/a/b/"), Some("b".to_string()));
    assert_eq!(file_name("/"), None);
}

#[test]
fn session_status_words_round_trip() {
    assert_eq!(SessionStatus::Idle.as_str(), "idle");
    assert_eq!(SessionStatus::from_str("RUNNING"), SessionStatus::Running);
    assert_eq!(SessionStatus::from_str("completed"), SessionStatus::Completed);
    assert_eq!(SessionStatus::from_str("nonsense"), SessionStatus::Idle);
    for st in [
        SessionStatus::Idle,
        SessionStatus::Running,
        SessionStatus::Completed,
        SessionStatus::Failed,
        SessionStatus::Interrupted,
    ] {
        assert_eq!(SessionStatus::from_str(st.as_str()), st);
    }
}

#[test]
fn display_name_prefers_title_then_message() {
    let mut s = SessionMetadata::new("abcdef0123456789", "p");
    assert_eq!(s.get_display_name(), "Session abcdef01");
    s.first_message = Some("Fix the flaky test in the scheduler module".to_string());
    assert_eq!(s.get_display_name(), "Fix the flaky test in the sche...");
    s.title = Some("My session".to_string());
    assert_eq!(s.get_display_name(), "My session");
}

#[test]
fn tags_round_trip_through_json() {
    let mut s = SessionMetadata::new("sid", "pid");
    assert!(s.get_tags().is_empty());
    s.set_tags(vec!["alpha".to_string(), "beta".to_string()]);
    assert_eq!(s.get_tags(), vec!["alpha".to_string(), "beta".to_string()]);
}

#[test]
fn tasks_round_trip_through_json() {
    let mut s = SessionMetadata::new("sid", "pid");
    assert!(s.get_tasks().is_empty());
    s.set_tasks(vec![
        TaskItem { content: "write \"docs\"".to_string(), status: "pending".to_string() },
        TaskItem { content: "ship".to_string(), status: "completed".to_string() },
    ]);
    assert_eq!(
        s.tasks_json.as_deref(),
        Some(
            "[{\"content\":\"write \\\"docs\\\"\",\"status\":\"pending\"},{\"content\":\"ship\",\"status\":\"completed\"}]"
        )
    );
    let tasks = s.get_tasks();
    assert_eq!(tasks.len(), 2);
    assert_eq!(tasks[0].content, "write \"docs\"");
    assert_eq!(tasks[1].status, "completed");
}

#[test]
fn session_update_merges_fields() {
    let mut m = SessionMetadata::new("sid", "pid");
    m.first_message = Some("kept".to_string());
    apply_session_update(
        &mut m,
        Some("other".to_string()),  // ignored: a project id is already set
        Some("new title".to_string()),
        Some(vec!["t1".to_string()]),
        Some(true),
        None,
        Some("running".to_string()),
        Some("ignored".to_string()),  // ignored: a first message is already set
        None,
    );
    assert_eq!(m.project_id, "pid");
    assert_eq!(m.title.as_deref(), Some("new title"));
    assert_eq!(m.get_tags(), vec!["t1".to_string()]);
    assert!(m.is_favorite);
    assert!(!m.is_archived);
    assert_eq!(m.status, SessionStatus::Running);
    assert_eq!(m.first_message.as_deref(), Some("kept"));
}

#[test]
fn snapshots_carry_their_kind() {
    let g = Snapshot::new_git_ghost("sid", "abc1234");
    assert_eq!(g.snapshot_type, "git_ghost");
    assert_eq!(g.metadata_json.as_deref(), Some("{\"commit_sha\":\"abc1234\"}"));
    let f = Snapshot::new_file_backup("sid", "{\"files\":{}}");
    assert_eq!(f.snapshot_type, "file_backup");
    assert_eq!(f.metadata_json.as_deref(), Some("{\"files\":{}}"));
}

#[test]
fn error_types_parse_from_wire_words() {
    let e = CodexErrorInfo::from_type_string("usage_limit_exceeded", Some(429));
    assert_eq!(e.error_type, CodexErrorType::UsageLimitExceeded);
    assert_eq!(e.http_status_code, Some(429));
    let e = CodexErrorInfo::from_type_string("whatever", None);
    assert_eq!(e.error_type, CodexErrorType::Other);
    assert_eq!(CodexErrorType::SandboxError.as_str(), "sandbox_error");
    let e = CodexErrorInfo::new(CodexErrorType::BadRequest);
    assert!(e.http_status_code.is_none());
    let e = CodexErrorInfo::with_status(CodexErrorType::Unauthorized, 401);
    assert_eq!(e.http_status_code, Some(401));
}

#[test]
fn default_network_access_is_restricted() {
    assert_eq!(default_network_access(), "restricted");
}

// ==================== relevance scoring and search ====================

#[test]
fn relevance_score_weighs_fields() {
    let s = session("sid-1", Some("Deploy"), Some("deploy the app"), true, 10);
    // exact title (100) + first-message prefix (45) + favorite (5)
    assert_eq!(calculate_relevance_score(&s, "deploy"), 150);

    let s = session("sid-2", Some("My deploy notes"), None, false, 10);
    // title contains (60)
    assert_eq!(calculate_relevance_score(&s, "deploy"), 60);

    let mut s = session("sid-3", None, None, false, 10);
    s.set_tags(vec!["deploy".to_string(), "infra-deploy".to_string()]);
    // exact tag (35) + tag contains (30)
    assert_eq!(calculate_relevance_score(&s, "deploy"), 65);

    let s = session("xyz-deploy-7", None, None, false, 10);
    // session id contains (10)
    assert_eq!(calculate_relevance_score(&s, "deploy"), 10);
}

#[test]
fn search_sessions_ranks_by_score_then_recency() {
    let a = session("a", Some("deploy"), None, false, 5);  // exact title: 100
    let b = session("b", Some("deploy scripts"), None, false, 9);  // prefix: 80
    let c = session("c", Some("deploy scripts"), None, false, 20);  // prefix: 80, newer
    let d = session("d", Some("unrelated"), None, false, 50);  // no match
    let r = search_sessions(vec![a, b, c, d], "DEPLOY", None, None);
    let ids: Vec<&str> = r.iter().map(|s| s.session_id.as_str()).collect();
    assert_eq!(ids, vec!["a", "c", "b"]);
}

#[test]
fn search_sessions_applies_filters() {
    let mut a = session("a", Some("deploy"), None, false, 5);
    a.set_tags(vec!["infra".to_string()]);
    let b = session("b", Some("deploy"), None, true, 5);
    let r = search_sessions(
        vec![a.clone(), b.clone()],
        "deploy",
        Some(vec!["infra".to_string()]),
        None,
    );
    assert_eq!(r.len(), 1);
    assert_eq!(r[0].session_id, "a");
    let r = search_sessions(vec![a, b], "deploy", None, Some(true));
    assert_eq!(r.len(), 1);
    assert_eq!(r[0].session_id, "b");
}

// ==================== session import ====================

#[test]
fn session_file_names_are_recognized() {
    assert!(is_session_file_name("rollout-2024-01-01T00-00-00-abcd.jsonl"));
    assert!(!is_session_file_name("notes.jsonl"));
    assert!(!is_session_file_name("rollout-2024.txt"));
}

#[test]
fn extract_user_text_skips_injected_blocks() {
    let texts = vec![
        "<user_instructions>be nice</user_instructions>".to_string(),
        "<environment_context>x</environment_context>".to_string(),
        "please fix the bug".to_string(),
    ];
    assert_eq!(extract_user_text(&texts), Some("please fix the bug".to_string()));
    let long = "y".repeat(250);
    let texts = vec![long.clone()];
    assert_eq!(extract_user_text(&texts), Some(format!("{}...", "y".repeat(200))));
    assert_eq!(extract_user_text(&vec![]), None);
}

#[test]
fn summary_folds_meta_count_and_first_message() {
    let events = vec![
        SessionEvent::Meta { meta: meta("sess-1", "/home/u/proj") },
        SessionEvent::Item {
            timestamp: "t1".to_string(),
            item_type: "message".to_string(),
            role: Some("user".to_string()),
            texts: vec!["<user_instructions>i</user_instructions>".to_string(), "hello there".to_string()],
            content: "[]".to_string(),
        },
        SessionEvent::Other,
        SessionEvent::Item {
            timestamp: "t2".to_string(),
            item_type: "message".to_string(),
            role: Some("assistant".to_string()),
            texts: vec!["hi".to_string()],
            content: "[]".to_string(),
        },
    ];
    let s = session_summary_from_events(events, "/tmp/f.jsonl".to_string(), 123).unwrap();
    assert_eq!(s.id, "sess-1");
    assert_eq!(s.project_name, "proj");
    assert_eq!(s.message_count, 2);
    assert_eq!(s.first_message.as_deref(), Some("hello there"));
    assert_eq!(s.git_branch.as_deref(), Some("main"));
    assert_eq!(s.git_commit.as_deref(), Some("abc1234"));
    assert_eq!(s.file_size, 123);

    let r = session_summary_from_events(vec![SessionEvent::Other], "f".to_string(), 0);
    assert!(r.is_err());
}

fn summary(id: &str, project: &str, first: Option<&str>, branch: Option<&str>) -> CodexSessionSummary {
    CodexSessionSummary {
        id: id.to_string(),
        file_path: "/x".to_string(),
        timestamp: "t".to_string(),
        cwd: format!("/home/u/{}", project),
        project_name: project.to_string(),
        cli_version: "0.1".to_string(),
        git_branch: branch.map(|b| b.to_string()),
        git_commit: None,
        first_message: first.map(|m| m.to_string()),
        message_count: 1,
        file_size: 10,
    }
}

#[test]
fn summary_search_matches_fields_case_insensitively() {
    let all = vec![
        summary("1", "WebApp", None, None),
        summary("2", "tools", Some("fix the WEBapp build"), None),
        summary("3", "other", None, Some("webapp-hotfix")),
        summary("4", "unrelated", None, None),
    ];
    let hits = search_summaries(all, "webapp", 10);
    let ids: Vec<&str> = hits.iter().map(|s| s.id.as_str()).collect();
    assert_eq!(ids, vec!["1", "2", "3"]);

    let all = vec![
        summary("1", "WebApp", None, None),
        summary("2", "webapp2", None, None),
    ];
    let hits = search_summaries(all, "webapp", 1);
    assert_eq!(hits.len(), 1);
    assert_eq!(hits[0].id, "1");
}

// ==================== data URLs ====================

#[test]
fn data_urls_split_and_decode() {
    let (ext, payload) = parse_data_url("data:image/png;base64,aGk=").unwrap();
    assert_eq!(ext, "png");
    assert_eq!(payload, "aGk=");
    let (ext, bytes) = decode_data_url("data:image/jpeg;base64,aGk=").unwrap();
    assert_eq!(ext, "jpg");
    assert_eq!(bytes, b"hi".to_vec());
    assert!(parse_data_url("no comma here").is_err());
    assert!(decode_data_url("data:image/png;base64,!!!").is_err());
}
