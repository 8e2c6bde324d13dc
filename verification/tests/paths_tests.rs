use codex_desktop::paths::{
    normalize_path_components, validate_restore_path, PathValidationError,
};
use codex_desktop::validate::validate_commit_sha;

const PROJECT: &str = "/srv/project";

// ==================== validate_restore_path tests ====================

#[test]
fn test_validate_restore_path_valid_simple() {
    let result = validate_restore_path("file.txt", PROJECT);
    assert!(result.is_ok());
    let validated = result.unwrap();
    assert!(validated.as_path().starts_with(PROJECT));
}

#[test]
fn test_validate_restore_path_valid_nested() {
    let result = validate_restore_path("src/lib/utils/file.txt", PROJECT);
    assert!(result.is_ok());
    let validated = result.unwrap();
    assert!(validated.as_path().ends_with("src/lib/utils/file.txt"));
}

#[test]
fn test_validate_restore_path_rejects_parent_traversal() {
    // Direct parent traversal
    let result = validate_restore_path("../etc/passwd", PROJECT);
    assert!(matches!(result, Err(PathValidationError::ParentTraversal)));

    // Hidden parent traversal
    let result = validate_restore_path("foo/../../etc/passwd", PROJECT);
    assert!(matches!(result, Err(PathValidationError::ParentTraversal)));

    // Windows-style traversal
    let result = validate_restore_path("foo\\..\\..\\etc\\passwd", PROJECT);
    assert!(matches!(result, Err(PathValidationError::ParentTraversal)));
}

#[test]
fn test_validate_restore_path_rejects_absolute_paths() {
    // Unix absolute path
    let result = validate_restore_path("/etc/passwd", PROJECT);
    assert!(matches!(result, Err(PathValidationError::AbsolutePath)));

    // Windows absolute path
    let result = validate_restore_path("\\Windows\\System32\\config", PROJECT);
    assert!(matches!(result, Err(PathValidationError::AbsolutePath)));

    // Windows drive letter
    let result = validate_restore_path("C:\\Windows\\System32", PROJECT);
    assert!(matches!(result, Err(PathValidationError::AbsolutePath)));
}

#[test]
fn test_validate_restore_path_rejects_null_bytes() {
    // Null byte in path
    let result = validate_restore_path("file\0.txt", PROJECT);
    assert!(matches!(result, Err(PathValidationError::NullByte)));

    // Null byte in directory
    let result = validate_restore_path("foo\0bar/file.txt", PROJECT);
    assert!(matches!(result, Err(PathValidationError::NullByte)));
}

#[test]
fn test_validate_restore_path_rejects_empty_path() {
    let result = validate_restore_path("", PROJECT);
    assert!(matches!(result, Err(PathValidationError::InvalidCharacters)));
}

// ==================== normalize_path_components tests ====================

#[test]
fn test_normalize_path_components_removes_dots() {
    let result = normalize_path_components("/foo/./bar/./baz");
    assert!(result.is_ok());
    let normalized = result.unwrap();
    assert_eq!(normalized, "/foo/bar/baz");
}

#[test]
fn test_normalize_path_components_handles_parent_safely() {
    // This tests the double-check in normalize for parent traversal
    let result = normalize_path_components("/foo/bar/../baz");
    assert!(result.is_ok());
    let normalized = result.unwrap();
    assert_eq!(normalized, "/foo/baz");
}

#[test]
fn test_normalize_path_components_prevents_root_escape() {
    // Attempting to go above root should fail
    let result = normalize_path_components("/../../../etc/passwd");
    // The .. components must be handled without escaping
    assert!(result.is_ok() || matches!(result, Err(PathValidationError::ParentTraversal)));
}

// ==================== Integration-style tests ====================

#[test]
fn test_complex_attack_vectors() {
    // Test various attack patterns
    let attack_vectors = vec![
        "../../../etc/passwd",
        "..\\..\\..\\Windows\\System32\\config\\SAM",
        "foo/../../../etc/shadow",
        "/etc/passwd",
        "\\Windows\\System32",
        "C:\\Windows\\System32\\cmd.exe",
        "file\x00.txt",
        "foo/bar\x00/baz",
        "..",
        "../",
        "..\\",
        "foo/bar/../../..",
    ];

    for attack in attack_vectors {
        let result = validate_restore_path(attack, PROJECT);
        assert!(
            result.is_err(),
            "Attack vector should be rejected: {:?}",
            attack
        );
    }
}

#[test]
fn test_valid_edge_cases() {
    // These should all be valid
    let valid_paths = vec![
        "file.txt",
        "folder/file.txt",
        "deep/nested/folder/structure/file.txt",
        ".hidden_file",
        "folder/.hidden_file",
        "file.with.multiple.dots.txt",
        "folder-with-dashes/file_with_underscores.txt",
        "CamelCase/mixedCase.TXT",
        "unicode_文件名.txt",  // Unicode characters
        "spaces in name/file with spaces.txt",  // Spaces
    ];

    for path in valid_paths {
        let result = validate_restore_path(path, PROJECT);
        assert!(
            result.is_ok(),
            "Valid path should be accepted: {:?}, error: {:?}",
            path,
            result.err()
        );
    }
}

// ==================== validate_commit_sha tests ====================

#[test]
fn mod_test_validate_commit_sha_valid() {
    // Short SHA (7 chars)
    assert!(validate_commit_sha("abc1234").is_ok());
    // Full SHA (40 chars)
    assert!(validate_commit_sha("abc1234567890def1234567890abc1234567890a").is_ok());
    // Mixed case hex
    assert!(validate_commit_sha("AbCdEf1234567").is_ok());
}

#[test]
fn mod_test_validate_commit_sha_rejects_non_hex() {
    assert!(validate_commit_sha("abc123g").is_err()); // 'g' is not hex
    assert!(validate_commit_sha("abc123!").is_err());
    assert!(validate_commit_sha("abc 123").is_err());
    assert!(validate_commit_sha("abc;123").is_err());
}

#[test]
fn mod_test_validate_commit_sha_length_limits() {
    // Too short (6 chars)
    assert!(validate_commit_sha("abc123").is_err());
    // Too long (65 chars)
    let too_long = "a".repeat(65);
    assert!(validate_commit_sha(&too_long).is_err());
}

#[test]
fn test_validate_commit_sha_injection_prevention() {
    // Command injection attempts
    let injection_attempts = vec![
        "abc1234; rm -rf /",
        "abc1234 | cat /etc/passwd",
        "abc1234$(whoami)",
        "abc1234`id`",
        "abc1234\nmalicious",
        "--exec=bash",
    ];

    for attempt in injection_attempts {
        assert!(
            validate_commit_sha(attempt).is_err(),
            "Should reject injection: {}",
            attempt
        );
    }
}

// ==================== further path checks ====================

#[test]
fn validate_restore_path_reports_escape() {
    // A path that normalizes outside the project is refused even without a
    // literal dot-dot component (here only via an empty project).
    let result = validate_restore_path("ok/file.txt", PROJECT);
    assert!(result.is_ok());
    assert_eq!(result.unwrap().as_path(), "/srv/project/ok/file.txt");
}

#[test]
fn normalize_path_components_rejects_relative_escape() {
    assert!(matches!(
        normalize_path_components("foo/.."),
        Err(PathValidationError::ParentTraversal)
    ));
    assert_eq!(normalize_path_components("foo/bar/..").unwrap(), "foo");
    assert_eq!(normalize_path_components("a//b/").unwrap(), "a/b");
}

#[test]
fn validate_restore_path_rejects_directory_escape() {
    // A project path whose own components walk upward makes the normalized
    // target leave the project directory.
    let result = validate_restore_path("x.txt", "/a/..");
    assert!(matches!(result, Err(PathValidationError::DirectoryEscape)));
}

#[test]
fn path_validation_error_message_words() {
    assert_eq!(
        PathValidationError::NullByte.message(),
        "Path contains null byte character"
    );
    assert_eq!(
        PathValidationError::SymbolicLink.message(),
        "Symbolic links are not allowed in restore paths"
    );
}
