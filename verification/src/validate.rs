//! Validation of identifiers and arguments handed to git and the engine.
//!
//! Each validator states exactly which inputs it accepts, so callers can rely
//! on the checked strings being free of shell metacharacters and injection
//! patterns.

use vstd::prelude::*;
use vstd::string::StrSliceExecFns;
use vstd::string::StringSliceAdditionalSpecFns;

use crate::errors::Error;
use crate::strutil::{
    all_ascii_hex, ascii_alnum, has_prefix, has_substring, has_suffix, is_ascii_alnum_char,
    is_ascii_hex_char, str_contains, str_ends_with, str_eq, str_starts_with,
};

verus! {

/// A Unicode letter or digit, as `char::is_alphanumeric` decides it.
pub uninterp spec fn is_unicode_alphanumeric(c: char) -> bool;

/// Relies on `char::is_alphanumeric`: a Unicode letter-or-digit test whose
/// outcome depends on the character alone.
#[verifier::external_body]
fn unicode_alphanumeric(c: char) -> (r: bool)
    ensures
        r == is_unicode_alphanumeric(c),
{
    c.is_alphanumeric()
}

/// A character allowed in an identifier.
pub open spec fn id_char_ok(c: char) -> bool {
    is_unicode_alphanumeric(c) || c == '-' || c == '_'
}

/// An identifier the library accepts: non-empty, at most 256 bytes,
/// alphanumeric plus `-` and `_`.
pub open spec fn valid_id(id: &str) -> bool {
    &&& id@.len() >= 1
    &&& id.spec_bytes().len() <= 256
    &&& forall|j: int| 0 <= j < id@.len() ==> id_char_ok(#[trigger] id@[j])
}

/// Validate an identifier parameter (project id, session id, thread id).
///
/// Accepts exactly the non-empty strings of at most 256 bytes whose
/// characters are alphanumeric, `-` or `_`.
pub fn validate_id(id: &str, field_name: &str) -> (r: Result<(), Error>)
    ensures
        r is Ok <==> valid_id(id),
        r matches Err(e) ==> e is Other,
{
    if id.as_bytes().len() > 256 {
        let mut m = field_name.to_owned();
        m.append(" exceeds maximum length of 256 characters");
        return Err(Error::Other(m));
    }
    if id.is_empty() {
        let mut m = field_name.to_owned();
        m.append(" cannot be empty");
        return Err(Error::Other(m));
    }
    let n = id.unicode_len();
    let mut i: usize = 0;
    while i < n
        invariant
            n == id@.len(),
            0 <= i <= n,
            forall|j: int| 0 <= j < i ==> id_char_ok(#[trigger] id@[j]),
        decreases n - i,
    {
        let c = id.get_char(i);
        if !(unicode_alphanumeric(c) || c == '-' || c == '_') {
            let mut m = field_name.to_owned();
            m.append(" contains invalid characters (only alphanumeric, -, _ allowed)");
            return Err(Error::Other(m));
        }
        i += 1;
    }
    Ok(())
}

/// A shell metacharacter or control character that is never allowed in a
/// command argument.
pub open spec fn arg_dangerous_char(c: char) -> bool {
    c == '\n' || c == '\r' || c == '\0' || c == '|' || c == '&' || c == ';' || c == '$'
        || c == '`' || c == '(' || c == ')' || c == '<' || c == '>' || c == '\\'
}

fn is_arg_dangerous(c: char) -> (r: bool)
    ensures
        r == arg_dangerous_char(c),
{
    c == '\n' || c == '\r' || c == '\0' || c == '|' || c == '&' || c == ';' || c == '$'
        || c == '`' || c == '(' || c == ')' || c == '<' || c == '>' || c == '\\'
}

/// A string safe to pass as a command argument: free of shell
/// metacharacters and not a `--` flag (the bare `--` separator is allowed).
pub open spec fn arg_safe(s: Seq<char>) -> bool {
    &&& forall|j: int| 0 <= j < s.len() ==> !arg_dangerous_char(#[trigger] s[j])
    &&& !(has_prefix(s, seq!['-', '-']) && s != seq!['-', '-'])
}

/// Validate that a string is safe to use as a command argument.
///
/// Accepts exactly the strings without shell metacharacters that do not
/// start with `--` (except the bare `--` separator itself).
pub fn validate_arg_safe(arg: &str) -> (r: Result<(), Error>)
    ensures
        r is Ok <==> arg_safe(arg@),
        r matches Err(e) ==> e is Other,
{
    proof {
        reveal_strlit("--");
        assert("--"@ =~= seq!['-', '-']);
    }
    let n = arg.unicode_len();
    let mut i: usize = 0;
    while i < n
        invariant
            n == arg@.len(),
            0 <= i <= n,
            forall|j: int| 0 <= j < i ==> !arg_dangerous_char(#[trigger] arg@[j]),
        decreases n - i,
    {
        if is_arg_dangerous(arg.get_char(i)) {
            return Err(Error::Other(
                String::from_str("Invalid argument: contains unsafe character"),
            ));
        }
        i += 1;
    }
    if str_starts_with(arg, "--") && !str_eq(arg, "--") {
        return Err(Error::Other(
            String::from_str("Invalid argument: potentially unsafe flag"),
        ));
    }
    Ok(())
}

/// A character allowed in a git branch name.
pub open spec fn branch_char_ok(c: char) -> bool {
    is_ascii_alnum_char(c) || c == '_' || c == '-' || c == '.' || c == '/'
}

/// A branch name the library accepts: non-empty, at most 256 bytes, safe
/// characters only, no leading `-` or `.`, no `..`, no `.lock` suffix.
pub open spec fn valid_branch_name(b: &str) -> bool {
    &&& b@.len() >= 1
    &&& b.spec_bytes().len() <= 256
    &&& forall|j: int| 0 <= j < b@.len() ==> branch_char_ok(#[trigger] b@[j])
    &&& b@.len() > 0 ==> (b@[0] != '-' && b@[0] != '.')
    &&& !has_substring(b@, seq!['.', '.'])
    &&& !has_suffix(b@, seq!['.', 'l', 'o', 'c', 'k'])
}

/// Validate a git branch name against a strict allowlist, preventing
/// command injection through branch arguments.
pub fn validate_branch_name(branch: &str) -> (r: Result<(), Error>)
    ensures
        r is Ok <==> valid_branch_name(branch),
        r matches Err(e) ==> e is Other,
{
    proof {
        reveal_strlit("..");
        assert(".."@ =~= seq!['.', '.']);
        reveal_strlit(".lock");
        assert(".lock"@ =~= seq!['.', 'l', 'o', 'c', 'k']);
    }
    if branch.is_empty() {
        return Err(Error::Other(String::from_str("Branch name cannot be empty")));
    }
    if branch.as_bytes().len() > 256 {
        return Err(Error::Other(
            String::from_str("Branch name exceeds maximum length of 256 characters"),
        ));
    }
    let n = branch.unicode_len();
    let mut i: usize = 0;
    while i < n
        invariant
            n == branch@.len(),
            0 <= i <= n,
            forall|j: int| 0 <= j < i ==> branch_char_ok(#[trigger] branch@[j]),
        decreases n - i,
    {
        let c = branch.get_char(i);
        if !(ascii_alnum(c) || c == '_' || c == '-' || c == '.' || c == '/') {
            return Err(Error::Other(
                String::from_str(
                    "Branch name contains invalid characters (only alphanumeric, _, -, ., / allowed)",
                ),
            ));
        }
        i += 1;
    }
    let first = branch.get_char(0);
    if first == '-' || first == '.' {
        return Err(Error::Other(
            String::from_str("Branch name cannot start with '-' or '.'"),
        ));
    }
    if str_contains(branch, "..") {
        return Err(Error::Other(String::from_str("Branch name cannot contain '..'")));
    }
    if str_ends_with(branch, ".lock") {
        return Err(Error::Other(String::from_str("Branch name cannot end with '.lock'")));
    }
    Ok(())
}

/// A commit hash the library accepts: hexadecimal, 7 to 64 bytes.
pub open spec fn valid_commit_sha(sha: &str) -> bool {
    &&& forall|j: int| 0 <= j < sha@.len() ==> is_ascii_hex_char(#[trigger] sha@[j])
    &&& 7 <= sha.spec_bytes().len() <= 64
}

/// Validate a git commit hash (hexadecimal string of 7 to 64 characters).
pub fn validate_commit_sha(sha: &str) -> (r: Result<(), Error>)
    ensures
        r is Ok <==> valid_commit_sha(sha),
        r matches Err(e) ==> e is Other,
{
    if !all_ascii_hex(sha) {
        return Err(Error::Other(
            String::from_str("Invalid commit SHA: contains non-hexadecimal characters"),
        ));
    }
    if sha.as_bytes().len() < 7 || sha.as_bytes().len() > 64 {
        return Err(Error::Other(
            String::from_str("Invalid commit SHA: length must be between 7 and 64 characters"),
        ));
    }
    Ok(())
}

/// A path safe to hand to git: non-empty, no NUL byte, argument-safe.
pub open spec fn valid_git_file_path(path: &str) -> bool {
    &&& path@.len() >= 1
    &&& !path@.contains('\0')
    &&& arg_safe(path@)
}

/// Validate a file path argument for git commands.
pub fn validate_git_file_path(path: &str) -> (r: Result<(), Error>)
    ensures
        r is Ok <==> valid_git_file_path(path),
        r matches Err(e) ==> e is Other,
{
    if path.is_empty() {
        return Err(Error::Other(String::from_str("File path cannot be empty")));
    }
    if crate::strutil::contains_char(path, '\0') {
        return Err(Error::Other(String::from_str("File path cannot contain null bytes")));
    }
    match validate_arg_safe(path) {
        Ok(()) => Ok(()),
        Err(e) => Err(e),
    }
}

/// Validate and sanitize a numeric limit parameter.
///
/// Accepts exactly the limits between 1 and 1000 and returns them unchanged.
pub fn validate_limit(limit: u32) -> (r: Result<u32, Error>)
    ensures
        r is Ok <==> 1 <= limit <= 1000,
        r matches Ok(v) ==> v == limit,
        r matches Err(e) ==> e is Other,
{
    if limit == 0 {
        return Err(Error::Other(String::from_str("Limit must be greater than 0")));
    }
    if limit > 1000 {
        return Err(Error::Other(String::from_str("Limit exceeds maximum of 1000")));
    }
    Ok(limit)
}

} // verus!
