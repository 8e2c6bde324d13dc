//! Safe handling of relative paths restored from snapshots.
//!
//! A restore path from snapshot metadata is untrusted: it must stay inside
//! the project directory. Validation is pure text processing here — the
//! caller performs the file-system checks (symbolic links) that no string
//! can decide.

use vstd::prelude::*;
use vstd::seq_lib::*;
use vstd::string::StrSliceExecFns;

use crate::strutil::contains_char;
use crate::strutil::str_eq;
use crate::strutil::{split_char, split_char_exec, str_views};

verus! {

/// Why a restore path was rejected.
#[derive(Debug, Clone, Copy, PartialEq, Eq, Structural)]
pub enum PathValidationError {
    /// The path contains a NUL byte.
    NullByte,
    /// The path walks up through a `..` component.
    ParentTraversal,
    /// The path is absolute.
    AbsolutePath,
    /// The path would land outside the project directory.
    DirectoryEscape,
    /// A symbolic link stands on the path.
    SymbolicLink,
    /// The path is empty or otherwise unusable.
    InvalidCharacters,
}

/// The wording for each rejection.
pub open spec fn message_spec(e: PathValidationError) -> Seq<char> {
    match e {
        PathValidationError::NullByte => "Path contains null byte character"@,
        PathValidationError::ParentTraversal => "Path contains parent directory traversal (..)"@,
        PathValidationError::AbsolutePath => "Path must be relative, not absolute"@,
        PathValidationError::DirectoryEscape => "Path would escape the project directory"@,
        PathValidationError::SymbolicLink => "Symbolic links are not allowed in restore paths"@,
        PathValidationError::InvalidCharacters => "Path contains invalid characters"@,
    }
}

impl PathValidationError {
    /// A human-readable description of the rejection.
    pub fn message(&self) -> (r: &'static str)
        ensures
            r@ == message_spec(*self),
    {
        match self {
            PathValidationError::NullByte => "Path contains null byte character",
            PathValidationError::ParentTraversal => "Path contains parent directory traversal (..)",
            PathValidationError::AbsolutePath => "Path must be relative, not absolute",
            PathValidationError::DirectoryEscape => "Path would escape the project directory",
            PathValidationError::SymbolicLink => "Symbolic links are not allowed in restore paths",
            PathValidationError::InvalidCharacters => "Path contains invalid characters",
        }
    }
}

/// The character views of a list of strings.
pub open spec fn views(s: Seq<String>) -> Seq<Seq<char>> {
    str_views(s)
}

/// A path split on `/`, empty pieces kept.
pub open spec fn split_slash(s: Seq<char>) -> Seq<Seq<char>> {
    split_char(s, '/')
}

/// One pass of path normalization: empty and `.` components are dropped, a
/// `..` pops the previous component where one can be popped, and any other
/// component is kept. Popping fails at the root, or when nothing precedes
/// the `..` that could be popped.
pub open spec fn fold_components(
    parts: Seq<Seq<char>>,
    has_root: bool,
    acc: Seq<Seq<char>>,
) -> Result<Seq<Seq<char>>, PathValidationError>
    decreases parts.len(),
{
    if parts.len() == 0 {
        Ok(acc)
    } else {
        let p = parts[0];
        if p.len() == 0 || p == seq!['.'] {
            fold_components(parts.skip(1), has_root, acc)
        } else if p == seq!['.', '.'] {
            if acc.len() >= 1 && (has_root || acc.len() > 1) {
                fold_components(parts.skip(1), has_root, acc.drop_last())
            } else {
                Err(PathValidationError::ParentTraversal)
            }
        } else if p.contains('\0') {
            Err(PathValidationError::NullByte)
        } else {
            fold_components(parts.skip(1), has_root, acc.push(p))
        }
    }
}

/// Components joined with `/`.
pub open spec fn join_slash(parts: Seq<Seq<char>>) -> Seq<char>
    decreases parts.len(),
{
    if parts.len() == 0 {
        Seq::empty()
    } else if parts.len() == 1 {
        parts[0]
    } else {
        join_slash(parts.drop_last()) + seq!['/'] + parts.last()
    }
}

/// A normalized path rendered back to text.
pub open spec fn render_path(has_root: bool, comps: Seq<Seq<char>>) -> Seq<char> {
    if has_root {
        seq!['/'] + join_slash(comps)
    } else {
        join_slash(comps)
    }
}

/// What normalizing a path yields: its normalized text, or the rejection.
pub open spec fn spec_normalize_path(s: Seq<char>) -> Result<Seq<char>, PathValidationError> {
    let has_root = s.len() > 0 && s[0] == '/';
    match fold_components(split_slash(s), has_root, Seq::empty()) {
        Ok(comps) => Ok(render_path(has_root, comps)),
        Err(e) => Err(e),
    }
}

pub(crate) fn split_slash_exec(s: &str) -> (r: Vec<String>)
    ensures
        views(r@) == split_slash(s@),
        r@.len() >= 1,
{
    split_char_exec(s, '/')
}

fn fold_components_exec(parts: &Vec<String>, has_root: bool) -> (r: Result<
    Vec<String>,
    PathValidationError,
>)
    ensures
        match r {
            Ok(acc) => fold_components(views(parts@), has_root, Seq::empty()) == Ok::<
                Seq<Seq<char>>,
                PathValidationError,
            >(views(acc@)),
            Err(e) => fold_components(views(parts@), has_root, Seq::empty()) == Err::<
                Seq<Seq<char>>,
                PathValidationError,
            >(e),
        },
{
    let n = parts.len();
    let mut acc: Vec<String> = Vec::new();
    proof {
        assert(views(parts@).skip(0) =~~= views(parts@));
        assert(views(acc@) =~~= Seq::<Seq<char>>::empty());
    }
    let mut i: usize = 0;
    while i < n
        invariant
            n == parts@.len(),
            0 <= i <= n,
            fold_components(views(parts@).skip(i as int), has_root, views(acc@))
                == fold_components(views(parts@), has_root, Seq::<Seq<char>>::empty()),
        decreases n - i,
    {
        proof {
            reveal_strlit(".");
            reveal_strlit("..");
            assert(views(parts@).skip(i as int)[0] == parts@[i as int]@);
            assert(views(parts@).skip(i as int).skip(1) =~~= views(parts@).skip(i + 1));
        }
        let ghost prev_acc = acc@;
        let p = &parts[i];
        if p.as_str().is_empty() || str_eq(p.as_str(), ".") {
            proof {
                assert(p@ == Seq::<char>::empty() || p@ == seq!['.']) by {
                    if p@.len() == 0 {
                        assert(p@ =~= Seq::<char>::empty());
                    } else {
                        assert("."@ =~= seq!['.']);
                    }
                }
            }
        } else if str_eq(p.as_str(), "..") {
            proof {
                assert(".."@ =~= seq!['.', '.']);
            }
            if acc.len() >= 1 && (has_root || acc.len() > 1) {
                acc.pop();
                proof {
                    assert(views(acc@) =~~= views(prev_acc).drop_last());
                }
            } else {
                return Err(PathValidationError::ParentTraversal);
            }
        } else if contains_char(p.as_str(), '\0') {
            proof {
                assert(p@ != seq!['.'] && p@ != seq!['.', '.']) by {
                    assert("."@ =~= seq!['.']);
                    assert(".."@ =~= seq!['.', '.']);
                }
            }
            return Err(PathValidationError::NullByte);
        } else {
            proof {
                assert(p@ != seq!['.'] && p@ != seq!['.', '.']) by {
                    assert("."@ =~= seq!['.']);
                    assert(".."@ =~= seq!['.', '.']);
                }
            }
            acc.push(p.clone());
            proof {
                assert(views(acc@) =~~= views(prev_acc).push(parts@[i as int]@));
            }
        }
        i += 1;
    }
    proof {
        assert(views(parts@).skip(n as int) =~~= Seq::<Seq<char>>::empty());
    }
    Ok(acc)
}

fn render_path_exec(has_root: bool, comps: &Vec<String>) -> (r: String)
    ensures
        r@ == render_path(has_root, views(comps@)),
{
    let n = comps.len();
    let mut out: String = String::new();
    if has_root {
        out.append("/");
        proof {
            reveal_strlit("/");
        }
    }
    let ghost prefix: Seq<char> = if has_root { seq!['/'] } else { Seq::empty() };
    proof {
        assert(out@ =~= prefix);
        assert(join_slash(views(comps@).take(0)) =~= Seq::<char>::empty());
        assert(out@ =~= prefix + join_slash(views(comps@).take(0)));
    }
    let mut i: usize = 0;
    while i < n
        invariant
            n == comps@.len(),
            0 <= i <= n,
            out@ == prefix + join_slash(views(comps@).take(i as int)),
        decreases n - i,
    {
        proof {
            reveal_strlit("/");
        }
        if i > 0 {
            out.append("/");
        }
        out.append(comps[i].as_str());
        proof {
            assert(views(comps@).take(i + 1).drop_last() =~~= views(comps@).take(i as int));
            assert(views(comps@).take(i + 1).last() == comps@[i as int]@);
            if i == 0 {
                assert(join_slash(views(comps@).take(1)) == views(comps@).take(1)[0]);
                assert(out@ =~= prefix + join_slash(views(comps@).take(i + 1)));
            } else {
                assert(out@ =~= prefix + join_slash(views(comps@).take(i + 1)));
            }
        }
        i += 1;
    }
    proof {
        assert(views(comps@).take(n as int) =~~= views(comps@));
        assert(out@ =~= prefix + join_slash(views(comps@)));
    }
    out
}

/// Normalize the components of a path without touching the file system:
/// `.` components and empty components disappear, and each `..` removes the
/// component before it where the original path structure allows it.
pub fn normalize_path_components(path: &str) -> (r: Result<String, PathValidationError>)
    ensures
        match r {
            Ok(v) => spec_normalize_path(path@) == Ok::<Seq<char>, PathValidationError>(v@),
            Err(e) => spec_normalize_path(path@) == Err::<Seq<char>, PathValidationError>(e),
        },
{
    let has_root = if path.is_empty() {
        false
    } else {
        path.get_char(0) == '/'
    };
    let parts = split_slash_exec(path);
    match fold_components_exec(&parts, has_root) {
        Ok(comps) => Ok(render_path_exec(has_root, &comps)),
        Err(e) => Err(e),
    }
}

/// The nonempty pieces of a path split on `/`.
pub open spec fn nonempty_parts(parts: Seq<Seq<char>>) -> Seq<Seq<char>>
    decreases parts.len(),
{
    if parts.len() == 0 {
        Seq::empty()
    } else if parts.last().len() == 0 {
        nonempty_parts(parts.drop_last())
    } else {
        nonempty_parts(parts.drop_last()).push(parts.last())
    }
}

pub(crate) fn nonempty_parts_exec(parts: &Vec<String>) -> (r: Vec<String>)
    ensures
        views(r@) == nonempty_parts(views(parts@)),
{
    let n = parts.len();
    let mut out: Vec<String> = Vec::new();
    proof {
        assert(views(out@) =~~= nonempty_parts(views(parts@).take(0)));
    }
    let mut i: usize = 0;
    while i < n
        invariant
            n == parts@.len(),
            0 <= i <= n,
            views(out@) == nonempty_parts(views(parts@).take(i as int)),
        decreases n - i,
    {
        let ghost prev_out = out@;
        if !parts[i].as_str().is_empty() {
            out.push(parts[i].clone());
            proof {
                assert(views(out@) =~~= views(prev_out).push(parts@[i as int]@));
            }
        }
        proof {
            assert(views(parts@).take(i + 1).drop_last() =~~= views(parts@).take(i as int));
            assert(views(parts@).take(i + 1).last() == parts@[i as int]@);
            assert(views(out@) =~~= nonempty_parts(views(parts@).take(i + 1)));
        }
        i += 1;
    }
    proof {
        assert(views(parts@).take(n as int) =~~= views(parts@));
    }
    out
}

/// A `..` path component occurs at position `i` of `s`, delimited by `/` or
/// `\` or the ends of the string.
pub open spec fn dotdot_at(s: Seq<char>, i: int) -> bool {
    &&& 0 <= i
    &&& i + 2 <= s.len()
    &&& s[i] == '.' && s[i + 1] == '.'
    &&& (i == 0 || s[i - 1] == '/' || s[i - 1] == '\\')
    &&& (i + 2 == s.len() || s[i + 2] == '/' || s[i + 2] == '\\')
}

/// `s` holds a `..` component under either separator style.
pub open spec fn has_dotdot_component(s: Seq<char>) -> bool {
    exists|i: int| dotdot_at(s, i)
}

fn find_dotdot(s: &str) -> (r: bool)
    ensures
        r == has_dotdot_component(s@),
{
    let n = s.unicode_len();
    if n < 2 {
        proof {
            assert(!has_dotdot_component(s@));
        }
        return false;
    }
    let mut i: usize = 0;
    while i <= n - 2
        invariant
            n == s@.len(),
            2 <= n,
            0 <= i <= n,
            forall|j: int| 0 <= j < i ==> !dotdot_at(s@, j),
        decreases n - i,
    {
        let c0 = s.get_char(i);
        let c1 = s.get_char(i + 1);
        let before_ok = if i == 0 {
            true
        } else {
            let b = s.get_char(i - 1);
            b == '/' || b == '\\'
        };
        let after_ok = if i + 2 == n {
            true
        } else {
            let a = s.get_char(i + 2);
            a == '/' || a == '\\'
        };
        if c0 == '.' && c1 == '.' && before_ok && after_ok {
            assert(dotdot_at(s@, i as int));
            return true;
        }
        assert(!dotdot_at(s@, i as int));
        i += 1;
    }
    proof {
        assert forall|j: int| !dotdot_at(s@, j) by {
            if 0 <= j && j + 2 <= s@.len() {
                assert(j < i);
            }
        }
    }
    false
}

/// A restore path that passed every textual check.
///
/// A value of this type exists only for a relative path that stays inside
/// the project directory; the stored absolute path is the normalized
/// project-relative target.
#[derive(Debug)]
pub struct ValidatedRestorePath {
    absolute_path: String,
}

impl ValidatedRestorePath {
    /// The normalized absolute path.
    pub closed spec fn view(&self) -> Seq<char> {
        self.absolute_path@
    }

    /// Get the validated absolute path.
    pub fn as_path(&self) -> (r: &str)
        ensures
            r@ == self@,
    {
        self.absolute_path.as_str()
    }
}

/// What validating a restore path yields: the normalized absolute target,
/// or the first rejection in checking order.
pub open spec fn spec_validate_restore_path(rel: Seq<char>, proj: Seq<char>) -> Result<
    Seq<char>,
    PathValidationError,
> {
    if rel.contains('\0') {
        Err(PathValidationError::NullByte)
    } else if rel.len() == 0 {
        Err(PathValidationError::InvalidCharacters)
    } else if rel[0] == '/' || rel[0] == '\\' || (rel.len() >= 2 && rel[1] == ':') {
        Err(PathValidationError::AbsolutePath)
    } else if has_dotdot_component(rel) {
        Err(PathValidationError::ParentTraversal)
    } else {
        let target = proj + seq!['/'] + rel;
        let has_root = target.len() > 0 && target[0] == '/';
        match fold_components(split_slash(target), has_root, Seq::empty()) {
            Ok(comps) => {
                if nonempty_parts(split_slash(proj)).is_prefix_of(comps) {
                    Ok(render_path(has_root, comps))
                } else {
                    Err(PathValidationError::DirectoryEscape)
                }
            },
            Err(e) => Err(e),
        }
    }
}

fn seq_views_prefix(a: &Vec<String>, b: &Vec<String>) -> (r: bool)
    ensures
        r == views(a@).is_prefix_of(views(b@)),
{
    let n = a.len();
    if n > b.len() {
        assert(!views(a@).is_prefix_of(views(b@)));
        return false;
    }
    let mut i: usize = 0;
    while i < n
        invariant
            n == a@.len(),
            n <= b@.len(),
            0 <= i <= n,
            forall|j: int| 0 <= j < i ==> views(a@)[j] == views(b@)[j],
        decreases n - i,
    {
        if !str_eq(a[i].as_str(), b[i].as_str()) {
            assert(views(a@)[i as int] != views(b@)[i as int]);
            assert(views(a@) != views(b@).subrange(0, views(a@).len() as int)) by {
                assert(views(b@).subrange(0, views(a@).len() as int)[i as int] == views(
                    b@,
                )[i as int]);
            }
            return false;
        }
        i += 1;
    }
    proof {
        assert(views(a@) =~~= views(b@).subrange(0, views(a@).len() as int));
    }
    true
}

/// Validate a relative path for safe restoration inside the project
/// directory.
///
/// The checks, in order: no NUL bytes, not empty, not absolute (either
/// separator style, or a drive prefix), no `..` component, and after
/// normalization the target must still lie under the project directory.
/// `project_path` should already be canonical; the caller must still check
/// the real file system for symbolic links before writing.
pub fn validate_restore_path(relative_path: &str, project_path: &str) -> (r: Result<
    ValidatedRestorePath,
    PathValidationError,
>)
    ensures
        match r {
            Ok(v) => spec_validate_restore_path(relative_path@, project_path@) == Ok::<
                Seq<char>,
                PathValidationError,
            >(v@),
            Err(e) => spec_validate_restore_path(relative_path@, project_path@) == Err::<
                Seq<char>,
                PathValidationError,
            >(e),
        },
{
    if contains_char(relative_path, '\0') {
        return Err(PathValidationError::NullByte);
    }
    if relative_path.is_empty() {
        return Err(PathValidationError::InvalidCharacters);
    }
    let first = relative_path.get_char(0);
    if first == '/' || first == '\\' {
        return Err(PathValidationError::AbsolutePath);
    }
    if relative_path.unicode_len() >= 2 && relative_path.get_char(1) == ':' {
        return Err(PathValidationError::AbsolutePath);
    }
    if find_dotdot(relative_path) {
        return Err(PathValidationError::ParentTraversal);
    }

    let mut target = project_path.to_owned();
    target.append("/");
    target.append(relative_path);
    proof {
        reveal_strlit("/");
        assert("/"@ =~= seq!['/']);
        assert(target@ =~= project_path@ + seq!['/'] + relative_path@);
    }
    let has_root = if target.as_str().is_empty() {
        false
    } else {
        target.as_str().get_char(0) == '/'
    };
    let parts = split_slash_exec(target.as_str());
    match fold_components_exec(&parts, has_root) {
        Ok(comps) => {
            let proj_parts = split_slash_exec(project_path);
            let proj_clean = nonempty_parts_exec(&proj_parts);
            if seq_views_prefix(&proj_clean, &comps) {
                Ok(ValidatedRestorePath { absolute_path: render_path_exec(has_root, &comps) })
            } else {
                Err(PathValidationError::DirectoryEscape)
            }
        },
        Err(e) => Err(e),
    }
}

} // verus!
