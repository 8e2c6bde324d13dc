//! Project browsing: git information, file listing rules and the parsing of
//! git's own output.
//!
//! Running git is the caller's work; what its output means — branch lines,
//! commit records, which files a listing keeps — is decided here.

use vstd::prelude::*;
use vstd::seq_lib::group_to_multiset_ensures;
use vstd::string::StrSliceExecFns;

use crate::strutil::{
    has_prefix, has_substring, lex_le, lower_of, lowercase, split_char, split_char_exec,
    str_contains, str_eq, str_lex_le, str_starts_with, str_views, trim_ascii, trim_spec,
};

verus! {

/// Git repository information for a project.
#[derive(Debug, Clone)]
pub struct GitInfo {
    pub is_git_repo: bool,
    pub branch: Option<String>,
    pub is_dirty: Option<bool>,
    pub last_commit: Option<String>,
}

/// A project's combined diff.
#[derive(Debug, Clone)]
pub struct GitDiff {
    pub is_git_repo: bool,
    pub diff: String,
}

/// One file offered for mention autocompletion.
#[derive(Debug, Clone)]
pub struct FileEntry {
    /// Path relative to the project root.
    pub path: String,
    /// File name only.
    pub name: String,
    /// Whether this is a directory.
    pub is_dir: bool,
}

/// One git branch.
#[derive(Debug, Clone)]
pub struct GitBranch {
    pub name: String,
    pub is_current: bool,
}

/// One git commit.
#[derive(Debug, Clone)]
pub struct GitCommit {
    pub sha: String,
    pub short_sha: String,
    pub title: String,
    pub author: String,
    pub date: String,
}

/// The query characters appear in order in the target.
pub open spec fn is_subsequence(q: Seq<char>, t: Seq<char>) -> bool
    decreases q.len(), t.len(),
{
    if q.len() == 0 {
        true
    } else if t.len() == 0 {
        false
    } else if q[0] == t[0] {
        is_subsequence(q.skip(1), t.skip(1))
    } else {
        is_subsequence(q, t.skip(1))
    }
}

/// Simple fuzzy match: every character of the query appears in the target,
/// in order.
pub fn fuzzy_match(target: &str, query: &str) -> (r: bool)
    ensures
        r == is_subsequence(query@, target@),
{
    let nq = query.unicode_len();
    let nt = target.unicode_len();
    proof {
        assert(query@.skip(0) =~= query@);
        assert(target@.skip(0) =~= target@);
    }
    let mut qi: usize = 0;
    let mut ti: usize = 0;
    loop
        invariant
            nq == query@.len(),
            nt == target@.len(),
            0 <= qi <= nq,
            0 <= ti <= nt,
            is_subsequence(query@, target@) == is_subsequence(
                query@.skip(qi as int),
                target@.skip(ti as int),
            ),
        decreases nt - ti,
    {
        proof {
            if qi < nq {
                assert(query@.skip(qi as int)[0] == query@[qi as int]);
                assert(query@.skip(qi as int).skip(1) =~= query@.skip(qi + 1));
            }
            if ti < nt {
                assert(target@.skip(ti as int)[0] == target@[ti as int]);
                assert(target@.skip(ti as int).skip(1) =~= target@.skip(ti + 1));
            }
        }
        if qi == nq {
            proof {
                assert(query@.skip(qi as int).len() == 0);
            }
            return true;
        }
        if ti == nt {
            proof {
                assert(target@.skip(ti as int).len() == 0);
                assert(query@.skip(qi as int).len() > 0);
            }
            return false;
        }
        if query.get_char(qi) == target.get_char(ti) {
            qi += 1;
        }
        ti += 1;
    }
}

/// A directory name excluded from file listings: build outputs, caches and
/// tool state.
pub open spec fn ignored_dir_spec(name: Seq<char>) -> bool {
    ||| name == "node_modules"@
    ||| name == ".git"@
    ||| name == ".svn"@
    ||| name == ".hg"@
    ||| name == "target"@
    ||| name == "dist"@
    ||| name == "build"@
    ||| name == ".next"@
    ||| name == ".nuxt"@
    ||| name == "__pycache__"@
    ||| name == ".pytest_cache"@
    ||| name == ".mypy_cache"@
    ||| name == "venv"@
    ||| name == ".venv"@
    ||| name == "env"@
    ||| name == ".env"@
    ||| name == "vendor"@
    ||| name == ".idea"@
    ||| name == ".vscode"@
    ||| name == "coverage"@
    ||| name == ".cache"@
    ||| name == ".parcel-cache"@
    ||| name == ".turbo"@
}

/// Whether a directory is skipped when listing project files.
pub fn is_ignored_dir(name: &str) -> (r: bool)
    ensures
        r == ignored_dir_spec(name@),
{
    str_eq(name, "node_modules") || str_eq(name, ".git") || str_eq(name, ".svn") || str_eq(
        name,
        ".hg",
    ) || str_eq(name, "target") || str_eq(name, "dist") || str_eq(name, "build") || str_eq(
        name,
        ".next",
    ) || str_eq(name, ".nuxt") || str_eq(name, "__pycache__") || str_eq(name, ".pytest_cache")
        || str_eq(name, ".mypy_cache") || str_eq(name, "venv") || str_eq(name, ".venv") || str_eq(
        name,
        "env",
    ) || str_eq(name, ".env") || str_eq(name, "vendor") || str_eq(name, ".idea") || str_eq(
        name,
        ".vscode",
    ) || str_eq(name, "coverage") || str_eq(name, ".cache") || str_eq(name, ".parcel-cache")
        || str_eq(name, ".turbo")
}

/// A hidden file kept in listings despite its leading dot.
pub open spec fn visible_hidden_spec(name: Seq<char>) -> bool {
    ||| name == ".env"@
    ||| name == ".gitignore"@
    ||| name == ".eslintrc"@
    ||| name == ".prettierrc"@
}

/// Whether a file is skipped as hidden: it starts with a dot and is not one
/// of the well-known configuration files.
pub fn is_hidden_skipped(name: &str) -> (r: bool)
    ensures
        r == (name@.len() > 0 && name@[0] == '.' && !visible_hidden_spec(name@)),
{
    if name.is_empty() {
        return false;
    }
    if name.get_char(0) != '.' {
        return false;
    }
    !(str_eq(name, ".env") || str_eq(name, ".gitignore") || str_eq(name, ".eslintrc") || str_eq(
        name,
        ".prettierrc",
    ))
}

/// Whether a file entry matches the (lowercased) query: by substring on the
/// relative path or the name, or fuzzily on the name.
pub open spec fn entry_matches_spec(path: Seq<char>, name: Seq<char>, q: Seq<char>) -> bool {
    ||| has_substring(lower_of(path), q)
    ||| has_substring(lower_of(name), q)
    ||| is_subsequence(q, lower_of(name))
}

/// Whether a file entry matches a query.
pub fn entry_matches_query(path: &str, name: &str, query_lower: &str) -> (r: bool)
    ensures
        r == entry_matches_spec(path@, name@, query_lower@),
{
    let lp = lowercase(path);
    let ln = lowercase(name);
    str_contains(lp.as_str(), query_lower) || str_contains(ln.as_str(), query_lower)
        || fuzzy_match(ln.as_str(), query_lower)
}

/// The file listing order: directories first, then by relative path.
pub open spec fn entry_le(a: FileEntry, b: FileEntry) -> bool {
    if a.is_dir != b.is_dir {
        a.is_dir
    } else {
        lex_le(a.path@, b.path@)
    }
}

fn entry_le_exec(a: &FileEntry, b: &FileEntry) -> (r: bool)
    ensures
        r == entry_le(*a, *b),
{
    if a.is_dir != b.is_dir {
        a.is_dir
    } else {
        str_lex_le(a.path.as_str(), b.path.as_str())
    }
}

/// Sort file entries for display: directories first, then by path.
pub fn sort_file_entries(entries: Vec<FileEntry>) -> (r: Vec<FileEntry>)
    ensures
        r@.to_multiset() == entries@.to_multiset(),
        forall|i: int, j: int|
            0 <= i < j < r@.len() ==> entry_le(#[trigger] r@[i], #[trigger] r@[j]),
{
    broadcast use group_to_multiset_ensures;

    let ghost orig = entries@;
    let mut src = entries;
    let mut out: Vec<FileEntry> = Vec::new();
    proof {
        assert(out@.to_multiset().add(src@.to_multiset()) =~= orig.to_multiset());
    }
    while src.len() > 0
        invariant
            out@.to_multiset().add(src@.to_multiset()) == orig.to_multiset(),
            forall|i: int, j: int|
                0 <= i < j < out@.len() ==> entry_le(#[trigger] out@[i], #[trigger] out@[j]),
            forall|i: int, j: int|
                0 <= i < out@.len() && 0 <= j < src@.len() ==> entry_le(
                    #[trigger] out@[i],
                    #[trigger] src@[j],
                ),
        decreases src@.len(),
    {
        broadcast use group_to_multiset_ensures;

        let m = src.len();
        let mut best: usize = 0;
        proof {
            lemma_entry_le_total(src@[0], src@[0]);
        }
        let mut j: usize = 1;
        while j < m
            invariant
                m == src@.len(),
                1 <= m,
                best < m,
                0 <= j <= m,
                forall|k: int| 0 <= k < j ==> entry_le(src@[best as int], #[trigger] src@[k]),
            decreases m - j,
        {
            let ghost prev_best = best as int;
            if !entry_le_exec(&src[best], &src[j]) {
                best = j;
                proof {
                    lemma_entry_le_total(src@[prev_best], src@[best as int]);
                    assert forall|k: int| 0 <= k < j + 1 implies entry_le(
                        src@[best as int],
                        #[trigger] src@[k],
                    ) by {
                        if k < j {
                            lemma_entry_le_trans(src@[best as int], src@[prev_best], src@[k]);
                        } else {
                            lemma_entry_le_total(src@[best as int], src@[best as int]);
                        }
                    }
                }
            } else {
                proof {
                    assert(entry_le(src@[best as int], src@[j as int]));
                }
            }
            j += 1;
        }
        let ghost src_before = src@;
        let chosen = src.remove(best);
        out.push(chosen);
        proof {
            assert(out@.to_multiset().add(src@.to_multiset()) =~= orig.to_multiset());
            assert forall|a: int, b: int|
                0 <= a < out@.len() && 0 <= b < src@.len() implies entry_le(
                #[trigger] out@[a],
                #[trigger] src@[b],
            ) by {
                let ob: int = if b < best { b } else { b + 1 };
                assert(src@[b] == src_before[ob]);
            }
        }
    }
    out
}

proof fn lemma_lex_le_total(a: Seq<char>, b: Seq<char>)
    ensures
        lex_le(a, b) || lex_le(b, a),
    decreases a.len(), b.len(),
{
    if a.len() > 0 && b.len() > 0 {
        if a[0] == b[0] {
            lemma_lex_le_total(a.skip(1), b.skip(1));
        } else {
            vstd::utf8::char_u32_cast(a[0], a[0] as u32);
            vstd::utf8::char_u32_cast(b[0], b[0] as u32);
            assert((a[0] as u32) != (b[0] as u32));
        }
    }
}

proof fn lemma_lex_le_trans(a: Seq<char>, b: Seq<char>, c: Seq<char>)
    requires
        lex_le(a, b),
        lex_le(b, c),
    ensures
        lex_le(a, c),
    decreases a.len(),
{
    if a.len() > 0 && b.len() > 0 && c.len() > 0 {
        if a[0] == b[0] && b[0] == c[0] {
            lemma_lex_le_trans(a.skip(1), b.skip(1), c.skip(1));
        }
    }
}

proof fn lemma_entry_le_trans(a: FileEntry, b: FileEntry, c: FileEntry)
    requires
        entry_le(a, b),
        entry_le(b, c),
    ensures
        entry_le(a, c),
{
    if a.is_dir == b.is_dir && b.is_dir == c.is_dir {
        lemma_lex_le_trans(a.path@, b.path@, c.path@);
    }
}

proof fn lemma_branch_le_trans(a: GitBranch, b: GitBranch, c: GitBranch)
    requires
        branch_le(a, b),
        branch_le(b, c),
    ensures
        branch_le(a, c),
{
    if a.is_current == b.is_current && b.is_current == c.is_current {
        lemma_lex_le_trans(a.name@, b.name@, c.name@);
    }
}

proof fn lemma_entry_le_total(a: FileEntry, b: FileEntry)
    ensures
        entry_le(a, b) || entry_le(b, a),
{
    lemma_lex_le_total(a.path@, b.path@);
}

/// One commit record of a log formatted as five fields separated by `|`:
/// hash, short hash, title, author and date; the date keeps any further
/// separators.
pub open spec fn commit_of_line(line: Seq<char>, c: GitCommit) -> bool {
    &&& line == c.sha@ + seq!['|'] + c.short_sha@ + seq!['|'] + c.title@ + seq!['|'] + c.author@
        + seq!['|'] + c.date@
    &&& !c.sha@.contains('|')
    &&& !c.short_sha@.contains('|')
    &&& !c.title@.contains('|')
    &&& !c.author@.contains('|')
}

/// How many separators a line holds.
pub open spec fn pipe_count(s: Seq<char>) -> int
    decreases s.len(),
{
    if s.len() == 0 {
        0
    } else {
        pipe_count(s.drop_last()) + (if s.last() == '|' {
            1int
        } else {
            0int
        })
    }
}

fn find_char_from(s: &str, start: usize, c: char) -> (r: Option<usize>)
    requires
        start <= s@.len(),
    ensures
        match r {
            Some(i) => start <= i < s@.len() && s@[i as int] == c && (forall|j: int|
                start <= j < i ==> s@[j] != c),
            None => forall|j: int| start <= j < s@.len() ==> s@[j] != c,
        },
{
    let n = s.unicode_len();
    let mut i: usize = start;
    while i < n
        invariant
            n == s@.len(),
            start <= i <= n,
            forall|j: int| start <= j < i ==> s@[j] != c,
        decreases n - i,
    {
        if s.get_char(i) == c {
            return Some(i);
        }
        i += 1;
    }
    None
}

proof fn lemma_pipe_count_segment(s: Seq<char>, a: int, b: int)
    requires
        0 <= a <= b <= s.len(),
        forall|j: int| a <= j < b ==> s[j] != '|',
    ensures
        pipe_count(s.take(b)) == pipe_count(s.take(a)),
    decreases b - a,
{
    if b > a {
        assert(s.take(b).drop_last() =~= s.take(b - 1));
        assert(s.take(b).last() == s[b - 1]);
        lemma_pipe_count_segment(s, a, b - 1);
    }
}

proof fn lemma_pipe_count_through(s: Seq<char>, p: int)
    requires
        0 <= p < s.len(),
        s[p] == '|',
    ensures
        pipe_count(s.take(p + 1)) == pipe_count(s.take(p)) + 1,
{
    assert(s.take(p + 1).drop_last() =~= s.take(p));
    assert(s.take(p + 1).last() == s[p]);
}

/// Parse one line of the commit log; lines with fewer than four separators
/// are rejected.
pub fn parse_git_commit_line(line: &str) -> (r: Option<GitCommit>)
    ensures
        match r {
            Some(c) => commit_of_line(line@, c),
            None => pipe_count(line@) < 4,
        },
{
    let n = line.unicode_len();
    let p1 = match find_char_from(line, 0, '|') {
        Some(p) => p,
        None => {
            proof {
                lemma_pipe_count_segment(line@, 0, n as int);
                assert(line@.take(n as int) =~= line@);
                assert(line@.take(0) =~= Seq::<char>::empty());
            }
            return None;
        },
    };
    let p2 = match find_char_from(line, p1 + 1, '|') {
        Some(p) => p,
        None => {
            proof {
                lemma_pipe_count_through(line@, p1 as int);
                lemma_pipe_count_segment(line@, 0, p1 as int);
                lemma_pipe_count_segment(line@, p1 + 1, n as int);
                assert(line@.take(n as int) =~= line@);
                assert(line@.take(0) =~= Seq::<char>::empty());
            }
            return None;
        },
    };
    let p3 = match find_char_from(line, p2 + 1, '|') {
        Some(p) => p,
        None => {
            proof {
                lemma_pipe_count_through(line@, p1 as int);
                lemma_pipe_count_through(line@, p2 as int);
                lemma_pipe_count_segment(line@, 0, p1 as int);
                lemma_pipe_count_segment(line@, p1 + 1, p2 as int);
                lemma_pipe_count_segment(line@, p2 + 1, n as int);
                assert(line@.take(n as int) =~= line@);
                assert(line@.take(0) =~= Seq::<char>::empty());
            }
            return None;
        },
    };
    let p4 = match find_char_from(line, p3 + 1, '|') {
        Some(p) => p,
        None => {
            proof {
                lemma_pipe_count_through(line@, p1 as int);
                lemma_pipe_count_through(line@, p2 as int);
                lemma_pipe_count_through(line@, p3 as int);
                lemma_pipe_count_segment(line@, 0, p1 as int);
                lemma_pipe_count_segment(line@, p1 + 1, p2 as int);
                lemma_pipe_count_segment(line@, p2 + 1, p3 as int);
                lemma_pipe_count_segment(line@, p3 + 1, n as int);
                assert(line@.take(n as int) =~= line@);
                assert(line@.take(0) =~= Seq::<char>::empty());
            }
            return None;
        },
    };
    let c = GitCommit {
        sha: line.substring_char(0, p1).to_owned(),
        short_sha: line.substring_char(p1 + 1, p2).to_owned(),
        title: line.substring_char(p2 + 1, p3).to_owned(),
        author: line.substring_char(p3 + 1, p4).to_owned(),
        date: line.substring_char(p4 + 1, n).to_owned(),
    };
    proof {
        assert(c.sha@ =~= line@.subrange(0, p1 as int));
        assert(c.short_sha@ =~= line@.subrange(p1 + 1, p2 as int));
        assert(c.title@ =~= line@.subrange(p2 + 1, p3 as int));
        assert(c.author@ =~= line@.subrange(p3 + 1, p4 as int));
        assert(c.date@ =~= line@.subrange(p4 + 1, n as int));
        assert(line@ =~= c.sha@ + seq!['|'] + c.short_sha@ + seq!['|'] + c.title@ + seq!['|']
            + c.author@ + seq!['|'] + c.date@);
    }
    Some(c)
}

/// The commits parsed from the log output, line by line, in order;
/// malformed lines are dropped.
pub open spec fn commits_of_lines(lines: Seq<Seq<char>>, cs: Seq<GitCommit>) -> bool {
    exists|keep: Seq<Option<GitCommit>>|
        {
            &&& keep.len() == lines.len()
            &&& (forall|i: int|
                0 <= i < lines.len() ==> (match #[trigger] keep[i] {
                    Some(c) => commit_of_line(lines[i], c),
                    None => pipe_count(lines[i]) < 4,
                }))
            &&& cs == flatten_options(keep)
        }
}

/// The present values of an option list, in order.
pub open spec fn flatten_options<T>(s: Seq<Option<T>>) -> Seq<T>
    decreases s.len(),
{
    if s.len() == 0 {
        Seq::empty()
    } else {
        match s.last() {
            Some(v) => flatten_options(s.drop_last()).push(v),
            None => flatten_options(s.drop_last()),
        }
    }
}

/// Parse the formatted commit log: one commit per well-formed line, in
/// order.
pub fn parse_git_commits(stdout: &str) -> (r: Vec<GitCommit>)
    ensures
        commits_of_lines(split_char(stdout@, '\n'), r@),
{
    let lines = split_char_exec(stdout, '\n');
    let n = lines.len();
    let mut out: Vec<GitCommit> = Vec::new();
    let ghost mut keep: Seq<Option<GitCommit>> = Seq::empty();
    let mut i: usize = 0;
    while i < n
        invariant
            n == lines@.len(),
            0 <= i <= n,
            keep.len() == i,
            forall|k: int|
                0 <= k < i ==> (match #[trigger] keep[k] {
                    Some(c) => commit_of_line(lines@[k]@, c),
                    None => pipe_count(lines@[k]@) < 4,
                }),
            out@ == flatten_options(keep),
        decreases n - i,
    {
        let ghost prev_keep = keep;
        match parse_git_commit_line(lines[i].as_str()) {
            Some(c) => {
                out.push(c);
                proof {
                    keep = keep.push(Some(c));
                }
            },
            None => {
                proof {
                    keep = keep.push(None);
                }
            },
        }
        proof {
            assert(keep.drop_last() =~= prev_keep);
            assert(out@ =~= flatten_options(keep));
        }
        i += 1;
    }
    proof {
        assert(str_views(lines@) =~~= split_char(stdout@, '\n'));
        assert forall|k: int| 0 <= k < n implies (match #[trigger] keep[k] {
            Some(c) => commit_of_line(str_views(lines@)[k], c),
            None => pipe_count(str_views(lines@)[k]) < 4,
        }) by {
            assert(str_views(lines@)[k] == lines@[k]@);
        }
    }
    out
}

/// `s` with its leading `*` markers removed.
pub open spec fn strip_stars(s: Seq<char>) -> Seq<char>
    decreases s.len(),
{
    if s.len() > 0 && s[0] == '*' {
        strip_stars(s.skip(1))
    } else {
        s
    }
}

/// What one line of the branch listing stands for: nothing for blank lines
/// and head references, else the cleaned branch name with its current
/// marker; a remote prefix is stripped.
pub open spec fn branch_of_line(line: Seq<char>) -> Option<(bool, Seq<char>)> {
    let t = trim_spec(line);
    if t.len() == 0 {
        None
    } else {
        let is_current = t[0] == '*';
        let name = trim_spec(strip_stars(t));
        if has_substring(name, "HEAD"@) || name.len() == 0 {
            None
        } else {
            let clean = if has_prefix(name, "origin/"@) {
                name.skip(7)
            } else {
                name
            };
            Some((is_current, clean))
        }
    }
}

fn strip_stars_exec(s: &str) -> (r: &str)
    ensures
        r@ == strip_stars(s@),
{
    let n = s.unicode_len();
    proof {
        assert(s@.skip(0) =~= s@);
    }
    let mut i: usize = 0;
    loop
        invariant
            n == s@.len(),
            0 <= i <= n,
            strip_stars(s@) == strip_stars(s@.skip(i as int)),
        decreases n - i,
    {
        proof {
            if i < n {
                assert(s@.skip(i as int)[0] == s@[i as int]);
                assert(s@.skip(i as int).skip(1) =~= s@.skip(i + 1));
            }
        }
        if i == n {
            let r = s.substring_char(i, n);
            proof {
                assert(r@ =~= s@.skip(i as int));
                assert(s@.skip(i as int).len() == 0);
            }
            return r;
        }
        if s.get_char(i) != '*' {
            let r = s.substring_char(i, n);
            proof {
                assert(r@ =~= s@.skip(i as int));
            }
            return r;
        }
        i += 1;
    }
}

fn parse_branch_line(line: &str) -> (r: Option<GitBranch>)
    ensures
        match r {
            Some(b) => branch_of_line(line@) == Some((b.is_current, b.name@)),
            None => branch_of_line(line@) is None,
        },
{
    let t = trim_ascii(line);
    if t.is_empty() {
        return None;
    }
    let is_current = t.get_char(0) == '*';
    let stripped = strip_stars_exec(t);
    let name = trim_ascii(stripped);
    if str_contains(name, "HEAD") || name.is_empty() {
        return None;
    }
    let clean = if str_starts_with(name, "origin/") {
        proof {
            reveal_strlit("origin/");
        }
        name.substring_char(7, name.unicode_len())
    } else {
        name
    };
    proof {
        reveal_strlit("origin/");
        if has_prefix(name@, "origin/"@) {
            assert(clean@ =~= name@.skip(7));
        }
    }
    Some(GitBranch { name: clean.to_owned(), is_current })
}

/// The branches folded out of the listing's lines: one entry per
/// recognizable line, first occurrence of each name wins.
pub open spec fn fold_branches(lines: Seq<Seq<char>>, acc: Seq<(bool, Seq<char>)>) -> Seq<
    (bool, Seq<char>),
>
    decreases lines.len(),
{
    if lines.len() == 0 {
        acc
    } else {
        match branch_of_line(lines[0]) {
            Some(entry) => {
                if branch_names(acc).contains(entry.1) {
                    fold_branches(lines.skip(1), acc)
                } else {
                    fold_branches(lines.skip(1), acc.push((entry.0, entry.1)))
                }
            },
            None => fold_branches(lines.skip(1), acc),
        }
    }
}

/// The names of folded branches.
pub open spec fn branch_names(acc: Seq<(bool, Seq<char>)>) -> Seq<Seq<char>> {
    acc.map_values(|p: (bool, Seq<char>)| p.1)
}

/// The branch listing order: the current branch first, then by name.
pub open spec fn branch_le(a: GitBranch, b: GitBranch) -> bool {
    if a.is_current != b.is_current {
        a.is_current
    } else {
        lex_le(a.name@, b.name@)
    }
}

fn branch_name_seen(acc: &Vec<GitBranch>, name: &str) -> (r: bool)
    ensures
        r <==> exists|t: int| 0 <= t < acc@.len() && (#[trigger] acc@[t]).name@ == name@,
{
    let m = acc.len();
    let mut k: usize = 0;
    while k < m
        invariant
            m == acc@.len(),
            0 <= k <= m,
            forall|t: int| 0 <= t < k ==> (#[trigger] acc@[t]).name@ != name@,
        decreases m - k,
    {
        if str_eq(acc[k].name.as_str(), name) {
            assert(acc@[k as int].name@ == name@);
            return true;
        }
        k += 1;
    }
    false
}

/// Parse the branch listing: deduplicated by cleaned name in reading order,
/// then sorted with the current branch first and alphabetically within.
pub fn parse_git_branches(stdout: &str) -> (r: Vec<GitBranch>)
    ensures
        ({
            let folded = fold_branches(split_char(stdout@, '\n'), Seq::empty());
            &&& r@.len() == folded.len()
            &&& (forall|i: int|
                0 <= i < r@.len() ==> folded.contains(
                    (#[trigger] r@[i].is_current, r@[i].name@),
                ))
            &&& (forall|i: int, j: int|
                0 <= i < j < r@.len() ==> branch_le(#[trigger] r@[i], #[trigger] r@[j]))
        }),
{
    broadcast use group_to_multiset_ensures;

    let lines = split_char_exec(stdout, '\n');
    let ghost all_lines = split_char(stdout@, '\n');
    let n = lines.len();
    let mut acc: Vec<GitBranch> = Vec::new();
    proof {
        assert(str_views(lines@) =~~= all_lines);
        assert(acc@.map_values(|b: GitBranch| (b.is_current, b.name@)) =~~= Seq::<(
            bool,
            Seq<char>,
        )>::empty());
        assert(fold_branches(all_lines.skip(0), Seq::empty()) == fold_branches(
            all_lines,
            Seq::empty(),
        )) by {
            assert(all_lines.skip(0) =~~= all_lines);
        }
    }
    let mut i: usize = 0;
    while i < n
        invariant
            n == lines@.len(),
            all_lines == split_char(stdout@, '\n'),
            str_views(lines@) =~~= all_lines,
            0 <= i <= n,
            fold_branches(
                all_lines.skip(i as int),
                acc@.map_values(|b: GitBranch| (b.is_current, b.name@)),
            ) == fold_branches(all_lines, Seq::empty()),
        decreases n - i,
    {
        let ghost accv = acc@.map_values(|b: GitBranch| (b.is_current, b.name@));
        proof {
            assert(all_lines.skip(i as int)[0] == lines@[i as int]@);
            assert(all_lines.skip(i as int).skip(1) =~~= all_lines.skip(i + 1));
        }
        match parse_branch_line(lines[i].as_str()) {
            Some(b) => {
                let seen = branch_name_seen(&acc, b.name.as_str());
                proof {
                    if seen {
                        let t = choose|t: int| 0 <= t < acc@.len() && #[trigger] acc@[t].name@ == b.name@;
                        assert(branch_names(accv)[t] == b.name@);
                        assert(branch_names(accv).contains(b.name@));
                    } else {
                        assert forall|t: int|
                            0 <= t < branch_names(accv).len() implies #[trigger] branch_names(
                            accv,
                        )[t] != b.name@ by {
                            assert(branch_names(accv)[t] == acc@[t].name@);
                        }
                        assert(!branch_names(accv).contains(b.name@));
                    }
                }
                if !seen {
                    acc.push(b);
                    proof {
                        assert(acc@.map_values(|x: GitBranch| (x.is_current, x.name@))
                            =~~= accv.push((acc@.last().is_current, acc@.last().name@)));
                    }
                }
            },
            None => {
            },
        }
        i += 1;
    }
    proof {
        assert(all_lines.skip(n as int) =~~= Seq::<Seq<char>>::empty());
        assert(acc@.map_values(|b: GitBranch| (b.is_current, b.name@)) == fold_branches(
            all_lines,
            Seq::empty(),
        ));
    }

    // Selection sort: the current branch first, then alphabetically.
    let ghost folded = fold_branches(all_lines, Seq::empty());
    let ghost acc0 = acc@;
    let mut out: Vec<GitBranch> = Vec::new();
    proof {
        assert(out@.to_multiset().add(acc@.to_multiset()) =~= acc0.to_multiset());
    }
    while acc.len() > 0
        invariant
            folded == acc0.map_values(|b: GitBranch| (b.is_current, b.name@)),
            out@.to_multiset().add(acc@.to_multiset()) == acc0.to_multiset(),
            forall|i: int, j: int|
                0 <= i < j < out@.len() ==> branch_le(#[trigger] out@[i], #[trigger] out@[j]),
            forall|i: int, j: int|
                0 <= i < out@.len() && 0 <= j < acc@.len() ==> branch_le(
                    #[trigger] out@[i],
                    #[trigger] acc@[j],
                ),
        decreases acc@.len(),
    {
        broadcast use group_to_multiset_ensures;

        let m = acc.len();
        let mut best: usize = 0;
        proof {
            lemma_branch_le_total(acc@[0], acc@[0]);
        }
        let mut j: usize = 1;
        while j < m
            invariant
                m == acc@.len(),
                1 <= m,
                best < m,
                0 <= j <= m,
                forall|k: int| 0 <= k < j ==> branch_le(acc@[best as int], #[trigger] acc@[k]),
            decreases m - j,
        {
            let ghost prev_best = best as int;
            if !branch_le_exec(&acc[best], &acc[j]) {
                best = j;
                proof {
                    lemma_branch_le_total(acc@[prev_best], acc@[best as int]);
                    assert forall|k: int| 0 <= k < j + 1 implies branch_le(
                        acc@[best as int],
                        #[trigger] acc@[k],
                    ) by {
                        if k < j {
                            lemma_branch_le_trans(acc@[best as int], acc@[prev_best], acc@[k]);
                        } else {
                            lemma_branch_le_total(acc@[best as int], acc@[best as int]);
                        }
                    }
                }
            } else {
                proof {
                    assert(branch_le(acc@[best as int], acc@[j as int]));
                }
            }
            j += 1;
        }
        let ghost acc_before = acc@;
        let chosen = acc.remove(best);
        out.push(chosen);
        proof {
            assert(out@.to_multiset().add(acc@.to_multiset()) =~= acc0.to_multiset());
            assert forall|a: int, b: int|
                0 <= a < out@.len() && 0 <= b < acc@.len() implies branch_le(
                #[trigger] out@[a],
                #[trigger] acc@[b],
            ) by {
                let ob: int = if b < best { b } else { b + 1 };
                assert(acc@[b] == acc_before[ob]);
            }
        }
    }
    proof {
        assert(out@.to_multiset().len() == acc0.to_multiset().len());
        assert(out@.len() == acc0.len());
        assert(folded.len() == acc0.len());
        assert forall|i: int| 0 <= i < out@.len() implies folded.contains(
            (#[trigger] out@[i].is_current, out@[i].name@),
        ) by {
            assert(out@.to_multiset().count(out@[i]) > 0);
            assert(acc0.to_multiset().count(out@[i]) > 0);
            assert(acc0.contains(out@[i]));
            let t = choose|t: int| 0 <= t < acc0.len() && acc0[t] == out@[i];
            assert(folded[t] == (out@[i].is_current, out@[i].name@));
        }
    }
    out
}

fn branch_le_exec(a: &GitBranch, b: &GitBranch) -> (r: bool)
    ensures
        r == branch_le(*a, *b),
{
    if a.is_current != b.is_current {
        a.is_current
    } else {
        str_lex_le(a.name.as_str(), b.name.as_str())
    }
}

proof fn lemma_branch_le_total(a: GitBranch, b: GitBranch)
    ensures
        branch_le(a, b) || branch_le(b, a),
{
    lemma_lex_le_total(a.name@, b.name@);
}

} // verus!
