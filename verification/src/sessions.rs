//! Searching and updating stored session metadata.
//!
//! A query is matched against the title, the first message, the tags and
//! the session id, case-insensitively, and the hits are ranked by a
//! relevance score with ties broken by the last access time.

use vstd::prelude::*;
use vstd::seq_lib::group_to_multiset_ensures;

use crate::models::{tags_of, SessionMetadata, SessionStatus};
use crate::strutil::{
    has_prefix, has_substring, lower_of, lowercase, str_contains, str_eq, str_starts_with,
};

verus! {

/// The score one optional text contributes: `exact` for an exact
/// (case-insensitive) match, `prefix` for a prefix match, `contains` for a
/// substring match.
pub open spec fn match_bonus(
    text: Option<Seq<char>>,
    q: Seq<char>,
    exact: int,
    prefix: int,
    contains: int,
) -> int {
    match text {
        Some(t) => {
            let lt = lower_of(t);
            if lt == q {
                exact
            } else if has_prefix(lt, q) {
                prefix
            } else if has_substring(lt, q) {
                contains
            } else {
                0
            }
        },
        None => 0,
    }
}

/// The score one tag contributes.
pub open spec fn tag_bonus(t: Seq<char>, q: Seq<char>) -> int {
    let lt = lower_of(t);
    if lt == q {
        35
    } else if has_substring(lt, q) {
        30
    } else {
        0
    }
}

/// The score a tag list contributes.
pub open spec fn tags_bonus(tags: Seq<Seq<char>>, q: Seq<char>) -> int
    decreases tags.len(),
{
    if tags.len() == 0 {
        0
    } else {
        tags_bonus(tags.drop_last(), q) + tag_bonus(tags.last(), q)
    }
}

/// At most the first 100000 tags are scored, so that the score stays small.
pub open spec fn clamp_tags(tags: Seq<Seq<char>>) -> Seq<Seq<char>> {
    if tags.len() > 100000 {
        tags.take(100000)
    } else {
        tags
    }
}

/// The relevance of one session for a (lowercased) query: title matches
/// weigh most, then the first message, then tags, then the session id, with
/// a small bonus for favorites.
pub open spec fn sess_score(s: SessionMetadata, q: Seq<char>) -> int {
    match_bonus(
        match s.title {
            Some(t) => Some(t@),
            None => None,
        },
        q,
        100,
        80,
        60,
    ) + match_bonus(
        match s.first_message {
            Some(f) => Some(f@),
            None => None,
        },
        q,
        50,
        45,
        40,
    ) + tags_bonus(clamp_tags(tags_of(s.tags)), q) + (if has_substring(lower_of(s.session_id@), q) {
        10int
    } else {
        0int
    }) + (if s.is_favorite {
        5int
    } else {
        0int
    })
}

/// Calculate the relevance score of a session for an already-lowercased
/// query. Only the first 100000 tags count.
pub fn calculate_relevance_score(session: &SessionMetadata, query_lower: &str) -> (r: i64)
    ensures
        r == sess_score(*session, query_lower@),
        0 <= r <= 4000000,
{
    let mut score: i64 = 0;
    if let Some(title) = &session.title {
        let lt = lowercase(title.as_str());
        if str_eq(lt.as_str(), query_lower) {
            score += 100;
        } else if str_starts_with(lt.as_str(), query_lower) {
            score += 80;
        } else if str_contains(lt.as_str(), query_lower) {
            score += 60;
        }
    }
    if let Some(first_msg) = &session.first_message {
        let lf = lowercase(first_msg.as_str());
        if str_eq(lf.as_str(), query_lower) {
            score += 50;
        } else if str_starts_with(lf.as_str(), query_lower) {
            score += 45;
        } else if str_contains(lf.as_str(), query_lower) {
            score += 40;
        }
    }
    let tags = session.get_tags();
    let nt = if tags.len() > 100000 {
        100000
    } else {
        tags.len()
    };
    let ghost clamped = clamp_tags(tags_of(session.tags));
    proof {
        assert(clamped =~~= tags.deep_view().take(nt as int));
    }
    let mut tag_acc: i64 = 0;
    let mut i: usize = 0;
    while i < nt
        invariant
            nt <= tags@.len(),
            nt <= 100000,
            clamped =~~= tags.deep_view().take(nt as int),
            clamped.len() == nt,
            0 <= i <= nt,
            tag_acc == tags_bonus(clamped.take(i as int), query_lower@),
            0 <= tag_acc <= 35 * i,
        decreases nt - i,
    {
        let lt = lowercase(tags[i].as_str());
        if str_eq(lt.as_str(), query_lower) {
            tag_acc += 35;
        } else if str_contains(lt.as_str(), query_lower) {
            tag_acc += 30;
        }
        proof {
            assert(clamped.take(i + 1).drop_last() =~~= clamped.take(i as int));
            assert(clamped.take(i + 1).last() == tags.deep_view()[i as int]);
            assert(tags.deep_view()[i as int] == tags@[i as int]@);
        }
        i += 1;
    }
    proof {
        assert(clamped.take(nt as int) =~~= clamped);
    }
    score += tag_acc;
    let ls = lowercase(session.session_id.as_str());
    if str_contains(ls.as_str(), query_lower) {
        score += 10;
    }
    if session.is_favorite {
        score += 5;
    }
    score
}

/// The tie-breaking time: the last access time, with never-accessed
/// sessions counting as oldest.
pub open spec fn sess_time(s: SessionMetadata) -> int {
    match s.last_accessed_at {
        Some(t) => t as int,
        None => 0,
    }
}

/// The ranking order: higher score first, then more recently accessed
/// first.
pub open spec fn ranked_ge(a: SessionMetadata, b: SessionMetadata, q: Seq<char>) -> bool {
    sess_score(a, q) > sess_score(b, q) || (sess_score(a, q) == sess_score(b, q) && sess_time(a)
        >= sess_time(b))
}

/// Whether a session passes the search filter: all filter tags present,
/// favorite when only favorites are wanted, and a positive score.
pub open spec fn passes_filter(
    s: SessionMetadata,
    q: Seq<char>,
    tags_filter: Option<Seq<Seq<char>>>,
    favorites_only: Option<bool>,
) -> bool {
    &&& match tags_filter {
        Some(ft) => forall|i: int| 0 <= i < ft.len() ==> tags_of(s.tags).contains(#[trigger] ft[i]),
        None => true,
    }
    &&& favorites_only == Some(true) ==> s.is_favorite
    &&& sess_score(s, q) > 0
}

/// The sessions passing the filter, in their original order.
pub open spec fn passing(
    sessions: Seq<SessionMetadata>,
    q: Seq<char>,
    tags_filter: Option<Seq<Seq<char>>>,
    favorites_only: Option<bool>,
) -> Seq<SessionMetadata>
    decreases sessions.len(),
{
    if sessions.len() == 0 {
        Seq::empty()
    } else if passes_filter(sessions.last(), q, tags_filter, favorites_only) {
        passing(sessions.drop_last(), q, tags_filter, favorites_only).push(sessions.last())
    } else {
        passing(sessions.drop_last(), q, tags_filter, favorites_only)
    }
}

fn vec_contains_str(v: &Vec<String>, x: &str) -> (r: bool)
    ensures
        r == v.deep_view().contains(x@),
{
    let n = v.len();
    let mut i: usize = 0;
    while i < n
        invariant
            n == v@.len(),
            0 <= i <= n,
            forall|j: int| 0 <= j < i ==> v.deep_view()[j] != x@,
        decreases n - i,
    {
        if str_eq(v[i].as_str(), x) {
            assert(v.deep_view()[i as int] == x@);
            return true;
        }
        i += 1;
    }
    assert(!v.deep_view().contains(x@));
    false
}

fn passes_filter_exec(
    s: &SessionMetadata,
    query_lower: &str,
    tags_filter: &Option<Vec<String>>,
    favorites_only: Option<bool>,
) -> (r: bool)
    ensures
        r == passes_filter(
            *s,
            query_lower@,
            match *tags_filter {
                Some(ref ft) => Some(ft.deep_view()),
                None => None,
            },
            favorites_only,
        ),
{
    if let Some(ft) = tags_filter {
        let session_tags = s.get_tags();
        let n = ft.len();
        let mut i: usize = 0;
        while i < n
            invariant
                *tags_filter == Some(*ft),
                n == ft@.len(),
                0 <= i <= n,
                session_tags.deep_view() == tags_of(s.tags),
                forall|j: int|
                    0 <= j < i ==> tags_of(s.tags).contains(#[trigger] ft.deep_view()[j]),
            decreases n - i,
        {
            if !vec_contains_str(&session_tags, ft[i].as_str()) {
                proof {
                    let fspec = (match *tags_filter {
                        Some(ref f) => Some(f.deep_view()),
                        None => None::<Seq<Seq<char>>>,
                    });
                    assert(fspec matches Some(fs) && !tags_of(s.tags).contains(fs[i as int]));
                    assert(!passes_filter(
                        *s,
                        query_lower@,
                        match *tags_filter {
                            Some(ref f) => Some(f.deep_view()),
                            None => None,
                        },
                        favorites_only,
                    ));
                }
                return false;
            }
            i += 1;
        }
    }
    if let Some(true) = favorites_only {
        if !s.is_favorite {
            return false;
        }
    }
    let score = calculate_relevance_score(s, query_lower);
    score > 0
}

/// Search sessions: keep those passing the tag and favorite filters whose
/// score is positive, ranked by score and then by last access time.
pub fn search_sessions(
    sessions: Vec<SessionMetadata>,
    query: &str,
    tags_filter: Option<Vec<String>>,
    favorites_only: Option<bool>,
) -> (r: Vec<SessionMetadata>)
    ensures
        ({
            let q = lower_of(query@);
            let ft = match tags_filter {
                Some(ref f) => Some(f.deep_view()),
                None => None,
            };
            &&& r@.to_multiset() == passing(sessions@, q, ft, favorites_only).to_multiset()
            &&& forall|i: int, j: int| 0 <= i < j < r@.len() ==> ranked_ge(r@[i], r@[j], q)
        }),
{
    broadcast use group_to_multiset_ensures;

    let query_lower = lowercase(query);
    let ghost q = lower_of(query@);
    let ghost ft = match tags_filter {
        Some(ref f) => Some(f.deep_view()),
        None => None,
    };
    let ghost orig = sessions@;
    let mut sessions = sessions;
    let mut kept: Vec<SessionMetadata> = Vec::new();
    proof {
        assert(kept@ =~= passing(orig.take(0), q, ft, favorites_only));
        assert(sessions@ =~= orig.skip(0));
    }
    let ghost mut done: int = 0;
    while sessions.len() > 0
        invariant
            query_lower@ == q,
            ft == (match tags_filter {
                Some(ref f) => Some(f.deep_view()),
                None => None::<Seq<Seq<char>>>,
            }),
            0 <= done <= orig.len(),
            sessions@ == orig.skip(done),
            kept@ == passing(orig.take(done), q, ft, favorites_only),
        decreases sessions@.len(),
    {
        let s = sessions.remove(0);
        proof {
            assert(s == orig[done]);
            assert(sessions@ =~= orig.skip(done + 1));
        }
        if passes_filter_exec(&s, query_lower.as_str(), &tags_filter, favorites_only) {
            kept.push(s);
        }
        proof {
            assert(orig.take(done + 1).drop_last() =~= orig.take(done));
            assert(orig.take(done + 1).last() == orig[done]);
            assert(kept@ =~= passing(orig.take(done + 1), q, ft, favorites_only));
            done = done + 1;
        }
    }
    proof {
        assert(orig.take(orig.len() as int) =~= orig);
        assert(kept@ == passing(orig, q, ft, favorites_only));
    }

    // Selection sort: repeatedly move the first maximal element out, so the
    // result is ranked and holds exactly the kept sessions.
    let ghost kept0 = kept@;
    let mut out: Vec<SessionMetadata> = Vec::new();
    proof {
        assert(out@.to_multiset().add(kept@.to_multiset()) =~= kept0.to_multiset());
    }
    while kept.len() > 0
        invariant
            query_lower@ == q,
            out@.to_multiset().add(kept@.to_multiset()) == kept0.to_multiset(),
            forall|i: int, j: int|
                0 <= i < j < out@.len() ==> ranked_ge(#[trigger] out@[i], #[trigger] out@[j], q),
            forall|i: int, j: int|
                0 <= i < out@.len() && 0 <= j < kept@.len() ==> ranked_ge(
                    #[trigger] out@[i],
                    #[trigger] kept@[j],
                    q,
                ),
        decreases kept@.len(),
    {
        broadcast use group_to_multiset_ensures;

        let m = kept.len();
        let mut best: usize = 0;
        let mut best_score = calculate_relevance_score(&kept[0], query_lower.as_str());
        let mut best_time = session_time(&kept[0]);
        let mut j: usize = 1;
        while j < m
            invariant
                query_lower@ == q,
                m == kept@.len(),
                1 <= m,
                0 <= best < j <= m || (j <= 1 && best == 0 && j <= m),
                best < m,
                0 <= j <= m,
                best_score == sess_score(kept@[best as int], q),
                best_time == sess_time(kept@[best as int]),
                forall|k: int| 0 <= k < j ==> ranked_ge(kept@[best as int], kept@[k], q),
            decreases m - j,
        {
            let sc = calculate_relevance_score(&kept[j], query_lower.as_str());
            let tm = session_time(&kept[j]);
            if sc > best_score || (sc == best_score && tm > best_time) {
                best = j;
                best_score = sc;
                best_time = tm;
            }
            j += 1;
        }
        let ghost kept_before = kept@;
        let chosen = kept.remove(best);
        out.push(chosen);
        proof {
            assert(out@.drop_last() =~= out@.subrange(0, out@.len() - 1));
            assert(out@.to_multiset().add(kept@.to_multiset()) =~= kept0.to_multiset());
            assert forall|a: int, b: int|
                0 <= a < out@.len() && 0 <= b < kept@.len() implies ranked_ge(
                #[trigger] out@[a],
                #[trigger] kept@[b],
                q,
            ) by {
                let ob: int = if b < best { b } else { b + 1 };
                assert(kept@[b] == kept_before[ob]);
            }
        }
    }
    out
}

/// The tie-breaking time of a session.
fn session_time(s: &SessionMetadata) -> (r: i64)
    ensures
        r == sess_time(*s),
{
    match s.last_accessed_at {
        Some(t) => t,
        None => 0,
    }
}

/// Apply a metadata update: each given field replaces the stored one, the
/// first message only if none is stored yet, and the project id only where
/// none is stored.
pub fn apply_session_update(
    metadata: &mut SessionMetadata,
    project_id: Option<String>,
    title: Option<String>,
    tags: Option<Vec<String>>,
    is_favorite: Option<bool>,
    is_archived: Option<bool>,
    status: Option<String>,
    first_message: Option<String>,
    tasks_json: Option<String>,
)
    ensures
        final(metadata).session_id == old(metadata).session_id,
        final(metadata).created_at == old(metadata).created_at,
        (match project_id {
            Some(ref p) => if old(metadata).project_id@.len() == 0 && p@.len() > 0 {
                final(metadata).project_id == *p
            } else {
                final(metadata).project_id == old(metadata).project_id
            },
            None => final(metadata).project_id == old(metadata).project_id,
        }),
        (match title {
            Some(ref t) => final(metadata).title == Some(*t),
            None => final(metadata).title == old(metadata).title,
        }),
        (match tags {
            Some(ref t) => final(metadata).tags matches Some(j) && j@ == crate::models::string_list_json(
                t.deep_view(),
            ),
            None => final(metadata).tags == old(metadata).tags,
        }),
        (match is_favorite {
            Some(f) => final(metadata).is_favorite == f,
            None => final(metadata).is_favorite == old(metadata).is_favorite,
        }),
        (match is_archived {
            Some(a) => final(metadata).is_archived == a,
            None => final(metadata).is_archived == old(metadata).is_archived,
        }),
        (match status {
            Some(ref s) => final(metadata).status == crate::models::status_of_str(lower_of(s@)),
            None => final(metadata).status == old(metadata).status,
        }),
        (match first_message {
            Some(ref f) => if old(metadata).first_message is None {
                final(metadata).first_message == Some(*f)
            } else {
                final(metadata).first_message == old(metadata).first_message
            },
            None => final(metadata).first_message == old(metadata).first_message,
        }),
        (match tasks_json {
            Some(ref t) => final(metadata).tasks_json == Some(*t),
            None => final(metadata).tasks_json == old(metadata).tasks_json,
        }),
        final(metadata).last_accessed_at is Some,
{
    if let Some(pid) = project_id {
        if !pid.as_str().is_empty() && metadata.project_id.as_str().is_empty() {
            metadata.project_id = pid;
        }
    }
    if let Some(t) = title {
        metadata.title = Some(t);
    }
    if let Some(t) = tags {
        metadata.set_tags(t);
    }
    if let Some(f) = is_favorite {
        metadata.is_favorite = f;
    }
    if let Some(a) = is_archived {
        metadata.is_archived = a;
    }
    if let Some(s) = status {
        metadata.status = SessionStatus::from_str(s.as_str());
    }
    if let Some(fm) = first_message {
        if metadata.first_message.is_none() {
            metadata.first_message = Some(fm);
        }
    }
    if let Some(tj) = tasks_json {
        metadata.tasks_json = Some(tj);
    }
    metadata.last_accessed_at = Some(crate::models::now_timestamp());
}

} // verus!
