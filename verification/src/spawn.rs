//! Locating the engine executable before spawning it.
//!
//! The search order is fixed: an executable found on the PATH wins;
//! otherwise a short list of well-known install locations is probed in
//! order. The probing itself is the caller's file-system work; the decision
//! over its findings is made here.

use vstd::prelude::*;

use crate::bridge::BridgeError;

verus! {

/// The well-known install locations probed for the engine binary, in order,
/// under the given home directory.
pub fn candidate_install_paths(home: &str) -> (r: Vec<String>)
    ensures
        r@.len() == 4,
        r@[0]@ == home@ + "/.cargo/bin/codex"@,
        r@[1]@ == home@ + "/.local/bin/codex"@,
        r@[2]@ == "/usr/local/bin/codex"@,
        r@[3]@ == "/opt/homebrew/bin/codex"@,
{
    let mut r: Vec<String> = Vec::new();
    let mut a = home.to_owned();
    a.append("/.cargo/bin/codex");
    r.push(a);
    let mut b = home.to_owned();
    b.append("/.local/bin/codex");
    r.push(b);
    r.push(String::from_str("/usr/local/bin/codex"));
    r.push(String::from_str("/opt/homebrew/bin/codex"));
    r
}

/// Choose the executable to spawn: a PATH lookup result wins outright;
/// otherwise the first candidate that exists is taken; when none resolves,
/// the spawn fails with `BinaryNotFound` and no process is started.
pub fn select_binary(
    path_lookup: Option<String>,
    candidates: &Vec<String>,
    probed: &Vec<bool>,
) -> (r: Result<String, BridgeError>)
    requires
        candidates@.len() == probed@.len(),
    ensures
        match r {
            Ok(p) => (path_lookup matches Some(w) && p == w) || (path_lookup is None && (exists|i: int|
                0 <= i < probed@.len() && probed@[i] && p == candidates@[i] && (forall|j: int|
                    0 <= j < i ==> !probed@[j]))),
            Err(e) => {
                &&& e is BinaryNotFound
                &&& path_lookup is None
                &&& forall|i: int| 0 <= i < probed@.len() ==> !probed@[i]
            },
        },
{
    if let Some(w) = path_lookup {
        return Ok(w);
    }
    let n = candidates.len();
    let mut i: usize = 0;
    while i < n
        invariant
            path_lookup is None,
            n == candidates@.len(),
            n == probed@.len(),
            0 <= i <= n,
            forall|j: int| 0 <= j < i ==> !probed@[j],
        decreases n - i,
    {
        if probed[i] {
            let p = candidates[i].clone();
            proof {
                assert(path_lookup is None);
                assert(exists|k: int|
                    0 <= k < probed@.len() && probed@[k] && p == candidates@[k] && (forall|j: int|
                        0 <= j < k ==> !probed@[j])) by {
                    let ki = i as int;
                    assert(0 <= ki < probed@.len() && probed@[ki] && p == candidates@[ki] && (
                    forall|j: int| 0 <= j < ki ==> !probed@[j]));
                }
            }
            return Ok(p);
        }
        i += 1;
    }
    Err(BridgeError::BinaryNotFound)
}

} // verus!
