//! Fuzzy resolution of a typed subcommand against the known vocabulary,
//! and the plan of what to run for a command line.
use vstd::prelude::*;
use crate::distance::{lev, levenshtein};

verus! {

/// The largest distance at which a typed token still resolves to a known
/// command; beyond it the token is handed to git as it was typed.
pub const MAX_DISTANCE: usize = 3;

/// The known subcommands, in the order that settles ties.
pub open spec fn vocabulary() -> Seq<&'static str> {
    seq![
        "template", "rlog", "tlog", "undo", "save", "pop", "remove-committed",
        "init", "clone", "add", "commit", "restore", "rm", "mv", "status", "log",
        "diff", "show", "branch", "checkout", "merge", "rebase", "fast-forward",
        "tag", "stash", "pull", "fetch", "push", "remote", "submodule", "reset",
        "revert", "clean", "gc", "fsck", "archive", "blame", "bisect",
        "cherry-pick", "config", "help",
    ]
}

/// The known subcommands, in the order that settles ties.
pub fn command_vocabulary() -> (r: Vec<&'static str>)
    ensures
        r@ == vocabulary(),
{
    vec![
        "template", "rlog", "tlog", "undo", "save", "pop", "remove-committed",
        "init", "clone", "add", "commit", "restore", "rm", "mv", "status", "log",
        "diff", "show", "branch", "checkout", "merge", "rebase", "fast-forward",
        "tag", "stash", "pull", "fetch", "push", "remote", "submodule", "reset",
        "revert", "clean", "gc", "fsck", "archive", "blame", "bisect",
        "cherry-pick", "config", "help",
    ]
}

/// `k` is the earliest entry of `v` at the least distance from `t`.
pub open spec fn is_first_nearest(t: Seq<char>, v: Seq<&str>, k: int) -> bool {
    &&& 0 <= k < v.len()
    &&& forall|j: int| 0 <= j < v.len() ==> lev(t, v[k]@) <= lev(t, v[j]@)
    &&& forall|j: int| 0 <= j < k ==> lev(t, v[k]@) < lev(t, v[j]@)
}

/// The entry of the vocabulary nearest to a token, and its distance.
pub struct Resolution {
    /// Position of the nearest entry; `None` only for an empty vocabulary.
    pub index: Option<usize>,
    /// Its edit distance from the token; `usize::MAX` when there is none.
    pub distance: usize,
}

/// Scans `vocabulary` in order and keeps the nearest entry, replacing it
/// only on a strictly smaller distance, so the earliest of equals wins.
pub fn resolve(token: &str, vocabulary: &Vec<&str>) -> (r: Resolution)
    ensures
        vocabulary@.len() == 0 ==> r.index is None && r.distance == usize::MAX,
        vocabulary@.len() > 0 ==> {
            &&& r.index is Some
            &&& is_first_nearest(token@, vocabulary@, r.index->0 as int)
            &&& r.distance == lev(token@, vocabulary@[r.index->0 as int]@)
        },
{
    let mut best: Option<usize> = None;
    let mut best_dist: usize = usize::MAX;
    let mut i: usize = 0;
    while i < vocabulary.len()
        invariant
            i <= vocabulary@.len(),
            i == 0 ==> best is None && best_dist == usize::MAX,
            i > 0 ==> {
                &&& best is Some
                &&& best->0 < i
                &&& best_dist == lev(token@, vocabulary@[best->0 as int]@)
                &&& forall|j: int| 0 <= j < i ==> best_dist <= lev(token@, vocabulary@[j]@)
                &&& forall|j: int| 0 <= j < best->0 ==> best_dist < lev(token@, vocabulary@[j]@)
            },
        decreases vocabulary@.len() - i,
    {
        let d = levenshtein(token, vocabulary[i]);
        if i == 0 || d < best_dist {
            best = Some(i);
            best_dist = d;
        }
        i = i + 1;
    }
    Resolution { index: best, distance: best_dist }
}

/// How a resolution is used.
#[derive(PartialEq, Eq, Structural, Clone, Copy, Debug)]
pub enum MatchKind {
    /// The token names a known command exactly.
    Exact,
    /// The token is near a known command, which is used in its place.
    Fuzzy,
    /// No known command is near enough; the token goes to git unchanged.
    Miss,
}

pub open spec fn kind_of(index: Option<usize>, distance: nat) -> MatchKind {
    if index is None || distance > MAX_DISTANCE {
        MatchKind::Miss
    } else if distance == 0 {
        MatchKind::Exact
    } else {
        MatchKind::Fuzzy
    }
}

/// Applies the distance threshold to a resolution.
pub fn classify(r: &Resolution) -> (k: MatchKind)
    ensures
        k == kind_of(r.index, r.distance as nat),
{
    if r.index.is_none() || r.distance > MAX_DISTANCE {
        MatchKind::Miss
    } else if r.distance == 0 {
        MatchKind::Exact
    } else {
        MatchKind::Fuzzy
    }
}

} // verus!
