//! The order in which paths are preferred, and the search for the best of
//! the paths that can be selected.
//!
//! Paths are ranked by round-trip time, the lowest first. Among paths of
//! equal round-trip time the primary path comes first, then the path that
//! was selected last, then the path with the lowest id.

use vstd::prelude::*;

use crate::path::Path;
use crate::path::PathMap;

verus! {

/// Whether `id` is the path that was selected last.
pub open spec fn is_last(last: Option<usize>, id: int) -> bool {
    last matches Some(l) && l == id
}

/// Whether path `a`, with id `a_id`, is preferred to path `b`, with id
/// `b_id`, when `last` was selected last.
pub open spec fn rank_before(a: Path, a_id: int, b: Path, b_id: int, last: Option<usize>) -> bool {
    if a.effective_srtt() != b.effective_srtt() {
        a.effective_srtt() < b.effective_srtt()
    } else if a.is_primary != b.is_primary {
        a.is_primary
    } else if is_last(last, a_id) != is_last(last, b_id) {
        is_last(last, a_id)
    } else {
        a_id < b_id
    }
}

/// Whether the path with id `a` is preferred to the path with id `b`.
pub open spec fn precedes(paths: Seq<Path>, last: Option<usize>, a: int, b: int) -> bool {
    rank_before(paths[a], a, paths[b], b, last)
}

/// Whether `p` is the id of a path that can be selected.
pub open spec fn is_candidate(paths: Seq<Path>, p: int) -> bool {
    0 <= p < paths.len() && paths[p].eligible()
}

/// Whether `p` can be selected and is preferred to every other path that can.
pub open spec fn is_best(paths: Seq<Path>, last: Option<usize>, p: int) -> bool {
    &&& is_candidate(paths, p)
    &&& forall|j: int| #[trigger] is_candidate(paths, j) && j != p ==> precedes(paths, last, p, j)
}

/// The path to send on: the one that can be selected and is preferred to all
/// others that can, or none if no path can be selected.
pub open spec fn best_eligible(paths: Seq<Path>, last: Option<usize>) -> Option<int> {
    if exists|p: int| is_best(paths, last, p) {
        Some(choose|p: int| is_best(paths, last, p))
    } else {
        None
    }
}

/// Whether `s` lists the ids below `bound` of the paths that can be selected,
/// each once, the most preferred first.
pub open spec fn is_ranking_upto(
    paths: Seq<Path>,
    last: Option<usize>,
    bound: int,
    s: Seq<usize>,
) -> bool {
    &&& forall|k: int|
        0 <= k < s.len() ==> (#[trigger] s[k]) < bound && is_candidate(paths, s[k] as int)
    &&& forall|p: int|
        0 <= p < bound && #[trigger] is_candidate(paths, p) ==> exists|k: int|
            0 <= k < s.len() && #[trigger] s[k] == p
    &&& forall|i: int, j: int|
        0 <= i < j < s.len() ==> precedes(
            paths,
            last,
            #[trigger] s[i] as int,
            #[trigger] s[j] as int,
        )
}

/// Whether `s` lists the ids of all paths that can be selected, each once,
/// the most preferred first.
pub open spec fn is_ranking(paths: Seq<Path>, last: Option<usize>, s: Seq<usize>) -> bool {
    is_ranking_upto(paths, last, paths.len() as int, s)
}

/// The preference is a strict total order on path ids: no path is preferred
/// to itself, of two different paths exactly one is preferred to the other,
/// and the preference carries over from `a` via `b` to `c`.
pub proof fn lemma_rank_order(paths: Seq<Path>, last: Option<usize>, a: int, b: int, c: int)
    ensures
        !precedes(paths, last, a, a),
        precedes(paths, last, a, b) ==> !precedes(paths, last, b, a),
        a != b ==> precedes(paths, last, a, b) || precedes(paths, last, b, a),
        precedes(paths, last, a, b) && precedes(paths, last, b, c) ==> precedes(paths, last, a, c),
{
}

/// At most one path is the best.
pub proof fn lemma_best_unique(paths: Seq<Path>, last: Option<usize>, p: int, q: int)
    requires
        is_best(paths, last, p),
        is_best(paths, last, q),
    ensures
        p == q,
{
}

/// A path that is the best is the one to send on.
pub proof fn lemma_best_is_selected(paths: Seq<Path>, last: Option<usize>, p: int)
    requires
        is_best(paths, last, p),
    ensures
        best_eligible(paths, last) == Some(p),
{
    // The path that is chosen is the best as well, and so it is `p`.
    let q = choose|q: int| is_best(paths, last, q);
}

/// Among the first `n` paths, either none can be selected or one of them is
/// preferred to all others that can.
proof fn lemma_best_of_prefix(paths: Seq<Path>, last: Option<usize>, n: int) -> (b: Option<int>)
    requires
        0 <= n <= paths.len(),
    ensures
        match b {
            Some(p) => 0 <= p < n && is_candidate(paths, p) && forall|j: int|
                0 <= j < n && #[trigger] is_candidate(paths, j) && j != p ==> precedes(
                    paths,
                    last,
                    p,
                    j,
                ),
            None => forall|j: int| 0 <= j < n ==> !#[trigger] is_candidate(paths, j),
        },
    decreases n,
{
    if n == 0 {
        None
    } else {
        let before = lemma_best_of_prefix(paths, last, n - 1);
        if !is_candidate(paths, n - 1) {
            before
        } else {
            match before {
                None => Some(n - 1),
                Some(p) => {
                    if precedes(paths, last, n - 1, p) {
                        Some(n - 1)
                    } else {
                        Some(p)
                    }
                },
            }
        }
    }
}

/// A path is selected exactly when some path can be selected.
pub proof fn lemma_best_exists(paths: Seq<Path>, last: Option<usize>)
    ensures
        best_eligible(paths, last) is Some <==> exists|j: int| is_candidate(paths, j),
        best_eligible(paths, last) matches Some(p) ==> is_best(paths, last, p),
{
    match lemma_best_of_prefix(paths, last, paths.len() as int) {
        Some(p) => {
            assert(is_best(paths, last, p));
        },
        None => {},
    }
}

/// Whether `a`, with id `a_id`, is preferred to `b`, with id `b_id`.
pub fn ranks_before(a: &Path, a_id: usize, b: &Path, b_id: usize, last: Option<usize>) -> (r: bool)
    ensures
        r == rank_before(*a, a_id as int, *b, b_id as int, last),
{
    let a_rtt = a.rank_rtt();
    let b_rtt = b.rank_rtt();
    if a_rtt != b_rtt {
        return a_rtt < b_rtt;
    }
    if a.is_primary != b.is_primary {
        return a.is_primary;
    }
    let a_last = match last {
        Some(l) => l == a_id,
        None => false,
    };
    let b_last = match last {
        Some(l) => l == b_id,
        None => false,
    };
    if a_last != b_last {
        return a_last;
    }
    a_id < b_id
}

/// Finds the path to send on.
pub fn best_eligible_path(paths: &PathMap, last: Option<usize>) -> (r: Option<usize>)
    ensures
        match best_eligible(paths@, last) {
            Some(p) => r == Some(p as usize) && p == p as usize,
            None => r is None,
        },
{
    let n = paths.len();
    let mut best: Option<(usize, Path)> = None;
    let mut i: usize = 0;
    while i < n
        invariant
            i <= n,
            n == paths@.len(),
            match best {
                Some((b, bp)) => b < i && bp == paths@[b as int] && is_candidate(paths@, b as int)
                    && forall|j: int|
                    0 <= j < i && #[trigger] is_candidate(paths@, j) && j != b ==> precedes(
                        paths@,
                        last,
                        b as int,
                        j,
                    ),
                None => forall|j: int| 0 <= j < i ==> !#[trigger] is_candidate(paths@, j),
            },
        decreases n - i,
    {
        match paths.get(i) {
            Some(path) => {
                if path.is_eligible() {
                    match best {
                        Some((b, bp)) => {
                            if ranks_before(&path, i, &bp, b, last) {
                                best = Some((i, path));
                            }
                        },
                        None => {
                            best = Some((i, path));
                        },
                    }
                }
            },
            None => {},
        }
        i += 1;
    }
    match best {
        Some((b, _)) => {
            proof {
                lemma_best_is_selected(paths@, last, b as int);
            }
            Some(b)
        },
        None => None,
    }
}

/// The place of the path `id` among the ranked ids below it: after every id
/// that is preferred to it, before every id that it is preferred to.
fn insert_position(
    paths: &PathMap,
    last: Option<usize>,
    ranked: &Vec<usize>,
    id: usize,
    path: &Path,
) -> (k: usize)
    requires
        id < paths@.len(),
        *path == paths@[id as int],
        is_ranking_upto(paths@, last, id as int, ranked@),
    ensures
        k <= ranked@.len(),
        forall|m: int|
            0 <= m < k ==> precedes(paths@, last, #[trigger] ranked@[m] as int, id as int),
        forall|m: int|
            k <= m < ranked@.len() ==> precedes(
                paths@,
                last,
                id as int,
                #[trigger] ranked@[m] as int,
            ),
{
    let len = ranked.len();
    let mut k: usize = 0;
    while k < len
        invariant
            k <= len,
            len == ranked@.len(),
            id < paths@.len(),
            *path == paths@[id as int],
            is_ranking_upto(paths@, last, id as int, ranked@),
            forall|m: int|
                0 <= m < k ==> precedes(paths@, last, #[trigger] ranked@[m] as int, id as int),
        decreases len - k,
    {
        let other = ranked[k];
        match paths.get(other) {
            Some(other_path) => {
                if ranks_before(path, id, &other_path, other, last) {
                    return k;
                }
            },
            None => {},
        }
        k += 1;
    }
    k
}

/// Lists the paths that can be selected, the most preferred first.
pub fn rank_eligible(paths: &PathMap, last: Option<usize>) -> (r: Vec<usize>)
    ensures
        is_ranking(paths@, last, r@),
{
    let n = paths.len();
    let mut ranked: Vec<usize> = Vec::new();
    let mut i: usize = 0;
    while i < n
        invariant
            i <= n,
            n == paths@.len(),
            is_ranking_upto(paths@, last, i as int, ranked@),
        decreases n - i,
    {
        match paths.get(i) {
            Some(path) => {
                if path.is_eligible() {
                    let k = insert_position(paths, last, &ranked, i, &path);
                    let ghost before = ranked@;
                    ranked.insert(k, i);
                    proof {
                        // The new id stands at `k`; what stood before `k`
                        // stays, and what stood from `k` on moves up by one.
                        let after = ranked@;
                        assert(after[k as int] == i);
                        assert forall|m: int| 0 <= m < k implies after[m] == before[m] by {}
                        assert forall|p: int|
                            0 <= p < i + 1 && #[trigger] is_candidate(
                                paths@,
                                p,
                            ) implies exists|m: int|
                            0 <= m < after.len() && #[trigger] after[m] == p by {
                            if p != i {
                                let m0 = choose|m: int|
                                    0 <= m < before.len() && #[trigger] before[m] == p;
                                if m0 >= k {
                                    assert(after[m0 + 1] == p);
                                }
                            }
                        }
                    }
                }
            },
            None => {},
        }
        i += 1;
    }
    ranked
}

/// The first of a ranking is the best path.
pub proof fn lemma_ranking_head_is_best(paths: Seq<Path>, last: Option<usize>, s: Seq<usize>)
    requires
        is_ranking(paths, last, s),
        s.len() > 0,
    ensures
        is_best(paths, last, s[0] as int),
{
}

/// A ranking is empty exactly when no path can be selected.
pub proof fn lemma_ranking_empty(paths: Seq<Path>, last: Option<usize>, s: Seq<usize>)
    requires
        is_ranking(paths, last, s),
    ensures
        s.len() == 0 <==> forall|j: int| !is_candidate(paths, j),
{
    if s.len() > 0 {
        assert(is_candidate(paths, s[0] as int));
    }
}

/// No id occurs twice in a ranking.
pub proof fn lemma_ranking_no_duplicates(paths: Seq<Path>, last: Option<usize>, s: Seq<usize>)
    requires
        is_ranking(paths, last, s),
    ensures
        s.no_duplicates(),
{
}

/// Two rankings of the same paths agree on their first `n` ids.
proof fn lemma_ranking_prefix(
    paths: Seq<Path>,
    last: Option<usize>,
    s: Seq<usize>,
    t: Seq<usize>,
    n: int,
)
    requires
        is_ranking(paths, last, s),
        is_ranking(paths, last, t),
        0 <= n <= s.len(),
    ensures
        n <= t.len(),
        forall|i: int| 0 <= i < n ==> s[i] == t[i],
    decreases n,
{
    if n > 0 {
        lemma_ranking_prefix(paths, last, s, t, n - 1);
        lemma_ranking_no_duplicates(paths, last, s);
        lemma_ranking_no_duplicates(paths, last, t);
        // `x` stands in `t`, and not before `n - 1`, where `t` agrees with
        // `s`, in which `x` stands once.
        let x = s[n - 1];
        let j = choose|j: int| 0 <= j < t.len() && #[trigger] t[j] == x as int;
        assert(j >= n - 1);
        let y = t[n - 1];
        if y != x {
            // So `x` stands after `y` in `t`. In the same way `y` stands
            // after `x` in `s`: each would be preferred to the other.
            let k = choose|k: int| 0 <= k < s.len() && #[trigger] s[k] == y as int;
            assert(k > n - 1);
            assert(precedes(paths, last, y as int, x as int));
            assert(precedes(paths, last, x as int, y as int));
            lemma_rank_order(paths, last, x as int, y as int, x as int);
        }
    }
}

/// The paths that can be selected have exactly one ranking.
pub proof fn lemma_ranking_unique(
    paths: Seq<Path>,
    last: Option<usize>,
    s: Seq<usize>,
    t: Seq<usize>,
)
    requires
        is_ranking(paths, last, s),
        is_ranking(paths, last, t),
    ensures
        s == t,
{
    lemma_ranking_prefix(paths, last, s, t, s.len() as int);
    lemma_ranking_prefix(paths, last, t, s, t.len() as int);
    assert(s =~= t);
}

} // verus!
