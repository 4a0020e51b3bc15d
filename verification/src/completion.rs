//! The list of completed episodes: whether an episode is in it, and how a
//! successful "mark complete" or "mark incomplete" request changes it.

use vstd::prelude::*;

verus! {

/// The view of an optional list of episode identifiers.
pub open spec fn ids_view(c: &Option<Vec<i32>>) -> Option<Seq<i32>> {
    match c {
        Some(v) => Some(v@),
        None => None,
    }
}

/// Whether the (optional) list of completed episodes holds `id`; a missing
/// list holds nothing.
pub open spec fn completed_contains(c: Option<Seq<i32>>, id: i32) -> bool {
    match c {
        Some(v) => v.contains(id),
        None => false,
    }
}

/// The index of the first occurrence of `x` in `v` (the length of `v` when
/// there is none).
pub open spec fn first_index(v: Seq<i32>, x: i32) -> int
    decreases v.len(),
{
    if v.len() == 0 {
        0
    } else if v[0] == x {
        0
    } else {
        1 + first_index(v.drop_first(), x)
    }
}

/// The list of completed episodes after a successful request to mark `id`
/// complete or incomplete (the two behave alike): a missing list becomes the
/// list of `id` alone; otherwise the first occurrence of `id` is removed, or,
/// when there is none, `id` is appended.
pub open spec fn toggled(c: Option<Seq<i32>>, id: i32) -> Option<Seq<i32>> {
    match c {
        None => Some(seq![id]),
        Some(v) => if v.contains(id) {
            Some(v.remove(first_index(v, id)))
        } else {
            Some(v.push(id))
        },
    }
}

/// `id` occurs in `v` at most once.
pub open spec fn occurs_at_most_once(v: Seq<i32>, id: i32) -> bool {
    forall|i: int, j: int| 0 <= i < v.len() && 0 <= j < v.len() && v[i] == id && v[j] == id ==> i == j
}

/// The first index is the position before which `x` does not occur.
pub proof fn lemma_first_index_is(v: Seq<i32>, x: i32, i: int)
    requires
        0 <= i < v.len(),
        v[i] == x,
        forall|j: int| 0 <= j < i ==> v[j] != x,
    ensures
        first_index(v, x) == i,
    decreases i,
{
    if i > 0 {
        assert(v[0] != x);
        let rest = v.drop_first();
        assert forall|j: int| 0 <= j < i - 1 implies rest[j] != x by {
            assert(rest[j] == v[j + 1]);
        }
        lemma_first_index_is(rest, x, i - 1);
    }
}

/// Where `x` first occurs in `v`, when it occurs.
pub proof fn lemma_first_index_found(v: Seq<i32>, x: i32)
    requires
        v.contains(x),
    ensures
        0 <= first_index(v, x) < v.len(),
        v[first_index(v, x)] == x,
    decreases v.len(),
{
    if v[0] != x {
        let i = choose|i: int| 0 <= i < v.len() && v[i] == x;
        let rest = v.drop_first();
        assert(rest[i - 1] == x);
        lemma_first_index_found(rest, x);
    }
}

/// The position of the first occurrence of `id` in `v`, if there is one.
pub fn position_of(v: &Vec<i32>, id: i32) -> (r: Option<usize>)
    ensures
        match r {
            Some(p) => p < v@.len() && v@[p as int] == id && forall|j: int| 0 <= j < p ==> v@[j] != id,
            None => !v@.contains(id),
        },
{
    let mut i: usize = 0;
    while i < v.len()
        invariant
            i <= v@.len(),
            forall|j: int| 0 <= j < i ==> v@[j] != id,
        decreases v@.len() - i,
    {
        if v[i] == id {
            return Some(i);
        }
        i = i + 1;
    }
    None
}

/// Whether the episode `id` counts as completed: the list holds it. A missing
/// list counts as empty.
pub fn is_completed(completed: &Option<Vec<i32>>, id: i32) -> (r: bool)
    ensures
        r == completed_contains(ids_view(completed), id),
{
    match completed {
        Some(v) => position_of(v, id).is_some(),
        None => false,
    }
}

/// The list of completed episodes after a successful request to mark `id`
/// complete or incomplete.
pub fn toggle_completed(completed: Option<Vec<i32>>, id: i32) -> (r: Option<Vec<i32>>)
    ensures
        ids_view(&r) == toggled(ids_view(&completed), id),
{
    match completed {
        None => {
            let mut v: Vec<i32> = Vec::new();
            v.push(id);
            assert(v@ =~= seq![id]);
            Some(v)
        },
        Some(v) => {
            let mut v = v;
            let ghost before = v@;
            match position_of(&v, id) {
                Some(p) => {
                    proof {
                        lemma_first_index_is(before, id, p as int);
                    }
                    v.remove(p);
                },
                None => {
                    v.push(id);
                },
            }
            Some(v)
        },
    }
}

/// Law: how a completion request changes the list: a missing list becomes
/// the list of the episode alone; a list without the episode gets it
/// appended; otherwise the first occurrence, and only it, is taken out, the
/// rest keeping its order.
pub proof fn toggle_changes(v: Seq<i32>, id: i32, p: int)
    ensures
        toggled(None, id) == Some(seq![id]),
        !v.contains(id) ==> toggled(Some(v), id) == Some(v.push(id)),
        0 <= p < v.len() && v[p] == id && (forall|j: int| 0 <= j < p ==> v[j] != id) ==> ({
            let w = toggled(Some(v), id)->0;
            &&& toggled(Some(v), id) is Some
            &&& w.len() == v.len() - 1
            &&& forall|k: int| 0 <= k < p ==> w[k] == v[k]
            &&& forall|k: int| p <= k < w.len() ==> w[k] == v[k + 1]
        }),
{
    if 0 <= p < v.len() && v[p] == id && (forall|j: int| 0 <= j < p ==> v[j] != id) {
        lemma_first_index_is(v, id, p);
        assert(v.contains(id));
    }
}

/// Law: marking an episode that is not in the list and then marking it again
/// gives back the list as it was.
pub proof fn toggle_twice_restores(v: Seq<i32>, id: i32)
    requires
        !v.contains(id),
    ensures
        toggled(toggled(Some(v), id), id) == Some(v),
{
    let w = v.push(id);
    assert(w[v.len() as int] == id);
    assert(w.contains(id));
    assert forall|j: int| 0 <= j < v.len() implies w[j] != id by {
        assert(w[j] == v[j]);
    }
    lemma_first_index_is(w, id, v.len() as int);
    assert(w.remove(v.len() as int) =~= v);
}

/// Law: a successful completion request flips whether the episode counts as
/// completed, as long as the list holds it at most once.
pub proof fn toggle_flips_completion(c: Option<Seq<i32>>, id: i32)
    requires
        c matches Some(v) ==> occurs_at_most_once(v, id),
    ensures
        completed_contains(toggled(c, id), id) == !completed_contains(c, id),
{
    match c {
        None => {
            assert(seq![id][0] == id);
        },
        Some(v) => {
            if v.contains(id) {
                lemma_first_index_found(v, id);
                let p = first_index(v, id);
                let w = v.remove(p);
                assert forall|k: int| 0 <= k < w.len() implies w[k] != id by {
                    if k < p {
                        assert(w[k] == v[k]);
                    } else {
                        assert(w[k] == v[k + 1]);
                    }
                }
            } else {
                let w = v.push(id);
                assert(w[v.len() as int] == id);
            }
        },
    }
}

/// Law: a list without repetitions stays without repetitions through a
/// successful completion request.
pub proof fn toggle_keeps_distinct(c: Option<Seq<i32>>, id: i32)
    requires
        c matches Some(v) ==> v.no_duplicates(),
    ensures
        toggled(c, id)->0.no_duplicates(),
{
    match c {
        None => {
        },
        Some(v) => {
            if v.contains(id) {
                lemma_first_index_found(v, id);
                let p = first_index(v, id);
                let w = v.remove(p);
                assert forall|i: int, j: int| 0 <= i < w.len() && 0 <= j < w.len() && i != j implies w[i] != w[j] by {
                    let a = if i < p { i } else { i + 1 };
                    let b = if j < p { j } else { j + 1 };
                    assert(w[i] == v[a]);
                    assert(w[j] == v[b]);
                }
            } else {
                let w = v.push(id);
                assert forall|i: int, j: int| 0 <= i < w.len() && 0 <= j < w.len() && i != j implies w[i] != w[j] by {
                    if i < v.len() && j < v.len() {
                        assert(w[i] == v[i]);
                        assert(w[j] == v[j]);
                    } else if i < v.len() {
                        assert(w[i] == v[i]);
                    } else {
                        assert(w[j] == v[j]);
                    }
                }
            }
        },
    }
}

} // verus!
