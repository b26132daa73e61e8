//! The nearest-hit choice of the scene query.
//!
//! Each primitive of the scene answers a ray with its own nearest hit, or
//! none. Hits are compared by an order key: an integer that orders as the hit
//! distances along the ray do. The scene keeps, in one pass, the hit whose key
//! is smallest among those strictly below an upper bound, and of equal keys the
//! first one met: a candidate replaces the current best only when it is
//! strictly nearer.
use vstd::prelude::*;

verus! {

/// Slot `i` holds a hit whose key lies strictly below `bound`.
pub open spec fn is_candidate(keys: Seq<Option<u32>>, bound: u32, i: int) -> bool {
    0 <= i < keys.len() && keys[i] is Some && keys[i]->0 < bound
}

/// Some slot holds a hit below `bound`.
pub open spec fn has_candidate(keys: Seq<Option<u32>>, bound: u32) -> bool {
    exists|i: int| is_candidate(keys, bound, i)
}

/// Slot `i` holds the nearest hit below `bound`: no candidate is nearer, and
/// every earlier candidate is strictly farther.
pub open spec fn is_nearest(keys: Seq<Option<u32>>, bound: u32, i: int) -> bool {
    &&& is_candidate(keys, bound, i)
    &&& forall|j: int| #[trigger]
        is_candidate(keys, bound, j) ==> keys[i]->0 <= keys[j]->0
    &&& forall|j: int|
        0 <= j < i && #[trigger] is_candidate(keys, bound, j) ==> keys[i]->0 < keys[j]->0
}

/// Returns the slot of the nearest hit below `bound`, scanning the slots in
/// order with a window that shrinks to the best key found so far; `None` when
/// no slot holds a hit below `bound`.
pub fn nearest_hit(keys: &Vec<Option<u32>>, bound: u32) -> (r: Option<usize>)
    ensures
        r is None <==> !has_candidate(keys@, bound),
        r matches Some(i) ==> is_nearest(keys@, bound, i as int),
{
    let mut best: Option<usize> = None;
    let mut closest: u32 = bound;
    let mut i: usize = 0;
    while i < keys.len()
        invariant
            i <= keys@.len(),
            best is None ==> closest == bound,
            best is None ==> forall|j: int| 0 <= j < i ==> !is_candidate(keys@, bound, j),
            best matches Some(b) ==> {
                &&& b < i
                &&& is_candidate(keys@, bound, b as int)
                &&& closest == keys@[b as int]->0
                &&& forall|j: int|
                    0 <= j < i && #[trigger] is_candidate(keys@, bound, j) ==> closest
                        <= keys@[j]->0
                &&& forall|j: int|
                    0 <= j < b && #[trigger] is_candidate(keys@, bound, j) ==> closest
                        < keys@[j]->0
            },
        decreases keys@.len() - i,
    {
        if let Some(k) = keys[i] {
            if k < closest {
                best = Some(i);
                closest = k;
            }
        }
        i = i + 1;
    }
    proof {
        if best is None {
            assert forall|j: int| !is_candidate(keys@, bound, j) by {
                if 0 <= j < keys@.len() {
                }
            }
        }
    }
    best
}

/// Of two hits below the bound, the farther one is never the nearest: when
/// slot `near` holds a strictly smaller key than slot `far`, the scene query
/// does not answer with `far`.
pub proof fn lemma_farther_hit_never_chosen(
    keys: Seq<Option<u32>>,
    bound: u32,
    near: int,
    far: int,
    chosen: int,
)
    requires
        is_candidate(keys, bound, near),
        is_candidate(keys, bound, far),
        keys[near]->0 < keys[far]->0,
        is_nearest(keys, bound, chosen),
    ensures
        chosen != far,
        keys[chosen]->0 <= keys[near]->0,
{
}

/// The nearest hit is unique: two slots that both meet `is_nearest` are the
/// same slot, so the scene query's answer is determined by the keys.
pub proof fn lemma_nearest_unique(keys: Seq<Option<u32>>, bound: u32, i: int, j: int)
    requires
        is_nearest(keys, bound, i),
        is_nearest(keys, bound, j),
    ensures
        i == j,
{
}

} // verus!
