//! Pure checks consulted by every change to the validator set: uniqueness and
//! the minimum count.

use crate::types::ValidatorId;
use vstd::prelude::*;

verus! {

/// What is left of `set` once every identifier that occurs in `ids` is taken
/// out of it. The survivors keep their order. Identifiers of `ids` that are
/// not in `set`, or that occur in `ids` more than once, make no difference.
pub open spec fn remaining(set: Seq<ValidatorId>, ids: Seq<ValidatorId>) -> Seq<ValidatorId> {
    set.filter(|v: ValidatorId| !ids.contains(v))
}

/// Whether removing `ids` from `set` is refused: the check is enabled and
/// fewer than `min_authorities` validators would be left.
pub open spec fn violates_min(
    set: Seq<ValidatorId>,
    ids: Seq<ValidatorId>,
    check_enabled: bool,
    min_authorities: u32,
) -> bool {
    check_enabled && remaining(set, ids).len() < min_authorities
}

/// Appending one identifier to the set appends it to what is left, unless it
/// is to be removed.
pub proof fn lemma_remaining_push(set: Seq<ValidatorId>, v: ValidatorId, ids: Seq<ValidatorId>)
    ensures
        remaining(set.push(v), ids) == if ids.contains(v) {
            remaining(set, ids)
        } else {
            remaining(set, ids).push(v)
        },
{
    set.lemma_filter_push(v, |x: ValidatorId| !ids.contains(x));
}

/// An identifier is left exactly when it was in the set and is not removed.
pub proof fn lemma_remaining_contains(set: Seq<ValidatorId>, ids: Seq<ValidatorId>, x: ValidatorId)
    ensures
        remaining(set, ids).contains(x) <==> set.contains(x) && !ids.contains(x),
    decreases set.len(),
{
    if set.len() == 0 {
        reveal(Seq::filter);
    } else {
        let front = set.drop_last();
        let last = set.last();
        assert(set =~= front.push(last));
        lemma_remaining_push(front, last, ids);
        lemma_remaining_contains(front, ids, x);
        let kept = remaining(front, ids);
        if set.contains(x) {
            let i = choose|i: int| 0 <= i < set.len() && set[i] == x;
            if i < front.len() {
                assert(front[i] == x);
            }
        }
        if front.contains(x) {
            let i = choose|i: int| 0 <= i < front.len() && front[i] == x;
            assert(set[i] == x);
        }
        if !ids.contains(last) {
            assert(kept.push(last)[kept.len() as int] == last);
            if kept.contains(x) {
                let i = choose|i: int| 0 <= i < kept.len() && kept[i] == x;
                assert(kept.push(last)[i] == x);
            }
        }
    }
}

/// Removal never introduces a duplicate.
pub proof fn lemma_remaining_no_duplicates(set: Seq<ValidatorId>, ids: Seq<ValidatorId>)
    requires
        set.no_duplicates(),
    ensures
        remaining(set, ids).no_duplicates(),
    decreases set.len(),
{
    if set.len() == 0 {
        reveal(Seq::filter);
    } else {
        let front = set.drop_last();
        let last = set.last();
        assert(set =~= front.push(last));
        lemma_remaining_push(front, last, ids);
        lemma_remaining_no_duplicates(front, ids);
        lemma_remaining_contains(front, ids, last);
        if front.contains(last) {
            let i = choose|i: int| 0 <= i < front.len() && front[i] == last;
            assert(set[i] == set[set.len() - 1]);
        }
    }
}

/// Removing identifiers none of which is in the set leaves the set as it is.
pub proof fn lemma_remaining_disjoint(set: Seq<ValidatorId>, ids: Seq<ValidatorId>)
    requires
        forall|i: int| 0 <= i < set.len() ==> !ids.contains(#[trigger] set[i]),
    ensures
        remaining(set, ids) == set,
    decreases set.len(),
{
    if set.len() == 0 {
        reveal(Seq::filter);
    } else {
        let front = set.drop_last();
        let last = set.last();
        assert(set =~= front.push(last));
        lemma_remaining_push(front, last, ids);
        assert forall|i: int| 0 <= i < front.len() implies !ids.contains(#[trigger] front[i]) by {
            assert(front[i] == set[i]);
        }
        lemma_remaining_disjoint(front, ids);
    }
}

/// In a set without duplicates, the number of validators left is the size of
/// the set less the number of distinct identifiers that the set and the
/// removal list share.
pub proof fn lemma_remaining_len(set: Seq<ValidatorId>, ids: Seq<ValidatorId>)
    requires
        set.no_duplicates(),
    ensures
        set.to_set().intersect(ids.to_set()).finite(),
        remaining(set, ids).len() == set.len() - set.to_set().intersect(ids.to_set()).len(),
    decreases set.len(),
{
    let shared = set.to_set().intersect(ids.to_set());
    if set.len() == 0 {
        reveal(Seq::filter);
        assert(shared =~= Set::<ValidatorId>::empty());
    } else {
        let front = set.drop_last();
        let last = set.last();
        assert(set =~= front.push(last));
        lemma_remaining_push(front, last, ids);
        lemma_remaining_len(front, ids);
        let front_shared = front.to_set().intersect(ids.to_set());
        assert(!front.contains(last)) by {
            if front.contains(last) {
                let i = choose|i: int| 0 <= i < front.len() && front[i] == last;
                assert(set[i] == set[set.len() - 1]);
            }
        }
        assert forall|x: ValidatorId| set.contains(x) <==> front.contains(x) || x == last by {
            if set.contains(x) {
                let i = choose|i: int| 0 <= i < set.len() && set[i] == x;
                if i < front.len() {
                    assert(front[i] == x);
                }
            }
            if front.contains(x) {
                let i = choose|i: int| 0 <= i < front.len() && front[i] == x;
                assert(set[i] == x);
            }
            assert(set[set.len() - 1] == last);
        }
        if ids.contains(last) {
            assert(shared =~= front_shared.insert(last));
        } else {
            assert(shared =~= front_shared);
        }
    }
}

/// Appending an identifier that the set does not hold keeps the set free of
/// duplicates.
pub proof fn lemma_push_no_duplicates(set: Seq<ValidatorId>, id: ValidatorId)
    requires
        set.no_duplicates(),
        !set.contains(id),
    ensures
        set.push(id).no_duplicates(),
{
    let grown = set.push(id);
    assert forall|i: int, j: int| 0 <= i < grown.len() && 0 <= j < grown.len() && i != j implies grown[i]
        != grown[j] by {
        if i < set.len() {
            assert(set[i] == grown[i]);
        }
        if j < set.len() {
            assert(set[j] == grown[j]);
        }
    }
}

/// Whether `id` is already a member of `set`.
pub fn is_duplicate(set: &Vec<ValidatorId>, id: ValidatorId) -> (found: bool)
    ensures
        found == set@.contains(id),
{
    let mut i: usize = 0;
    while i < set.len()
        invariant
            i <= set.len(),
            forall|j: int| 0 <= j < i ==> set@[j] != id,
        decreases set.len() - i,
    {
        if set[i] == id {
            return true;
        }
        i += 1;
    }
    false
}

/// Whether no identifier occurs in `set` twice.
pub fn is_unique(set: &Vec<ValidatorId>) -> (unique: bool)
    ensures
        unique == set@.no_duplicates(),
{
    let mut i: usize = 0;
    while i < set.len()
        invariant
            i <= set.len(),
            set@.take(i as int).no_duplicates(),
        decreases set.len() - i,
    {
        let mut j: usize = 0;
        while j < i
            invariant
                j <= i < set.len(),
                forall|k: int| 0 <= k < j ==> set@[k] != set@[i as int],
            decreases i - j,
        {
            if set[j] == set[i] {
                return false;
            }
            j += 1;
        }
        assert(set@.take(i + 1) =~= set@.take(i as int).push(set@[i as int]));
        i += 1;
    }
    assert(set@.take(set.len() as int) =~= set@);
    true
}

/// The validators of `set` that are not in `ids`, in their order in `set`.
pub fn retain_absent(set: &Vec<ValidatorId>, ids: &Vec<ValidatorId>) -> (kept: Vec<ValidatorId>)
    ensures
        kept@ == remaining(set@, ids@),
{
    let mut kept: Vec<ValidatorId> = Vec::new();
    let mut i: usize = 0;
    proof {
        reveal(Seq::filter);
        assert(set@.take(0) =~= Seq::<ValidatorId>::empty());
    }
    while i < set.len()
        invariant
            i <= set.len(),
            kept@ == remaining(set@.take(i as int), ids@),
        decreases set.len() - i,
    {
        let v: ValidatorId = set[i];
        proof {
            assert(set@.take(i + 1) =~= set@.take(i as int).push(v));
            lemma_remaining_push(set@.take(i as int), v, ids@);
        }
        if !is_duplicate(ids, v) {
            kept.push(v);
        }
        i += 1;
    }
    assert(set@.take(set.len() as int) =~= set@);
    kept
}

/// Whether removing `ids_to_remove` from `set` must be refused: the check is
/// enabled and fewer than `min_authorities` validators would be left. With the
/// check disabled nothing is ever refused.
pub fn would_violate_min(
    set: &Vec<ValidatorId>,
    ids_to_remove: &Vec<ValidatorId>,
    check_enabled: bool,
    min_authorities: u32,
) -> (violates: bool)
    ensures
        violates == violates_min(set@, ids_to_remove@, check_enabled, min_authorities),
{
    if !check_enabled {
        return false;
    }
    let mut left: usize = 0;
    let mut i: usize = 0;
    proof {
        reveal(Seq::filter);
        assert(set@.take(0) =~= Seq::<ValidatorId>::empty());
    }
    while i < set.len()
        invariant
            i <= set.len(),
            left <= i,
            left == remaining(set@.take(i as int), ids_to_remove@).len(),
        decreases set.len() - i,
    {
        let v: ValidatorId = set[i];
        proof {
            assert(set@.take(i + 1) =~= set@.take(i as int).push(v));
            lemma_remaining_push(set@.take(i as int), v, ids_to_remove@);
        }
        if !is_duplicate(ids_to_remove, v) {
            left += 1;
        }
        i += 1;
    }
    assert(set@.take(set.len() as int) =~= set@);
    left < min_authorities as usize
}

} // verus!
