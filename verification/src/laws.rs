//! What holds of every filter, stated over the model and proved.

use vstd::prelude::*;
use crate::model::FilterView;
use crate::rate::is_proper_rate;
use crate::sizing::lemma_sizing_bounds;

verus! {

/// A filter constructed from a positive capacity and a proper rate is well
/// formed, has at least one bit and probes at least once per element.
pub proof fn lemma_empty_is_well_formed(n: u32, p: u32, scaled: u64, salt: Option<u32>)
    requires
        n > 0,
        is_proper_rate(p),
        scaled < u64::MAX,
    ensures
        FilterView::empty(n, p, scaled, salt).wf(),
        FilterView::empty(n, p, scaled, salt).m == scaled + 1,
        FilterView::empty(n, p, scaled, salt).k >= 1,
{
    lemma_sizing_bounds(n, scaled);
}

/// Every probe of a well-formed filter falls inside its bit array.
pub proof fn lemma_position_in_range(filter: FilterView, hash: u64, i: int)
    requires
        filter.wf(),
        i >= 0,
    ensures
        0 <= filter.position(hash, i) < filter.bits.len(),
{
}

/// Inserting changes no parameter and keeps a well-formed filter well formed.
pub proof fn lemma_insert_keeps_shape(filter: FilterView, hash: u64)
    requires
        filter.wf(),
    ensures
        filter.insert(hash).wf(),
        filter.insert(hash).n == filter.n,
        filter.insert(hash).p == filter.p,
        filter.insert(hash).m == filter.m,
        filter.insert(hash).k == filter.k,
        filter.insert(hash).salt == filter.salt,
{
}

/// A bit that is set stays set through an insertion: only clearing the whole
/// filter resets it.
pub proof fn lemma_insert_keeps_bits(filter: FilterView, hash: u64, j: int)
    requires
        0 <= j < filter.bits.len(),
        filter.bits[j],
    ensures
        filter.insert(hash).bits[j],
{
}

/// An element is a member right after it was inserted.
pub proof fn lemma_inserted_is_member(filter: FilterView, hash: u64)
    requires
        filter.wf(),
    ensures
        filter.insert(hash).member(hash),
{
    let after = filter.insert(hash);
    assert forall|i: int| 1 <= i <= after.k implies after.bits[#[trigger] after.position(
        hash,
        i,
    )] by {
        lemma_position_in_range(filter, hash, i);
        assert(filter.position(hash, i) == after.position(hash, i));
        assert(filter.is_probed_within(hash, filter.position(hash, i), filter.k as int));
    }
}

/// A member stays a member when another element is inserted.
pub proof fn lemma_member_survives_insert(filter: FilterView, element: u64, other: u64)
    requires
        filter.wf(),
        filter.member(element),
    ensures
        filter.insert(other).member(element),
{
    let after = filter.insert(other);
    assert forall|i: int| 1 <= i <= after.k implies after.bits[#[trigger] after.position(
        element,
        i,
    )] by {
        lemma_position_in_range(filter, element, i);
        assert(filter.position(element, i) == after.position(element, i));
        assert(filter.bits[filter.position(element, i)]);
    }
}

/// Inserting a sequence of elements keeps a well-formed filter well formed.
pub proof fn lemma_insert_all_keeps_shape(filter: FilterView, hashes: Seq<u64>)
    requires
        filter.wf(),
    ensures
        filter.insert_all(hashes).wf(),
    decreases hashes.len(),
{
    if hashes.len() > 0 {
        lemma_insert_all_keeps_shape(filter, hashes.drop_last());
        lemma_insert_keeps_shape(filter.insert_all(hashes.drop_last()), hashes.last());
    }
}

/// A member stays a member however many elements are inserted afterwards.
pub proof fn lemma_member_survives_inserts(filter: FilterView, element: u64, later: Seq<u64>)
    requires
        filter.wf(),
        filter.member(element),
    ensures
        filter.insert_all(later).member(element),
    decreases later.len(),
{
    if later.len() > 0 {
        lemma_member_survives_inserts(filter, element, later.drop_last());
        lemma_insert_all_keeps_shape(filter, later.drop_last());
        lemma_member_survives_insert(filter.insert_all(later.drop_last()), element, later.last());
    }
}

/// No false negatives: an element that was inserted is reported as a member,
/// whatever was inserted after it, as long as the filter is not cleared.
pub proof fn lemma_no_false_negatives(filter: FilterView, element: u64, later: Seq<u64>)
    requires
        filter.wf(),
    ensures
        filter.insert(element).insert_all(later).member(element),
{
    lemma_inserted_is_member(filter, element);
    lemma_insert_keeps_shape(filter, element);
    lemma_member_survives_inserts(filter.insert(element), element, later);
}

/// Inserting an element a second time changes nothing: the filter is the one
/// that the first insertion left.
pub proof fn lemma_insert_is_idempotent(filter: FilterView, hash: u64)
    requires
        filter.wf(),
    ensures
        filter.insert(hash).insert(hash) == filter.insert(hash),
{
    let once = filter.insert(hash);
    let twice = once.insert(hash);
    assert forall|j: int| 0 <= j < once.bits.len() implies twice.bits[j] == once.bits[j] by {
        assert(once.is_probed(hash, j) == filter.is_probed(hash, j)) by {
            assert forall|i: int|
                once.position(hash, i) == #[trigger] filter.position(hash, i) by {}
            if once.is_probed(hash, j) {
                let i = choose|i: int|
                    1 <= i <= once.k && #[trigger] once.position(hash, i) == j;
                assert(filter.position(hash, i) == j);
            }
            if filter.is_probed(hash, j) {
                let i = choose|i: int|
                    1 <= i <= filter.k && #[trigger] filter.position(hash, i) == j;
                assert(once.position(hash, i) == j);
            }
        }
    }
    assert(twice.bits =~= once.bits);
}

/// Clearing leaves the filter as it was constructed, and a cleared filter
/// reports no element as a member.
pub proof fn lemma_clear_empties(filter: FilterView, hash: u64)
    requires
        filter.wf(),
    ensures
        filter.clear() == FilterView::empty(
            filter.n,
            filter.p,
            (filter.m - 1) as u64,
            filter.salt,
        ),
        filter.clear().wf(),
        !filter.clear().member(hash),
{
    let cleared = filter.clear();
    let fresh = FilterView::empty(filter.n, filter.p, (filter.m - 1) as u64, filter.salt);
    assert(cleared.bits =~= fresh.bits);
    lemma_position_in_range(cleared, hash, 1);
    assert(!cleared.bits[cleared.position(hash, 1)]);
}

/// Determinism: two well-formed filters with the same capacity, rate, size
/// and salt whose bits agree are the same filter, and stay the same through
/// the same insertions; so they give the same answer to every membership
/// query.
pub proof fn lemma_same_history_same_answers(
    a: FilterView,
    b: FilterView,
    hashes: Seq<u64>,
    query: u64,
)
    requires
        a.wf(),
        b.wf(),
        a.n == b.n,
        a.p == b.p,
        a.m == b.m,
        a.salt == b.salt,
        a.bits == b.bits,
    ensures
        a == b,
        a.insert_all(hashes) == b.insert_all(hashes),
        a.insert_all(hashes).member(query) == b.insert_all(hashes).member(query),
{
}

} // verus!
