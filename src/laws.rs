use vstd::prelude::*;

use crate::ledger::{
    ids_below_counter, is_live, not_expired, owner_alive, pruned, stack_extent, without_id,
    StackEntry, StackState,
};

verus! {

broadcast use vstd::seq_lib::group_seq_properties, vstd::seq_lib::group_filter_ensures;

proof fn lemma_filter_twice(s: Seq<StackEntry>, p: spec_fn(StackEntry) -> bool)
    ensures
        s.filter(p).filter(p) == s.filter(p),
    decreases s.len(),
{
    if s.len() > 0 {
        let init = s.drop_last();
        lemma_filter_twice(init, p);
        assert(s == init.push(s.last()));
        init.lemma_filter_push(s.last(), p);
        init.filter(p).lemma_filter_push(s.last(), p);
    }
}

/// The offset over a ledger splits along any partition of its entries: what the
/// entries satisfying `p` take, plus what the others take.
pub proof fn lemma_stack_extent_partition(
    entries: Seq<StackEntry>,
    key: Seq<char>,
    below: Option<u64>,
    p: spec_fn(StackEntry) -> bool,
)
    ensures
        stack_extent(entries, key, below) == stack_extent(entries.filter(p), key, below)
            + stack_extent(entries.filter(|e: StackEntry| !p(e)), key, below),
    decreases entries.len(),
{
    let q = |e: StackEntry| !p(e);
    if entries.len() > 0 {
        let init = entries.drop_last();
        let last = entries.last();
        lemma_stack_extent_partition(init, key, below, p);
        assert(entries == init.push(last));
        init.lemma_filter_push(last, p);
        init.lemma_filter_push(last, q);
        if p(last) {
            assert(init.filter(p).push(last).drop_last() == init.filter(p));
        } else {
            assert(init.filter(q).push(last).drop_last() == init.filter(q));
        }
    }
}

/// Stacks are independent: the offset in stack `key` is the same whether or not
/// the ledger holds entries of other stacks.
pub proof fn lemma_offset_ignores_other_stacks(
    entries: Seq<StackEntry>,
    key: Seq<char>,
    below: Option<u64>,
)
    ensures
        stack_extent(entries, key, below) == stack_extent(
            entries.filter(|e: StackEntry| e.position@ == key),
            key,
            below,
        ),
{
    let p = |e: StackEntry| e.position@ == key;
    lemma_stack_extent_partition(entries, key, below, p);
    lemma_no_counting_entries(entries.filter(|e: StackEntry| !p(e)), key, below);
}

proof fn lemma_no_counting_entries(entries: Seq<StackEntry>, key: Seq<char>, below: Option<u64>)
    requires
        forall|i: int| 0 <= i < entries.len() ==> entries[i].position@ != key,
    ensures
        stack_extent(entries, key, below) == 0,
    decreases entries.len(),
{
    if entries.len() > 0 {
        lemma_no_counting_entries(entries.drop_last(), key, below);
    }
}

/// Releasing a reservation lowers every offset in its stack by exactly the room
/// that the released entries took, and changes no other offset.
pub proof fn lemma_release_shifts_offsets(
    entries: Seq<StackEntry>,
    key: Seq<char>,
    below: Option<u64>,
    id: u64,
)
    ensures
        stack_extent(without_id(entries, id), key, below) == stack_extent(entries, key, below)
            - stack_extent(entries.filter(|e: StackEntry| e.id == id), key, below),
{
    let p = |e: StackEntry| e.id == id;
    lemma_stack_extent_partition(entries, key, below, p);
    assert(entries.filter(|e: StackEntry| !p(e)) == without_id(entries, id)) by {
        assert((|e: StackEntry| !p(e)) == (|e: StackEntry| e.id != id));
    }
}

/// Right after a reservation, the offset that the poller computes for the new
/// lease is the offset the reservation handed out, provided every id already in
/// the ledger is below the new one.
pub proof fn lemma_poll_matches_reservation(
    live: Seq<StackEntry>,
    key: Seq<char>,
    new_entry: StackEntry,
)
    requires
        forall|i: int| 0 <= i < live.len() ==> live[i].id < new_entry.id,
    ensures
        stack_extent(live.push(new_entry), key, Some(new_entry.id)) == stack_extent(
            live,
            key,
            None,
        ),
    decreases live.len(),
{
    assert(live.push(new_entry).drop_last() == live);
    lemma_below_bound_is_unbounded(live, key, new_entry.id);
}

/// The offset a reservation hands out is the one the poller computes for its
/// lease right after: in a ledger whose ids are all below the counter, the
/// room taken by the live entries of the stack that came before the new id.
pub proof fn lemma_reservation_matches_poll(
    state: StackState,
    now: u64,
    dead: Seq<u32>,
    key: Seq<char>,
    new_entry: StackEntry,
)
    requires
        ids_below_counter(state),
        new_entry.id == state.next_id,
    ensures
        stack_extent(pruned(state.entries@, now, dead).push(new_entry), key, Some(new_entry.id))
            == stack_extent(pruned(state.entries@, now, dead), key, None),
{
    let live = pruned(state.entries@, now, dead);
    assert forall|i: int| 0 <= i < live.len() implies live[i].id < new_entry.id by {
        state.entries@.lemma_filter_contains_rev(|x: StackEntry| is_live(x, now, dead), live[i]);
    }
    lemma_poll_matches_reservation(live, key, new_entry);
}

proof fn lemma_below_bound_is_unbounded(entries: Seq<StackEntry>, key: Seq<char>, bound: u64)
    requires
        forall|i: int| 0 <= i < entries.len() ==> entries[i].id < bound,
    ensures
        stack_extent(entries, key, Some(bound)) == stack_extent(entries, key, None),
    decreases entries.len(),
{
    if entries.len() > 0 {
        lemma_below_bound_is_unbounded(entries.drop_last(), key, bound);
    }
}

/// Releasing removes every entry with the lease's id and keeps every other one;
/// releasing the same id again changes nothing.
pub proof fn lemma_release_exact(entries: Seq<StackEntry>, id: u64)
    ensures
        forall|i: int| 0 <= i < entries.len() && entries[i].id != id ==> without_id(entries, id).contains(entries[i]),
        forall|e: StackEntry| without_id(entries, id).contains(e) ==> e.id != id && entries.contains(e),
        without_id(without_id(entries, id), id) == without_id(entries, id),
{
    let p = |e: StackEntry| e.id != id;
    lemma_filter_twice(entries, p);
    assert forall|e: StackEntry| without_id(entries, id).contains(e) implies e.id != id
        && entries.contains(e) by {
        entries.lemma_filter_contains_rev(p, e);
        let k = choose|k: int| 0 <= k < without_id(entries, id).len() && without_id(entries, id)[k] == e;
        entries.lemma_filter_pred(p, k);
    }
}

/// Pruning twice at the same time, with the same gone owners, prunes nothing more.
pub proof fn lemma_prune_idempotent(entries: Seq<StackEntry>, now: u64, dead: Seq<u32>)
    ensures
        pruned(pruned(entries, now, dead), now, dead) == pruned(entries, now, dead),
{
    lemma_filter_twice(entries, |e: StackEntry| is_live(e, now, dead));
}

/// An entry leaves the ledger on pruning once its deadline has passed, and an
/// entry without deadline (0) is never dropped for time, whatever `now` is.
pub proof fn lemma_prune_expiry(entries: Seq<StackEntry>, e: StackEntry, now: u64, dead: Seq<u32>)
    ensures
        e.expires_at != 0 && e.expires_at <= now ==> !pruned(entries, now, dead).contains(e),
        entries.contains(e) && e.expires_at == 0 && owner_alive(e, dead) ==> pruned(
            entries,
            now,
            dead,
        ).contains(e),
{
    lemma_prune_keeps_exactly_live(entries, e, now, dead);
}

/// An entry whose owner is gone leaves the ledger on pruning, and an entry owned
/// by no process (0) is never dropped for liveness.
pub proof fn lemma_prune_liveness(entries: Seq<StackEntry>, e: StackEntry, now: u64, dead: Seq<u32>)
    ensures
        e.pid != 0 && dead.contains(e.pid) ==> !pruned(entries, now, dead).contains(e),
        entries.contains(e) && e.pid == 0 && not_expired(e, now) ==> pruned(
            entries,
            now,
            dead,
        ).contains(e),
{
    lemma_prune_keeps_exactly_live(entries, e, now, dead);
}

proof fn lemma_prune_keeps_exactly_live(entries: Seq<StackEntry>, e: StackEntry, now: u64, dead: Seq<u32>)
    ensures
        pruned(entries, now, dead).contains(e) <==> entries.contains(e) && is_live(e, now, dead),
{
    let p = |x: StackEntry| is_live(x, now, dead);
    let out = pruned(entries, now, dead);
    if out.contains(e) {
        entries.lemma_filter_contains_rev(p, e);
        let k = choose|k: int| 0 <= k < out.len() && out[k] == e;
        entries.lemma_filter_pred(p, k);
    }
    if entries.contains(e) && is_live(e, now, dead) {
        let k = choose|k: int| 0 <= k < entries.len() && entries[k] == e;
        entries.lemma_filter_contains(p, k);
    }
}

} // verus!
