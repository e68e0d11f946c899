use vstd::prelude::*;
use vstd::string::StrSliceExecFns;

use crate::placement::{position_key, position_key_spec, Position};
use crate::text::{trim, trim_text};

verus! {

broadcast use vstd::seq_lib::group_seq_properties;

/// One visible notification, as recorded in the shared ledger.
#[derive(Debug)]
pub struct StackEntry {
    pub id: u64,
    pub position: String,
    pub height: i32,
    pub gap: i32,
    pub expires_at: u64,
    pub created_at: u64,
    pub pid: u32,
    pub name: Option<String>,
    pub class: Option<String>,
    pub summary: String,
}

/// The ledger: the id counter and the entries in insertion order.
#[derive(Debug)]
pub struct StackState {
    pub next_id: u64,
    pub entries: Vec<StackEntry>,
}

/// A held reservation: the entry's id and its stacking class.
#[derive(Debug)]
pub struct StackGuard {
    pub id: u64,
    pub position: String,
}

/// Which entries an external `clear` removes.
#[derive(Debug)]
pub enum ClearSelector {
    Id(u64),
    Name(String),
    Class(String),
}

/// What a signal sent to an owner process reported.
#[derive(Clone, Copy, Debug, PartialEq, Eq, Structural)]
pub enum ProbeOutcome {
    Delivered,
    PermissionDenied,
    NoSuchProcess,
    Failed,
}

fn copy_text(t: &Option<String>) -> (r: Option<String>)
    ensures
        r == *t,
{
    match t {
        Some(s) => Some(s.clone()),
        None => None,
    }
}

impl Clone for StackEntry {
    fn clone(&self) -> (r: Self)
        ensures
            r == *self,
    {
        StackEntry {
            id: self.id,
            position: self.position.clone(),
            height: self.height,
            gap: self.gap,
            expires_at: self.expires_at,
            created_at: self.created_at,
            pid: self.pid,
            name: copy_text(&self.name),
            class: copy_text(&self.class),
            summary: self.summary.clone(),
        }
    }
}

impl Default for StackState {
    fn default() -> (r: Self)
        ensures
            r.next_id == 1,
            r.entries@.len() == 0,
    {
        StackState { next_id: 1, entries: Vec::new() }
    }
}

/// The room an entry takes in its stack: its extent plus the gap after it.
pub open spec fn extent(e: StackEntry) -> int {
    e.height as int + e.gap as int
}

pub open spec fn not_expired(e: StackEntry, now: u64) -> bool {
    e.expires_at == 0 || e.expires_at > now
}

/// Owner 0 stands for no process and is always taken as alive.
pub open spec fn owner_alive(e: StackEntry, dead: Seq<u32>) -> bool {
    e.pid == 0 || !dead.contains(e.pid)
}

pub open spec fn is_live(e: StackEntry, now: u64, dead: Seq<u32>) -> bool {
    not_expired(e, now) && owner_alive(e, dead)
}

/// The entries that survive pruning at `now`, given the owner pids known to be gone.
pub open spec fn pruned(entries: Seq<StackEntry>, now: u64, dead: Seq<u32>) -> Seq<StackEntry> {
    entries.filter(|e: StackEntry| is_live(e, now, dead))
}

pub open spec fn without_id(entries: Seq<StackEntry>, id: u64) -> Seq<StackEntry> {
    entries.filter(|e: StackEntry| e.id != id)
}

/// Whether an entry sits in stack `key` and, when a bound is given, was reserved
/// before the id `below`.
pub open spec fn counts_toward(e: StackEntry, key: Seq<char>, below: Option<u64>) -> bool {
    e.position@ == key && match below {
        Some(b) => e.id < b,
        None => true,
    }
}

/// The sum of `height + gap` over the entries that count toward stack `key`.
pub open spec fn stack_extent(entries: Seq<StackEntry>, key: Seq<char>, below: Option<u64>) -> int
    decreases entries.len(),
{
    if entries.len() == 0 {
        0
    } else {
        stack_extent(entries.drop_last(), key, below) + if counts_toward(
            entries.last(),
            key,
            below,
        ) {
            extent(entries.last())
        } else {
            0
        }
    }
}

/// Every id in the ledger was handed out before the counter's current value.
pub open spec fn ids_below_counter(state: StackState) -> bool {
    forall|i: int| 0 <= i < state.entries@.len() ==> #[trigger] state.entries@[i].id < state.next_id
}

pub open spec fn fits_i32(v: int) -> bool {
    i32::MIN <= v <= i32::MAX
}

pub open spec fn offset_result(v: int) -> Option<i32> {
    if fits_i32(v) {
        Some(v as i32)
    } else {
        None
    }
}

pub open spec fn selects(e: StackEntry, selector: ClearSelector) -> bool {
    match selector {
        ClearSelector::Id(id) => e.id == id,
        ClearSelector::Name(n) => e.name is Some && e.name->0@ == n@,
        ClearSelector::Class(c) => e.class is Some && e.class->0@ == c@,
    }
}

pub open spec fn saturating_add_spec(a: u64, b: u64) -> u64 {
    if a + b > u64::MAX {
        u64::MAX
    } else {
        (a + b) as u64
    }
}

/// Relies on `SystemTime::elapsed` (of the Unix epoch): the wall clock in
/// milliseconds since the epoch, or 0 for a clock set before it. Nothing is
/// promised of the value.
#[verifier::external_body]
pub fn now_millis() -> u64 {
    std::time::UNIX_EPOCH.elapsed().map(|d| d.as_millis() as u64).unwrap_or(0)
}

/// Whether the owner of an entry counts as running, given what a null signal to
/// it reported: only "no such process" means gone, and owner 0 is never probed.
pub fn process_alive(pid: u32, probe: ProbeOutcome) -> (r: bool)
    ensures
        r == (pid == 0 || probe != ProbeOutcome::NoSuchProcess),
{
    if pid == 0 {
        return true;
    }
    match probe {
        ProbeOutcome::NoSuchProcess => false,
        _ => true,
    }
}

/// Whether a termination signal to an owner counts as done: an owner that is
/// already gone is no failure, and owner 0 is never signalled.
pub fn termination_ok(pid: u32, outcome: ProbeOutcome) -> (r: bool)
    ensures
        r == (pid == 0 || outcome == ProbeOutcome::Delivered || outcome
            == ProbeOutcome::NoSuchProcess),
{
    if pid == 0 {
        return true;
    }
    match outcome {
        ProbeOutcome::Delivered => true,
        ProbeOutcome::NoSuchProcess => true,
        _ => false,
    }
}

fn pid_listed(pids: &Vec<u32>, pid: u32) -> (r: bool)
    ensures
        r == pids@.contains(pid),
{
    let mut i: usize = 0;
    while i < pids.len()
        invariant
            0 <= i <= pids.len(),
            forall|j: int| 0 <= j < i ==> pids@[j] != pid,
        decreases pids.len() - i,
    {
        if pids[i] == pid {
            return true;
        }
        i += 1;
    }
    false
}

fn entry_live(e: &StackEntry, now: u64, dead: &Vec<u32>) -> (r: bool)
    ensures
        r == is_live(*e, now, dead@),
{
    let fresh = e.expires_at == 0 || e.expires_at > now;
    fresh && (e.pid == 0 || !pid_listed(dead, e.pid))
}

fn live_entries(entries: &Vec<StackEntry>, now: u64, dead: &Vec<u32>) -> (r: Vec<StackEntry>)
    ensures
        r@ == pruned(entries@, now, dead@),
{
    let ghost live = |e: StackEntry| is_live(e, now, dead@);
    let mut kept: Vec<StackEntry> = Vec::new();
    let mut i: usize = 0;
    while i < entries.len()
        invariant
            0 <= i <= entries.len(),
            live == (|e: StackEntry| is_live(e, now, dead@)),
            kept@ == entries@.subrange(0, i as int).filter(live),
        decreases entries.len() - i,
    {
        let e = &entries[i];
        proof {
            assert(entries@.subrange(0, i + 1) == entries@.subrange(0, i as int).push(*e));
            entries@.subrange(0, i as int).lemma_filter_push(*e, live);
        }
        if entry_live(e, now, dead) {
            kept.push(e.clone());
        }
        i += 1;
    }
    assert(entries@.subrange(0, entries@.len() as int) == entries@);
    kept
}

/// Removes every entry that has expired at `now` or whose owner is among `dead`.
pub fn prune_entries(state: &mut StackState, now: u64, dead: &Vec<u32>)
    ensures
        final(state).next_id == old(state).next_id,
        final(state).entries@ == pruned(old(state).entries@, now, dead@),
{
    state.entries = live_entries(&state.entries, now, dead);
}

fn entry_counts(e: &StackEntry, key: &String, below: Option<u64>) -> (r: bool)
    ensures
        r == counts_toward(*e, key@, below),
{
    let same = e.position == *key;
    match below {
        Some(b) => same && e.id < b,
        None => same,
    }
}

/// The stacking offset over `entries`: `stack_extent`, when it fits an `i32`.
fn sum_extent(entries: &Vec<StackEntry>, key: &String, below: Option<u64>) -> (r: Option<i32>)
    ensures
        r == offset_result(stack_extent(entries@, key@, below)),
{
    let mut acc: i128 = 0;
    let mut i: usize = 0;
    while i < entries.len()
        invariant
            0 <= i <= entries.len(),
            acc == stack_extent(entries@.subrange(0, i as int), key@, below),
            -(i as int) * 0x1_0000_0000 <= acc <= (i as int) * 0x1_0000_0000,
        decreases entries.len() - i,
    {
        let e = &entries[i];
        proof {
            assert(entries@.subrange(0, i + 1).drop_last() == entries@.subrange(0, i as int));
        }
        if entry_counts(e, key, below) {
            acc = acc + (e.height as i128) + (e.gap as i128);
        }
        i += 1;
    }
    assert(entries@.subrange(0, entries@.len() as int) == entries@);
    if acc < -2147483648 || acc > 2147483647 {
        None
    } else {
        Some(acc as i32)
    }
}

/// The entry a reservation appends: the new id in class `key`, created at `now`.
pub open spec fn reserved_entry(
    e: StackEntry,
    id: u64,
    key: Seq<char>,
    height: i32,
    gap: i32,
    now: u64,
    timeout_ms: u64,
    pid: u32,
    name: Option<String>,
    class: Option<String>,
    summary: String,
) -> bool {
    &&& e.id == id
    &&& e.position@ == key
    &&& e.height == height
    &&& e.gap == gap
    &&& e.expires_at == saturating_add_spec(now, timeout_ms)
    &&& e.created_at == now
    &&& e.pid == pid
    &&& e.name == name
    &&& e.class == class
    &&& e.summary == summary
}

/// Whether a reservation can be made: a notification that never times out is
/// not stacked, the offset must fit an `i32`, and the id counter must not be spent.
pub open spec fn can_reserve(live: Seq<StackEntry>, key: Seq<char>, next_id: u64, timeout_ms: u64) -> bool {
    timeout_ms > 0 && fits_i32(stack_extent(live, key, None)) && next_id < u64::MAX
}

proof fn lemma_pruned_ids_below(before: StackState, after: StackState)
    requires
        after.next_id == before.next_id,
        exists|now: u64, dead: Seq<u32>| after.entries@ == pruned(before.entries@, now, dead),
    ensures
        ids_below_counter(before) ==> ids_below_counter(after),
{
    let (now, dead) = choose|now: u64, dead: Seq<u32>| after.entries@ == pruned(before.entries@, now, dead);
    if ids_below_counter(before) {
        assert forall|i: int| 0 <= i < after.entries@.len() implies #[trigger] after.entries@[i].id < after.next_id by {
            let e = after.entries@[i];
            before.entries@.lemma_filter_contains_rev(|x: StackEntry| is_live(x, now, dead), e);
        }
    }
}

/// Prunes the ledger, then reserves a place for a notification at `position`.
/// The offset is the room taken by the live entries already in that stack; the
/// new entry gets the next id and expires `timeout_ms` after `now` (saturating).
/// Where no reservation can be made the ledger is only pruned.
pub fn reserve_stack_slot(
    state: &mut StackState,
    now: u64,
    dead: &Vec<u32>,
    position: Position,
    height: i32,
    gap: i32,
    timeout_ms: u64,
    pid: u32,
    name: Option<String>,
    class: Option<String>,
    summary: String,
) -> (r: Option<(i32, StackGuard)>)
    ensures
        ids_below_counter(*old(state)) ==> ids_below_counter(*final(state)),
        ({
            let live = pruned(old(state).entries@, now, dead@);
            let key = position_key_spec(position);
            &&& r is Some <==> can_reserve(live, key, old(state).next_id, timeout_ms)
            &&& r is None ==> final(state).next_id == old(state).next_id && final(state).entries@
                == live
            &&& r is Some ==> {
                &&& (r->0).0 == stack_extent(live, key, None)
                &&& (r->0).1.id == old(state).next_id
                &&& (r->0).1.position@ == key
                &&& final(state).next_id == old(state).next_id + 1
                &&& final(state).entries@.len() == live.len() + 1
                &&& final(state).entries@.drop_last() == live
                &&& reserved_entry(final(state).entries@.last(), old(state).next_id, key, height,
                    gap, now, timeout_ms, pid, name, class, summary)
            }
        }),
{
    let ghost before = *state;
    prune_entries(state, now, dead);
    proof {
        lemma_pruned_ids_below(before, *state);
    }
    if timeout_ms == 0 {
        return None;
    }
    let key = String::from_str(position_key(position));
    let offset = match sum_extent(&state.entries, &key, None) {
        Some(v) => v,
        None => return None,
    };
    if state.next_id == u64::MAX {
        return None;
    }
    let id = state.next_id;
    state.next_id = id + 1;
    let expires_at = now.saturating_add(timeout_ms);
    state.entries.push(
        StackEntry {
            id,
            position: key.clone(),
            height,
            gap,
            expires_at,
            created_at: now,
            pid,
            name,
            class,
            summary,
        },
    );
    Some((offset, StackGuard { id, position: key }))
}

/// Removes the entry that `guard` holds, and no other.
pub fn release_lease(state: &mut StackState, guard: &StackGuard)
    ensures
        final(state).next_id == old(state).next_id,
        final(state).entries@ == without_id(old(state).entries@, guard.id),
{
    let ghost keep = |e: StackEntry| e.id != guard.id;
    let mut kept: Vec<StackEntry> = Vec::new();
    let mut i: usize = 0;
    while i < state.entries.len()
        invariant
            0 <= i <= state.entries.len(),
            state.entries@ == old(state).entries@,
            state.next_id == old(state).next_id,
            keep == (|e: StackEntry| e.id != guard.id),
            kept@ == state.entries@.subrange(0, i as int).filter(keep),
        decreases state.entries.len() - i,
    {
        let e = &state.entries[i];
        proof {
            assert(state.entries@.subrange(0, i + 1) == state.entries@.subrange(0, i as int).push(
                *e,
            ));
            state.entries@.subrange(0, i as int).lemma_filter_push(*e, keep);
        }
        if e.id != guard.id {
            kept.push(e.clone());
        }
        i += 1;
    }
    assert(state.entries@.subrange(0, state.entries@.len() as int) == state.entries@);
    state.entries = kept;
}

/// The current offset of a held reservation: prunes the ledger, then sums the
/// room taken by the live entries of its stack that were reserved before it.
pub fn stack_offset_for_id(state: &mut StackState, now: u64, dead: &Vec<u32>, guard: &StackGuard) -> (r: Option<i32>)
    ensures
        final(state).next_id == old(state).next_id,
        final(state).entries@ == pruned(old(state).entries@, now, dead@),
        r == offset_result(stack_extent(final(state).entries@, guard.position@, Some(guard.id))),
{
    prune_entries(state, now, dead);
    sum_extent(&state.entries, &guard.position, Some(guard.id))
}

/// Prunes the ledger for listing; the result says whether pruning removed anything,
/// that is, whether the ledger has to be written back.
pub fn list_active_entries(state: &mut StackState, now: u64, dead: &Vec<u32>) -> (changed: bool)
    ensures
        final(state).next_id == old(state).next_id,
        final(state).entries@ == pruned(old(state).entries@, now, dead@),
        changed == (final(state).entries@.len() != old(state).entries@.len()),
{
    let before = state.entries.len();
    prune_entries(state, now, dead);
    state.entries.len() != before
}

pub fn clear_matches(entry: &StackEntry, selector: &ClearSelector) -> (r: bool)
    ensures
        r == selects(*entry, *selector),
{
    match selector {
        ClearSelector::Id(id) => entry.id == *id,
        ClearSelector::Name(name) => match &entry.name {
            Some(n) => *n == *name,
            None => false,
        },
        ClearSelector::Class(class) => match &entry.class {
            Some(c) => *c == *class,
            None => false,
        },
    }
}

/// Prunes the ledger, then removes every entry that `selector` picks. The removed
/// entries are returned in ledger order, so that their owners can be told to stop.
pub fn clear_active_entries(
    state: &mut StackState,
    now: u64,
    dead: &Vec<u32>,
    selector: &ClearSelector,
) -> (removed: Vec<StackEntry>)
    ensures
        final(state).next_id == old(state).next_id,
        final(state).entries@ == pruned(old(state).entries@, now, dead@).filter(
            |e: StackEntry| !selects(e, *selector),
        ),
        removed@ == pruned(old(state).entries@, now, dead@).filter(
            |e: StackEntry| selects(e, *selector),
        ),
{
    prune_entries(state, now, dead);
    let ghost hit = |e: StackEntry| selects(e, *selector);
    let ghost miss = |e: StackEntry| !selects(e, *selector);
    let mut kept: Vec<StackEntry> = Vec::new();
    let mut removed: Vec<StackEntry> = Vec::new();
    let mut i: usize = 0;
    while i < state.entries.len()
        invariant
            0 <= i <= state.entries.len(),
            hit == (|e: StackEntry| selects(e, *selector)),
            miss == (|e: StackEntry| !selects(e, *selector)),
            kept@ == state.entries@.subrange(0, i as int).filter(miss),
            removed@ == state.entries@.subrange(0, i as int).filter(hit),
        decreases state.entries.len() - i,
    {
        let e = &state.entries[i];
        proof {
            let pre = state.entries@.subrange(0, i as int);
            assert(state.entries@.subrange(0, i + 1) == pre.push(*e));
            pre.lemma_filter_push(*e, hit);
            pre.lemma_filter_push(*e, miss);
        }
        if clear_matches(e, selector) {
            removed.push(e.clone());
        } else {
            kept.push(e.clone());
        }
        i += 1;
    }
    assert(state.entries@.subrange(0, state.entries@.len() as int) == state.entries@);
    state.entries = kept;
    removed
}

/// Whether ledger file content holds anything to parse: blank content stands
/// for an empty ledger.
pub fn ledger_text_present(contents: &str) -> (r: bool)
    ensures
        r == (trim(contents@).len() > 0),
{
    let t = trim_text(contents);
    t.as_str().unicode_len() > 0
}

/// The ledger to work on after reading the file: what was parsed, or an empty
/// ledger where the file was missing, blank or unreadable as a ledger.
pub fn ledger_or_empty(parsed: Option<StackState>) -> (r: StackState)
    ensures
        parsed is Some ==> r == parsed->0,
        parsed is None ==> r.next_id == 1 && r.entries@.len() == 0,
{
    match parsed {
        Some(state) => state,
        None => StackState::default(),
    }
}

} // verus!
