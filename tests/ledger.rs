use creak::ledger::{
    clear_active_entries, clear_matches, ledger_or_empty, ledger_text_present, list_active_entries,
    now_millis, process_alive, prune_entries, release_lease, reserve_stack_slot,
    stack_offset_for_id, termination_ok, ClearSelector, ProbeOutcome, StackEntry, StackGuard,
    StackState,
};
use creak::placement::Position;

fn entry(id: u64, position: &str, height: i32, gap: i32, expires_at: u64, pid: u32) -> StackEntry {
    StackEntry {
        id,
        position: position.to_string(),
        height,
        gap,
        expires_at,
        created_at: 0,
        pid,
        name: None,
        class: None,
        summary: String::new(),
    }
}

fn reserve(state: &mut StackState, now: u64, position: Position, height: i32, gap: i32) -> (i32, StackGuard) {
    reserve_stack_slot(state, now, &vec![], position, height, gap, 5000, 0, None, None, String::new())
        .expect("reserve")
}

fn ids(state: &StackState) -> Vec<u64> {
    state.entries.iter().map(|e| e.id).collect()
}

#[test]
fn clear_by_name_removes_matching_entries() {
    let mut state = StackState {
        next_id: 3,
        entries: vec![
            StackEntry {
                id: 1,
                position: "top".to_string(),
                height: 10,
                gap: 2,
                expires_at: now_millis() + 60_000,
                created_at: now_millis(),
                pid: 0,
                name: Some("water".to_string()),
                class: Some("reminder".to_string()),
                summary: "hydrate".to_string(),
            },
            StackEntry {
                id: 2,
                position: "top".to_string(),
                height: 10,
                gap: 2,
                expires_at: now_millis() + 60_000,
                created_at: now_millis(),
                pid: 0,
                name: Some("other".to_string()),
                class: Some("reminder".to_string()),
                summary: "other".to_string(),
            },
        ],
    };
    let removed = clear_active_entries(
        &mut state,
        now_millis(),
        &vec![],
        &ClearSelector::Name("water".to_string()),
    );
    assert_eq!(removed.len(), 1);
    assert_eq!(state.entries.len(), 1);
    assert_eq!(state.entries[0].id, 2);
}

#[test]
fn list_active_prunes_expired_and_dead_entries() {
    let now = now_millis();
    let mut state = StackState {
        next_id: 4,
        entries: vec![
            StackEntry {
                id: 1,
                position: "top".to_string(),
                height: 10,
                gap: 2,
                expires_at: now + 60_000,
                created_at: now,
                pid: 0,
                name: Some("alive".to_string()),
                class: Some("class".to_string()),
                summary: "alive".to_string(),
            },
            StackEntry {
                id: 2,
                position: "top".to_string(),
                height: 10,
                gap: 2,
                expires_at: now.saturating_sub(1),
                created_at: now,
                pid: 0,
                name: Some("expired".to_string()),
                class: Some("class".to_string()),
                summary: "expired".to_string(),
            },
            StackEntry {
                id: 3,
                position: "top".to_string(),
                height: 10,
                gap: 2,
                expires_at: now + 60_000,
                created_at: now,
                pid: 999_999,
                name: Some("dead-pid".to_string()),
                class: Some("class".to_string()),
                summary: "dead".to_string(),
            },
        ],
    };
    // Process 999999 is taken as gone, as a probe of it reports.
    let changed = list_active_entries(&mut state, now, &vec![999_999]);
    assert!(changed);
    let entries = &state.entries;
    assert_eq!(entries.len(), 1);
    assert_eq!(entries[0].id, 1);
}

#[test]
fn reserve_release_and_poll_scenario() {
    let mut state = StackState::default();
    let now = 1_000;
    let (off1, lease1) = reserve(&mut state, now, Position::Top, 50, 10);
    assert_eq!((off1, lease1.id), (0, 1));
    let (off2, lease2) = reserve(&mut state, now, Position::Top, 30, 5);
    assert_eq!((off2, lease2.id), (60, 2));
    assert_eq!(lease2.position, "top");
    release_lease(&mut state, &lease1);
    assert_eq!(ids(&state), vec![2]);
    let probe = StackGuard { id: 3, position: "top".to_string() };
    assert_eq!(stack_offset_for_id(&mut state, now, &vec![], &probe), Some(35));
    assert_eq!(stack_offset_for_id(&mut state, now, &vec![], &lease2), Some(0));
}

#[test]
fn clear_by_id_after_scenario_removes_only_that_entry() {
    let mut state = StackState::default();
    let now = 1_000;
    let (_, lease1) = reserve(&mut state, now, Position::Top, 50, 10);
    let _ = reserve(&mut state, now, Position::Top, 30, 5);
    release_lease(&mut state, &lease1);
    let _ = reserve(&mut state, now, Position::Top, 20, 0);
    let removed = clear_active_entries(&mut state, now, &vec![], &ClearSelector::Id(2));
    assert_eq!(removed.len(), 1);
    assert_eq!(removed[0].id, 2);
    assert_eq!(ids(&state), vec![3]);
    // An owner that is already gone is not a failure.
    assert!(termination_ok(4242, ProbeOutcome::NoSuchProcess));
    assert!(termination_ok(4242, ProbeOutcome::Delivered));
    assert!(!termination_ok(4242, ProbeOutcome::PermissionDenied));
    assert!(termination_ok(0, ProbeOutcome::Failed));
}

#[test]
fn offsets_are_independent_across_stacks() {
    let mut state = StackState::default();
    let now = 5;
    let (a, _) = reserve(&mut state, now, Position::Top, 40, 4);
    let (b, _) = reserve(&mut state, now, Position::Bottom, 100, 100);
    let (c, _) = reserve(&mut state, now, Position::Top, 7, 1);
    let (d, _) = reserve(&mut state, now, Position::Bottom, 1, 1);
    let (e, _) = reserve(&mut state, now, Position::Default, 9, 9);
    assert_eq!((a, b, c, d, e), (0, 0, 44, 200, 0));
    assert_eq!(state.next_id, 6);
    assert_eq!(state.entries[3].position, "bottom");
    assert_eq!(state.entries[4].position, "default");
}

#[test]
fn reservation_records_entry_fields() {
    let mut state = StackState::default();
    let r = reserve_stack_slot(
        &mut state,
        u64::MAX - 10,
        &vec![],
        Position::BottomLeft,
        12,
        3,
        5000,
        77,
        Some("n".to_string()),
        Some("c".to_string()),
        "sum".to_string(),
    );
    let (off, lease) = r.expect("reserve");
    assert_eq!(off, 0);
    let e = &state.entries[0];
    assert_eq!((e.id, e.height, e.gap, e.pid), (lease.id, 12, 3, 77));
    assert_eq!(e.position, "bottom-left");
    assert_eq!(e.expires_at, u64::MAX);
    assert_eq!(e.created_at, u64::MAX - 10);
    assert_eq!(e.name.as_deref(), Some("n"));
    assert_eq!(e.class.as_deref(), Some("c"));
    assert_eq!(e.summary, "sum");
}

#[test]
fn reservation_without_timeout_is_refused() {
    let mut state = StackState::default();
    state.entries.push(entry(1, "top", 1, 1, 10, 0));
    let r = reserve_stack_slot(&mut state, 20, &vec![], Position::Top, 5, 5, 0, 0, None, None, String::new());
    assert!(r.is_none());
    assert_eq!(state.next_id, 1);
    assert!(state.entries.is_empty());
}

#[test]
fn reservation_with_spent_counter_or_huge_offset_is_refused() {
    let mut state = StackState { next_id: u64::MAX, entries: vec![] };
    let r = reserve_stack_slot(&mut state, 0, &vec![], Position::Top, 5, 5, 10, 0, None, None, String::new());
    assert!(r.is_none());
    assert_eq!(state.next_id, u64::MAX);
    let mut state = StackState {
        next_id: 3,
        entries: vec![entry(1, "top", i32::MAX, 0, 0, 0), entry(2, "top", 1, 0, 0, 0)],
    };
    let r = reserve_stack_slot(&mut state, 0, &vec![], Position::Top, 5, 5, 10, 0, None, None, String::new());
    assert!(r.is_none());
    let guard = StackGuard { id: 9, position: "top".to_string() };
    assert_eq!(stack_offset_for_id(&mut state, 0, &vec![], &guard), None);
    let guard = StackGuard { id: 2, position: "top".to_string() };
    assert_eq!(stack_offset_for_id(&mut state, 0, &vec![], &guard), Some(i32::MAX));
}

#[test]
fn negative_extents_sum_exactly() {
    let mut state = StackState {
        next_id: 4,
        entries: vec![
            entry(1, "top", i32::MAX, i32::MAX, 0, 0),
            entry(2, "top", i32::MIN, i32::MIN, 0, 0),
            entry(3, "top", 5, 0, 0, 0),
        ],
    };
    let guard = StackGuard { id: 4, position: "top".to_string() };
    assert_eq!(stack_offset_for_id(&mut state, 0, &vec![], &guard), Some(3));
}

#[test]
fn release_twice_is_a_no_op() {
    let mut state = StackState {
        next_id: 4,
        entries: vec![entry(1, "top", 1, 1, 0, 0), entry(2, "left", 1, 1, 0, 0), entry(3, "top", 1, 1, 0, 0)],
    };
    let guard = StackGuard { id: 2, position: "left".to_string() };
    release_lease(&mut state, &guard);
    assert_eq!(ids(&state), vec![1, 3]);
    release_lease(&mut state, &guard);
    assert_eq!(ids(&state), vec![1, 3]);
    assert_eq!(state.next_id, 4);
}

#[test]
fn pruning_twice_changes_nothing_more() {
    let mut state = StackState {
        next_id: 6,
        entries: vec![
            entry(1, "top", 1, 1, 100, 0),
            entry(2, "top", 1, 1, 50, 0),
            entry(3, "top", 1, 1, 0, 12),
            entry(4, "top", 1, 1, 0, 13),
            entry(5, "top", 1, 1, 101, 0),
        ],
    };
    prune_entries(&mut state, 100, &vec![12]);
    assert_eq!(ids(&state), vec![4, 5]);
    prune_entries(&mut state, 100, &vec![12]);
    assert_eq!(ids(&state), vec![4, 5]);
}

#[test]
fn expiry_edges() {
    let now = 1_000_000;
    let mut state = StackState {
        next_id: 4,
        entries: vec![entry(1, "top", 1, 1, now - 1, 0), entry(2, "top", 1, 1, 0, 0), entry(3, "top", 1, 1, now, 0)],
    };
    prune_entries(&mut state, now, &vec![]);
    assert_eq!(ids(&state), vec![2]);
    prune_entries(&mut state, u64::MAX, &vec![]);
    assert_eq!(ids(&state), vec![2]);
}

#[test]
fn liveness_edges() {
    let mut state = StackState {
        next_id: 4,
        entries: vec![entry(1, "top", 1, 1, 0, 0), entry(2, "top", 1, 1, 0, 31337), entry(3, "top", 1, 1, 0, 7)],
    };
    assert!(!list_active_entries(&mut state, 0, &vec![]));
    assert!(list_active_entries(&mut state, 0, &vec![0, 31337]));
    assert_eq!(ids(&state), vec![1, 3]);
    assert!(process_alive(0, ProbeOutcome::NoSuchProcess));
    assert!(!process_alive(31337, ProbeOutcome::NoSuchProcess));
    assert!(process_alive(31337, ProbeOutcome::PermissionDenied));
    assert!(process_alive(31337, ProbeOutcome::Delivered));
    assert!(process_alive(31337, ProbeOutcome::Failed));
}

#[test]
fn clear_selectors_match_fields() {
    let mut e = entry(5, "top", 1, 1, 0, 0);
    e.name = Some("water".to_string());
    e.class = Some("reminder".to_string());
    assert!(clear_matches(&e, &ClearSelector::Id(5)));
    assert!(!clear_matches(&e, &ClearSelector::Id(6)));
    assert!(clear_matches(&e, &ClearSelector::Name("water".to_string())));
    assert!(!clear_matches(&e, &ClearSelector::Name("reminder".to_string())));
    assert!(clear_matches(&e, &ClearSelector::Class("reminder".to_string())));
    let bare = entry(6, "top", 1, 1, 0, 0);
    assert!(!clear_matches(&bare, &ClearSelector::Name(String::new())));
    assert!(!clear_matches(&bare, &ClearSelector::Class(String::new())));
}

#[test]
fn clear_by_class_removes_every_match_in_order() {
    let mut a = entry(1, "top", 1, 1, 0, 0);
    a.class = Some("x".to_string());
    let b = entry(2, "top", 1, 1, 0, 0);
    let mut c = entry(3, "left", 1, 1, 0, 0);
    c.class = Some("x".to_string());
    let mut state = StackState { next_id: 4, entries: vec![a, b, c] };
    let removed = clear_active_entries(&mut state, 0, &vec![], &ClearSelector::Class("x".to_string()));
    assert_eq!(removed.iter().map(|e| e.id).collect::<Vec<_>>(), vec![1, 3]);
    assert_eq!(ids(&state), vec![2]);
}

#[test]
fn blank_or_unreadable_ledger_is_empty() {
    assert!(!ledger_text_present(""));
    assert!(!ledger_text_present(" \n\t\u{3000}"));
    assert!(ledger_text_present("not json"));
    let empty = ledger_or_empty(None);
    assert_eq!(empty.next_id, 1);
    assert!(empty.entries.is_empty());
    let kept = ledger_or_empty(Some(StackState { next_id: 9, entries: vec![entry(8, "top", 1, 1, 0, 0)] }));
    assert_eq!(kept.next_id, 9);
    assert_eq!(ids(&kept), vec![8]);
}

#[test]
fn entry_clone_keeps_every_field() {
    let mut e = entry(5, "top", 1, 2, 3, 4);
    e.name = Some("n".to_string());
    e.summary = "s".to_string();
    let c = e.clone();
    assert_eq!((c.id, c.height, c.gap, c.expires_at, c.pid), (5, 1, 2, 3, 4));
    assert_eq!(c.name.as_deref(), Some("n"));
    assert_eq!(c.summary, "s");
    assert_eq!(c.position, "top");
}

#[test]
fn clock_reads_after_the_epoch() {
    assert!(now_millis() > 1_500_000_000_000);
}
