use std::collections::HashMap;

use signal_relay::config::Config;
use signal_relay::guards::AdminGuard;
use signal_relay::toggle::{
    distinct_ids, parse_toggle_action, toggle_begin, toggle_message, toggle_step, ToggleAction,
    ToggleError, ToggleEvent, ToggleState,
};

fn pass() -> AdminGuard {
    let config = Config::new("d".to_string(), "t0ken".to_string(), "M".to_string());
    AdminGuard::authorize(Some("t0ken"), &config).unwrap()
}

/// A store in memory with one transaction: rows are (owner, enabled) by
/// strategy.  `fail_at` is the number of the request that fails, from 0.
struct Store {
    durable: HashMap<u128, (u128, bool)>,
    pending: Option<HashMap<u128, (u128, bool)>>,
    requests: Vec<ToggleAction>,
    fail_at: Option<usize>,
}

fn store(rows: &[(u128, u128, bool)], fail_at: Option<usize>) -> Store {
    Store {
        durable: rows.iter().map(|&(id, owner, enabled)| (id, (owner, enabled))).collect(),
        pending: None,
        requests: Vec::new(),
        fail_at,
    }
}

fn answer(store: &mut Store, action: ToggleAction) -> ToggleEvent {
    let failing = store.fail_at == Some(store.requests.len());
    store.requests.push(action);
    match action {
        ToggleAction::Rollback => {
            store.pending = None;
            if failing {
                ToggleEvent::StoreFailed
            } else {
                ToggleEvent::RolledBack
            }
        }
        _ if failing => ToggleEvent::StoreFailed,
        ToggleAction::Begin => {
            store.pending = Some(store.durable.clone());
            ToggleEvent::Begun
        }
        ToggleAction::Update { strategy_uid, owner, enable } => match store.pending.as_mut() {
            None => ToggleEvent::StoreFailed,
            Some(rows) => match rows.get_mut(&strategy_uid) {
                Some(row) if row.0 == owner => {
                    row.1 = enable;
                    ToggleEvent::Updated(1)
                }
                _ => ToggleEvent::Updated(0),
            },
        },
        ToggleAction::Commit => match store.pending.take() {
            None => ToggleEvent::StoreFailed,
            Some(rows) => {
                store.durable = rows;
                ToggleEvent::Committed
            }
        },
        ToggleAction::Report(_) | ToggleAction::Reject(_) => unreachable!(),
    }
}

fn run_toggle(store: &mut Store, ids: &[u128], owner: u128, enable: bool) -> Result<u64, ToggleError> {
    let (mut state, mut action) = toggle_begin(&pass(), &ids.to_vec(), owner, enable);
    loop {
        match action {
            ToggleAction::Report(count) => return Ok(count),
            ToggleAction::Reject(e) => return Err(e),
            request => {
                let event = answer(store, request);
                let next = toggle_step(state, event);
                state = next.0;
                action = next.1;
            }
        }
    }
}

#[test]
fn healthy_batch_is_applied_and_counted() {
    let mut s = store(&[(1, 10, false), (2, 10, false), (3, 10, true)], None);
    assert_eq!(run_toggle(&mut s, &[1, 2, 3], 10, true), Ok(3));
    assert_eq!(s.durable[&1], (10, true));
    assert_eq!(s.durable[&2], (10, true));
    assert_eq!(s.durable[&3], (10, true));
    assert!(s.pending.is_none());
    assert_eq!(
        s.requests,
        vec![
            ToggleAction::Begin,
            ToggleAction::Update { strategy_uid: 1, owner: 10, enable: true },
            ToggleAction::Update { strategy_uid: 2, owner: 10, enable: true },
            ToggleAction::Update { strategy_uid: 3, owner: 10, enable: true },
            ToggleAction::Commit,
        ]
    );
}

#[test]
fn failure_at_the_second_of_three_changes_nothing() {
    let rows = [(1, 10, false), (2, 10, false), (3, 10, false)];
    let mut s = store(&rows, Some(2));
    let before = s.durable.clone();
    assert_eq!(run_toggle(&mut s, &[1, 2, 3], 10, true), Err(ToggleError::StoreFailure));
    assert_eq!(s.durable, before);
    assert!(s.pending.is_none());
    assert_eq!(
        s.requests,
        vec![
            ToggleAction::Begin,
            ToggleAction::Update { strategy_uid: 1, owner: 10, enable: true },
            ToggleAction::Update { strategy_uid: 2, owner: 10, enable: true },
            ToggleAction::Rollback,
        ]
    );
}

#[test]
fn failure_at_any_request_changes_nothing() {
    let rows = [(1, 10, false), (2, 10, true), (3, 11, false)];
    for fail_at in 0..5 {
        let mut s = store(&rows, Some(fail_at));
        let before = s.durable.clone();
        assert_eq!(run_toggle(&mut s, &[1, 2, 3], 10, true), Err(ToggleError::StoreFailure));
        assert_eq!(s.durable, before);
        assert!(s.pending.is_none());
    }
}

#[test]
fn failed_commit_is_rolled_back() {
    let mut s = store(&[(1, 10, false)], Some(2));
    assert_eq!(run_toggle(&mut s, &[1], 10, true), Err(ToggleError::StoreFailure));
    assert_eq!(s.durable[&1], (10, false));
    assert_eq!(
        s.requests,
        vec![
            ToggleAction::Begin,
            ToggleAction::Update { strategy_uid: 1, owner: 10, enable: true },
            ToggleAction::Commit,
            ToggleAction::Rollback,
        ]
    );
}

#[test]
fn failed_opening_is_reported_without_a_rollback() {
    let mut s = store(&[(1, 10, false)], Some(0));
    assert_eq!(run_toggle(&mut s, &[1], 10, true), Err(ToggleError::StoreFailure));
    assert_eq!(s.requests, vec![ToggleAction::Begin]);
}

#[test]
fn strategies_of_others_are_left_alone_and_not_counted() {
    let mut s = store(&[(1, 10, false), (2, 11, false), (3, 10, false)], None);
    assert_eq!(run_toggle(&mut s, &[1, 2, 3, 4], 10, true), Ok(2));
    assert_eq!(s.durable[&1], (10, true));
    assert_eq!(s.durable[&2], (11, false));
    assert_eq!(s.durable[&3], (10, true));
    assert!(!s.durable.contains_key(&4));
}

#[test]
fn batch_of_strangers_counts_zero_without_error() {
    let mut s = store(&[(1, 11, true), (2, 12, true)], None);
    assert_eq!(run_toggle(&mut s, &[1, 2], 10, false), Ok(0));
    assert_eq!(s.durable[&1], (11, true));
    assert_eq!(s.durable[&2], (12, true));
}

#[test]
fn empty_batch_is_refused_before_the_store_is_touched() {
    let mut s = store(&[(1, 10, false)], None);
    assert_eq!(run_toggle(&mut s, &[], 10, true), Err(ToggleError::EmptyBatch));
    assert!(s.requests.is_empty());
    let (state, action) = toggle_begin(&pass(), &Vec::new(), 10, true);
    assert_eq!(state, ToggleState::Failed(ToggleError::EmptyBatch));
    assert_eq!(action, ToggleAction::Reject(ToggleError::EmptyBatch));
}

#[test]
fn repeated_identifiers_are_sent_once() {
    let mut s = store(&[(1, 10, false), (2, 10, false)], None);
    assert_eq!(run_toggle(&mut s, &[2, 1, 2, 2, 1], 10, true), Ok(2));
    assert_eq!(
        s.requests,
        vec![
            ToggleAction::Begin,
            ToggleAction::Update { strategy_uid: 2, owner: 10, enable: true },
            ToggleAction::Update { strategy_uid: 1, owner: 10, enable: true },
            ToggleAction::Commit,
        ]
    );
}

#[test]
fn distinct_ids_keeps_first_occurrences_in_order() {
    assert_eq!(distinct_ids(&vec![3, 1, 3, 2, 1]), vec![3, 1, 2]);
    assert_eq!(distinct_ids(&vec![]), Vec::<u128>::new());
    assert_eq!(distinct_ids(&vec![5, 5, 5]), vec![5]);
    assert_eq!(distinct_ids(&vec![1, 2, 3]), vec![1, 2, 3]);
}

#[test]
fn disabling_clears_the_flag() {
    let mut s = store(&[(1, 10, true)], None);
    assert_eq!(run_toggle(&mut s, &[1], 10, false), Ok(1));
    assert_eq!(s.durable[&1], (10, false));
}

#[test]
fn action_is_enable_or_disable_and_nothing_else() {
    assert_eq!(parse_toggle_action("enable"), Ok(true));
    assert_eq!(parse_toggle_action("disable"), Ok(false));
    assert_eq!(parse_toggle_action("Enable"), Err(ToggleError::InvalidAction));
    assert_eq!(parse_toggle_action(""), Err(ToggleError::InvalidAction));
    assert_eq!(parse_toggle_action("toggle"), Err(ToggleError::InvalidAction));
}

#[test]
fn count_saturates_instead_of_wrapping() {
    let (state, _) = toggle_begin(&pass(), &vec![1, 2], 10, true);
    let (state, _) = toggle_step(state, ToggleEvent::Begun);
    let (state, _) = toggle_step(state, ToggleEvent::Updated(u64::MAX));
    let (state, action) = toggle_step(state, ToggleEvent::Updated(5));
    assert_eq!(action, ToggleAction::Commit);
    let (state, action) = toggle_step(state, ToggleEvent::Committed);
    assert_eq!(action, ToggleAction::Report(u64::MAX));
    assert_eq!(state, ToggleState::Completed(u64::MAX));
}

#[test]
fn ended_toggle_repeats_its_outcome() {
    let (state, action) = toggle_step(ToggleState::Completed(4), ToggleEvent::StoreFailed);
    assert_eq!(state, ToggleState::Completed(4));
    assert_eq!(action, ToggleAction::Report(4));
    let failed = ToggleState::Failed(ToggleError::StoreFailure);
    let (state, action) = toggle_step(failed, ToggleEvent::Committed);
    assert_eq!(state, ToggleState::Failed(ToggleError::StoreFailure));
    assert_eq!(action, ToggleAction::Reject(ToggleError::StoreFailure));
}

#[test]
fn answer_out_of_turn_rolls_back() {
    let (state, _) = toggle_begin(&pass(), &vec![1], 10, true);
    let (state, _) = toggle_step(state, ToggleEvent::Begun);
    let (state, action) = toggle_step(state, ToggleEvent::Committed);
    assert_eq!(state, ToggleState::Aborting);
    assert_eq!(action, ToggleAction::Rollback);
    let (state, action) = toggle_step(state, ToggleEvent::RolledBack);
    assert_eq!(state, ToggleState::Failed(ToggleError::StoreFailure));
    assert_eq!(action, ToggleAction::Reject(ToggleError::StoreFailure));
}

#[test]
fn messages_of_the_toggle() {
    assert_eq!(toggle_message(true), "Strategies successfully enabled");
    assert_eq!(toggle_message(false), "Strategies successfully disabled");
    assert_eq!(ToggleError::InvalidAction.reason(), "Invalid action. Use 'enable' or 'disable'.");
    assert_eq!(ToggleError::EmptyBatch.reason(), "No strategies provided");
    assert_eq!(ToggleError::StoreFailure.reason(), "Database error");
}
