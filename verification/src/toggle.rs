//! The strategy toggle: enabling or disabling a batch of strategies as one
//! transaction.
//!
//! The library says which request goes to the store next and what to make of
//! the answer; the caller talks to the store.  Every update is bound to the
//! owner given, so a strategy of somebody else is left alone and merely not
//! counted.  A failure at any point ends in a rollback: the batch is applied
//! whole or not at all.

use vstd::prelude::*;

use crate::guards::AdminGuard;
use crate::text::same_text;

verus! {

/// Why a toggle was refused or undone.
#[derive(Clone, Copy, Debug, PartialEq, Eq, Structural)]
pub enum ToggleError {
    /// The action is neither `enable` nor `disable`.
    InvalidAction,
    /// The batch names no strategy.
    EmptyBatch,
    /// The store failed; the transaction was rolled back.
    StoreFailure,
}

/// What the store answered.
#[derive(Clone, Copy, Debug, PartialEq, Eq, Structural)]
pub enum ToggleEvent {
    /// A transaction is open.
    Begun,
    /// The update ran and changed this many rows.
    Updated(u64),
    /// The transaction is committed.
    Committed,
    /// The transaction is rolled back.
    RolledBack,
    /// The request failed.
    StoreFailed,
}

/// What the caller is to ask of the store, or to tell its own caller.
#[derive(Clone, Copy, Debug, PartialEq, Eq, Structural)]
pub enum ToggleAction {
    /// Open a transaction.
    Begin,
    /// Inside the transaction, set the flag of the strategy with this
    /// identifier if it belongs to this owner.
    Update { strategy_uid: u128, owner: u128, enable: bool },
    /// Commit the transaction.
    Commit,
    /// Roll the transaction back.
    Rollback,
    /// The batch is applied; this many rows changed.
    Report(u64),
    /// The batch is not applied, and this is why.
    Reject(ToggleError),
}

/// Where a toggle stands.
#[derive(Clone, Debug, PartialEq, Eq)]
pub enum ToggleState {
    /// A transaction has been asked for.
    Opening { batch: Vec<u128>, owner: u128, enable: bool },
    /// The first `sent` strategies of the batch have been sent; the answers
    /// so far add up to `affected`.
    Applying { batch: Vec<u128>, owner: u128, enable: bool, sent: usize, affected: u64 },
    /// The commit has been asked for.
    Committing { affected: u64 },
    /// After a failure, the rollback has been asked for.
    Aborting,
    /// The batch is applied.
    Completed(u64),
    /// The batch is not applied.
    Failed(ToggleError),
}

/// A toggle's state with its batch as a sequence.
pub enum ToggleStateView {
    Opening { batch: Seq<u128>, owner: u128, enable: bool },
    Applying { batch: Seq<u128>, owner: u128, enable: bool, sent: usize, affected: u64 },
    Committing { affected: u64 },
    Aborting,
    Completed(u64),
    Failed(ToggleError),
}

impl View for ToggleState {
    type V = ToggleStateView;

    open spec fn view(&self) -> ToggleStateView {
        match self {
            ToggleState::Opening { batch, owner, enable } => ToggleStateView::Opening {
                batch: batch@,
                owner: *owner,
                enable: *enable,
            },
            ToggleState::Applying {
                batch,
                owner,
                enable,
                sent,
                affected,
            } => ToggleStateView::Applying {
                batch: batch@,
                owner: *owner,
                enable: *enable,
                sent: *sent,
                affected: *affected,
            },
            ToggleState::Committing { affected } => ToggleStateView::Committing {
                affected: *affected,
            },
            ToggleState::Aborting => ToggleStateView::Aborting,
            ToggleState::Completed(n) => ToggleStateView::Completed(*n),
            ToggleState::Failed(e) => ToggleStateView::Failed(*e),
        }
    }
}

/// `ids` without its repetitions: each identifier once, where it first stood.
pub open spec fn distinct(ids: Seq<u128>) -> Seq<u128>
    decreases ids.len(),
{
    if ids.len() == 0 {
        Seq::empty()
    } else {
        let head = distinct(ids.drop_last());
        if head.contains(ids.last()) {
            head
        } else {
            head.push(ids.last())
        }
    }
}

/// `distinct` keeps every identifier, keeps none twice, and adds none.
pub proof fn lemma_distinct(ids: Seq<u128>)
    ensures
        distinct(ids).no_duplicates(),
        distinct(ids).len() <= ids.len(),
        forall|id: u128| distinct(ids).contains(id) <==> ids.contains(id),
        ids.no_duplicates() ==> distinct(ids) == ids,
    decreases ids.len(),
{
    if ids.len() > 0 {
        let front = ids.drop_last();
        let head = distinct(front);
        lemma_distinct(front);
        assert forall|id: u128| distinct(ids).contains(id) <==> ids.contains(id) by {
            assert(head.contains(id) <==> front.contains(id));
            if ids.contains(id) {
                let k = choose|k: int| 0 <= k < ids.len() && ids[k] == id;
                if k < ids.len() - 1 {
                    assert(front[k] == id);
                    assert(front.contains(id));
                    let j = choose|j: int| 0 <= j < head.len() && head[j] == id;
                    assert(distinct(ids)[j] == id);
                } else if !head.contains(ids.last()) {
                    assert(distinct(ids)[head.len() as int] == id);
                } else {
                    let j = choose|j: int| 0 <= j < head.len() && head[j] == id;
                    assert(distinct(ids)[j] == id);
                }
            }
            if distinct(ids).contains(id) {
                let j = choose|j: int| 0 <= j < distinct(ids).len() && distinct(ids)[j] == id;
                if j < head.len() {
                    assert(head[j] == id);
                    assert(head.contains(id));
                    let k = choose|k: int| 0 <= k < front.len() && front[k] == id;
                    assert(ids[k] == id);
                } else {
                    assert(ids[ids.len() - 1] == id);
                }
            }
        }
        if ids.no_duplicates() {
            assert(front.no_duplicates());
            if head.contains(ids.last()) {
                let j = choose|j: int| 0 <= j < front.len() && front[j] == ids.last();
                assert(ids[j] == ids[ids.len() - 1]);
            }
            assert(distinct(ids) =~= ids);
        }
    }
}

/// The toggle's rule: the state and the action that follow `event` in `state`.
///
/// Inside the transaction, every answer but the one waited for leads to a
/// rollback and then to `StoreFailure`.  A toggle that has ended stays as it
/// is and repeats its outcome.
pub open spec fn toggle_transition(state: ToggleStateView, event: ToggleEvent) -> (
    ToggleStateView,
    ToggleAction,
) {
    match state {
        ToggleStateView::Opening { batch, owner, enable } => match event {
            ToggleEvent::Begun => if batch.len() > 0 {
                (
                    ToggleStateView::Applying { batch, owner, enable, sent: 1, affected: 0 },
                    ToggleAction::Update { strategy_uid: batch[0], owner, enable },
                )
            } else {
                (ToggleStateView::Committing { affected: 0 }, ToggleAction::Commit)
            },
            _ => (
                ToggleStateView::Failed(ToggleError::StoreFailure),
                ToggleAction::Reject(ToggleError::StoreFailure),
            ),
        },
        ToggleStateView::Applying { batch, owner, enable, sent, affected } => match event {
            ToggleEvent::Updated(rows) => {
                let total = if affected + rows > u64::MAX {
                    u64::MAX
                } else {
                    (affected + rows) as u64
                };
                if sent < batch.len() {
                    (
                        ToggleStateView::Applying {
                            batch,
                            owner,
                            enable,
                            sent: (sent + 1) as usize,
                            affected: total,
                        },
                        ToggleAction::Update { strategy_uid: batch[sent as int], owner, enable },
                    )
                } else {
                    (ToggleStateView::Committing { affected: total }, ToggleAction::Commit)
                }
            },
            _ => (ToggleStateView::Aborting, ToggleAction::Rollback),
        },
        ToggleStateView::Committing { affected } => match event {
            ToggleEvent::Committed => (
                ToggleStateView::Completed(affected),
                ToggleAction::Report(affected),
            ),
            _ => (ToggleStateView::Aborting, ToggleAction::Rollback),
        },
        ToggleStateView::Aborting => (
            ToggleStateView::Failed(ToggleError::StoreFailure),
            ToggleAction::Reject(ToggleError::StoreFailure),
        ),
        ToggleStateView::Completed(n) => (ToggleStateView::Completed(n), ToggleAction::Report(n)),
        ToggleStateView::Failed(e) => (ToggleStateView::Failed(e), ToggleAction::Reject(e)),
    }
}

/// How a toggle begins: an empty batch is refused before the store is
/// touched; any other is cleared of repetitions and opens a transaction.
pub open spec fn toggle_opening(ids: Seq<u128>, owner: u128, enable: bool) -> (
    ToggleStateView,
    ToggleAction,
) {
    if ids.len() == 0 {
        (
            ToggleStateView::Failed(ToggleError::EmptyBatch),
            ToggleAction::Reject(ToggleError::EmptyBatch),
        )
    } else {
        (ToggleStateView::Opening { batch: distinct(ids), owner, enable }, ToggleAction::Begin)
    }
}

/// Reads the action of a toggle request: `enable` or `disable`, nothing else.
pub fn parse_toggle_action(action: &str) -> (enable: Result<bool, ToggleError>)
    ensures
        action@ == "enable"@ ==> enable == Ok::<bool, ToggleError>(true),
        action@ == "disable"@ ==> enable == Ok::<bool, ToggleError>(false),
        action@ != "enable"@ && action@ != "disable"@ ==> enable == Err::<bool, ToggleError>(
            ToggleError::InvalidAction,
        ),
{
    proof {
        reveal_strlit("enable");
        reveal_strlit("disable");
        assert("enable"@.len() != "disable"@.len());
    }
    if same_text(action, "enable") {
        Ok(true)
    } else if same_text(action, "disable") {
        Ok(false)
    } else {
        Err(ToggleError::InvalidAction)
    }
}

/// Whether `id` is among `ids`.
fn holds(ids: &Vec<u128>, id: u128) -> (found: bool)
    ensures
        found == ids@.contains(id),
{
    let mut i: usize = 0;
    while i < ids.len()
        invariant
            i <= ids@.len(),
            forall|k: int| 0 <= k < i ==> ids@[k] != id,
        decreases ids@.len() - i,
    {
        if ids[i] == id {
            return true;
        }
        i = i + 1;
    }
    false
}

/// Clears a batch of its repetitions: each identifier stays once, where it
/// first stood.
pub fn distinct_ids(ids: &Vec<u128>) -> (batch: Vec<u128>)
    ensures
        batch@ == distinct(ids@),
{
    let mut batch: Vec<u128> = Vec::new();
    let mut i: usize = 0;
    while i < ids.len()
        invariant
            i <= ids@.len(),
            batch@ == distinct(ids@.take(i as int)),
        decreases ids@.len() - i,
    {
        let id = ids[i];
        proof {
            assert(ids@.take(i + 1).drop_last() =~= ids@.take(i as int));
            assert(ids@.take(i + 1).last() == id);
        }
        if !holds(&batch, id) {
            batch.push(id);
        }
        i = i + 1;
    }
    proof {
        assert(ids@.take(i as int) =~= ids@);
    }
    batch
}

/// Begins the toggle of `ids` for `owner`, for a caller whom the access gate
/// let through.
pub fn toggle_begin(_pass: &AdminGuard, ids: &Vec<u128>, owner: u128, enable: bool) -> (begun: (
    ToggleState,
    ToggleAction,
))
    ensures
        (begun.0@, begun.1) == toggle_opening(ids@, owner, enable),
{
    if ids.len() == 0 {
        (
            ToggleState::Failed(ToggleError::EmptyBatch),
            ToggleAction::Reject(ToggleError::EmptyBatch),
        )
    } else {
        (ToggleState::Opening { batch: distinct_ids(ids), owner, enable }, ToggleAction::Begin)
    }
}

/// Takes the toggle one step on: from the state and the store's answer to
/// the next state and the next action.
pub fn toggle_step(state: ToggleState, event: ToggleEvent) -> (next: (ToggleState, ToggleAction))
    ensures
        (next.0@, next.1) == toggle_transition(state@, event),
{
    match state {
        ToggleState::Opening { batch, owner, enable } => match event {
            ToggleEvent::Begun => if batch.len() > 0 {
                let first = batch[0];
                (
                    ToggleState::Applying { batch, owner, enable, sent: 1, affected: 0 },
                    ToggleAction::Update { strategy_uid: first, owner, enable },
                )
            } else {
                (ToggleState::Committing { affected: 0 }, ToggleAction::Commit)
            },
            _ => (
                ToggleState::Failed(ToggleError::StoreFailure),
                ToggleAction::Reject(ToggleError::StoreFailure),
            ),
        },
        ToggleState::Applying { batch, owner, enable, sent, affected } => match event {
            ToggleEvent::Updated(rows) => {
                let total = affected.saturating_add(rows);
                if sent < batch.len() {
                    let id = batch[sent];
                    (
                        ToggleState::Applying {
                            batch,
                            owner,
                            enable,
                            sent: sent + 1,
                            affected: total,
                        },
                        ToggleAction::Update { strategy_uid: id, owner, enable },
                    )
                } else {
                    (ToggleState::Committing { affected: total }, ToggleAction::Commit)
                }
            },
            _ => (ToggleState::Aborting, ToggleAction::Rollback),
        },
        ToggleState::Committing { affected } => match event {
            ToggleEvent::Committed => (
                ToggleState::Completed(affected),
                ToggleAction::Report(affected),
            ),
            _ => (ToggleState::Aborting, ToggleAction::Rollback),
        },
        ToggleState::Aborting => (
            ToggleState::Failed(ToggleError::StoreFailure),
            ToggleAction::Reject(ToggleError::StoreFailure),
        ),
        ToggleState::Completed(n) => (ToggleState::Completed(n), ToggleAction::Report(n)),
        ToggleState::Failed(e) => (ToggleState::Failed(e), ToggleAction::Reject(e)),
    }
}

impl ToggleError {
    /// The reason in words, as the caller may read it.
    pub fn reason(&self) -> (words: &'static str)
        ensures
            words@ == self.reason_text(),
    {
        match self {
            ToggleError::InvalidAction => "Invalid action. Use 'enable' or 'disable'.",
            ToggleError::EmptyBatch => "No strategies provided",
            ToggleError::StoreFailure => "Database error",
        }
    }

    /// The reason in words.
    pub open spec fn reason_text(&self) -> Seq<char> {
        match self {
            ToggleError::InvalidAction => "Invalid action. Use 'enable' or 'disable'."@,
            ToggleError::EmptyBatch => "No strategies provided"@,
            ToggleError::StoreFailure => "Database error"@,
        }
    }
}

/// What the caller is told when a batch has been applied.
pub fn toggle_message(enable: bool) -> (words: &'static str)
    ensures
        words@ == (if enable {
            "Strategies successfully enabled"@
        } else {
            "Strategies successfully disabled"@
        }),
{
    if enable {
        "Strategies successfully enabled"
    } else {
        "Strategies successfully disabled"
    }
}

/// A strategy's row in the store, as far as a toggle can tell.
pub struct StrategyRow {
    pub owner: u128,
    pub enabled: bool,
}

/// The strategy table: rows by strategy identifier.
pub type StrategyTable = Map<u128, StrategyRow>;

/// A store that keeps its promises: the rows that are durable, and the rows
/// as the open transaction sees them, if one is open.
pub struct StoreModel {
    pub durable: StrategyTable,
    pub pending: Option<StrategyTable>,
}

/// Whether the table has the strategy and `owner` owns it.
pub open spec fn owns(table: StrategyTable, strategy_uid: u128, owner: u128) -> bool {
    table.dom().contains(strategy_uid) && table[strategy_uid].owner == owner
}

/// The table after one update: the flag is set if `owner` owns the strategy,
/// and nothing changes otherwise.
pub open spec fn switched(
    table: StrategyTable,
    strategy_uid: u128,
    owner: u128,
    enable: bool,
) -> StrategyTable {
    if owns(table, strategy_uid, owner) {
        table.insert(strategy_uid, StrategyRow { owner, enabled: enable })
    } else {
        table
    }
}

/// The table after the updates of a whole batch.
pub open spec fn switched_all(
    table: StrategyTable,
    batch: Seq<u128>,
    owner: u128,
    enable: bool,
) -> StrategyTable
    decreases batch.len(),
{
    if batch.len() == 0 {
        table
    } else {
        switched(
            switched_all(table, batch.drop_last(), owner, enable),
            batch.last(),
            owner,
            enable,
        )
    }
}

/// How many entries of the batch name a strategy that `owner` owns.
pub open spec fn owned_count(table: StrategyTable, batch: Seq<u128>, owner: u128) -> nat {
    batch.filter(|strategy_uid: u128| owns(table, strategy_uid, owner)).len()
}

/// What a faithful store makes of a request, and what it answers.  Where
/// `healthy` is false the request fails and changes nothing, but that a
/// rollback always ends the transaction.
pub open spec fn store_answer(store: StoreModel, action: ToggleAction, healthy: bool) -> (
    StoreModel,
    ToggleEvent,
) {
    match action {
        ToggleAction::Begin => if healthy {
            (
                StoreModel { durable: store.durable, pending: Some(store.durable) },
                ToggleEvent::Begun,
            )
        } else {
            (store, ToggleEvent::StoreFailed)
        },
        ToggleAction::Update { strategy_uid, owner, enable } => match store.pending {
            Some(rows) => if healthy {
                (
                    StoreModel {
                        durable: store.durable,
                        pending: Some(switched(rows, strategy_uid, owner, enable)),
                    },
                    ToggleEvent::Updated(
                        if owns(rows, strategy_uid, owner) {
                            1
                        } else {
                            0
                        },
                    ),
                )
            } else {
                (store, ToggleEvent::StoreFailed)
            },
            None => (store, ToggleEvent::StoreFailed),
        },
        ToggleAction::Commit => match store.pending {
            Some(rows) => if healthy {
                (StoreModel { durable: rows, pending: None }, ToggleEvent::Committed)
            } else {
                (store, ToggleEvent::StoreFailed)
            },
            None => (store, ToggleEvent::StoreFailed),
        },
        ToggleAction::Rollback => (
            StoreModel { durable: store.durable, pending: None },
            if healthy {
                ToggleEvent::RolledBack
            } else {
                ToggleEvent::StoreFailed
            },
        ),
        _ => (store, ToggleEvent::StoreFailed),
    }
}

/// Runs a toggle against a faithful store for at most `fuel` requests:
/// `health(n)` says whether the store is healthy at the request numbered `n`.
/// The result is the last state, the last action and the store as it is left.
pub open spec fn toggle_run(
    state: ToggleStateView,
    action: ToggleAction,
    store: StoreModel,
    health: spec_fn(nat) -> bool,
    step: nat,
    fuel: nat,
) -> (ToggleStateView, ToggleAction, StoreModel)
    decreases fuel,
{
    if fuel == 0 || action is Report || action is Reject {
        (state, action, store)
    } else {
        let (answered, event) = store_answer(store, action, health(step));
        let (next, request) = toggle_transition(state, event);
        toggle_run(next, request, answered, health, step + 1, (fuel - 1) as nat)
    }
}

/// How the toggle of `ids` ends against a faithful store that holds
/// `durable` and has no transaction open: the last action, and the store.
pub open spec fn toggle_outcome(
    ids: Seq<u128>,
    owner: u128,
    enable: bool,
    durable: StrategyTable,
    health: spec_fn(nat) -> bool,
) -> (ToggleAction, StoreModel) {
    let (state, action) = toggle_opening(ids, owner, enable);
    let run = toggle_run(
        state,
        action,
        StoreModel { durable, pending: None },
        health,
        0,
        distinct(ids).len() + 3,
    );
    (run.1, run.2)
}

/// Whether the store is healthy at every request from `from` up to, and
/// without, `to`.
pub open spec fn healthy_between(health: spec_fn(nat) -> bool, from: nat, to: nat) -> bool {
    forall|n: nat| from <= n < to ==> #[trigger] health(n)
}

/// The updates of a batch change flags only: no row comes or goes, and every
/// row keeps its owner.
pub proof fn lemma_switched_all_keeps_owners(
    table: StrategyTable,
    batch: Seq<u128>,
    owner: u128,
    enable: bool,
)
    ensures
        switched_all(table, batch, owner, enable).dom() == table.dom(),
        forall|strategy_uid: u128, anyone: u128|
            owns(switched_all(table, batch, owner, enable), strategy_uid, anyone) == owns(
                table,
                strategy_uid,
                anyone,
            ),
    decreases batch.len(),
{
    if batch.len() > 0 {
        lemma_switched_all_keeps_owners(table, batch.drop_last(), owner, enable);
        let before = switched_all(table, batch.drop_last(), owner, enable);
        assert(switched(before, batch.last(), owner, enable).dom() =~= before.dom());
    }
}

/// The updates of a batch, row by row: a row named in the batch and owned by
/// `owner` has the new flag; every other row is as it was.
pub proof fn lemma_switched_all_rows(
    table: StrategyTable,
    batch: Seq<u128>,
    owner: u128,
    enable: bool,
    strategy_uid: u128,
)
    requires
        table.dom().contains(strategy_uid),
    ensures
        switched_all(table, batch, owner, enable).dom().contains(strategy_uid),
        switched_all(table, batch, owner, enable)[strategy_uid] == (if batch.contains(strategy_uid)
            && table[strategy_uid].owner == owner {
            (StrategyRow { owner, enabled: enable })
        } else {
            table[strategy_uid]
        }),
    decreases batch.len(),
{
    if batch.len() > 0 {
        let front = batch.drop_last();
        lemma_switched_all_rows(table, front, owner, enable, strategy_uid);
        lemma_switched_all_keeps_owners(table, front, owner, enable);
        let before = switched_all(table, front, owner, enable);
        assert(owns(before, batch.last(), owner) == owns(table, batch.last(), owner));
        if batch.contains(strategy_uid) {
            let k = choose|k: int| 0 <= k < batch.len() && batch[k] == strategy_uid;
            if k < batch.len() - 1 {
                assert(front[k] == strategy_uid);
            }
        }
        if front.contains(strategy_uid) {
            let k = choose|k: int| 0 <= k < front.len() && front[k] == strategy_uid;
            assert(batch[k] == strategy_uid);
        }
        if batch.last() == strategy_uid {
            assert(batch[batch.len() - 1] == strategy_uid);
        }
    }
}

/// The count of owned entries grows by at most one per entry.
pub proof fn lemma_owned_count_step(table: StrategyTable, batch: Seq<u128>, owner: u128)
    ensures
        owned_count(table, batch, owner) <= batch.len(),
        batch.len() > 0 ==> owned_count(table, batch, owner) == owned_count(
            table,
            batch.drop_last(),
            owner,
        ) + (if owns(table, batch.last(), owner) {
            1nat
        } else {
            0nat
        }),
    decreases batch.len(),
{
    reveal(Seq::filter);
    if batch.len() > 0 {
        lemma_owned_count_step(table, batch.drop_last(), owner);
    }
}

/// From any point of the updates on, a toggle against a faithful store ends
/// in one of two ways: the whole batch committed, or nothing changed.
proof fn lemma_updates_all_or_nothing(
    batch: Seq<u128>,
    owner: u128,
    enable: bool,
    durable: StrategyTable,
    sent: usize,
    affected: u64,
    health: spec_fn(nat) -> bool,
    step: nat,
    fuel: nat,
)
    requires
        batch.len() <= usize::MAX,
        1 <= sent <= batch.len(),
        affected == owned_count(durable, batch.take(sent - 1), owner),
        fuel >= batch.len() - sent + 3,
    ensures
        ({
            let run = toggle_run(
                ToggleStateView::Applying { batch, owner, enable, sent, affected },
                ToggleAction::Update { strategy_uid: batch[sent - 1], owner, enable },
                StoreModel {
                    durable,
                    pending: Some(switched_all(durable, batch.take(sent - 1), owner, enable)),
                },
                health,
                step,
                fuel,
            );
            &&& run.2.pending is None
            &&& if healthy_between(health, step, (step + batch.len() - sent + 2) as nat) {
                &&& run.1 == ToggleAction::Report(owned_count(durable, batch, owner) as u64)
                &&& run.2.durable == switched_all(durable, batch, owner, enable)
            } else {
                &&& run.1 == ToggleAction::Reject(ToggleError::StoreFailure)
                &&& run.2.durable == durable
            }
        }),
    decreases batch.len() - sent,
{
    reveal_with_fuel(toggle_run, 4);
    let sent_before = batch.take(sent - 1);
    let sent_now = batch.take(sent as int);
    let rows = switched_all(durable, sent_before, owner, enable);
    let id = batch[sent - 1];
    assert(sent_now.drop_last() =~= sent_before);
    assert(sent_now.last() == id);
    lemma_switched_all_keeps_owners(durable, sent_before, owner, enable);
    lemma_owned_count_step(durable, sent_now, owner);
    let end = (step + batch.len() - sent + 2) as nat;
    if !health(step) {
        assert(!healthy_between(health, step, end));
    } else {
        let total = owned_count(durable, sent_now, owner);
        assert(total <= sent);
        assert(switched(rows, id, owner, enable) == switched_all(durable, sent_now, owner, enable));
        if sent < batch.len() {
            lemma_updates_all_or_nothing(
                batch,
                owner,
                enable,
                durable,
                (sent + 1) as usize,
                total as u64,
                health,
                step + 1,
                (fuel - 1) as nat,
            );
            assert(healthy_between(health, step, end) <==> healthy_between(health, step + 1, end));
        } else {
            assert(sent_now =~= batch);
            if !health(step + 1) {
                assert(!healthy_between(health, step, end));
            } else {
                assert(healthy_between(health, step, end));
            }
        }
    }
}

/// All or nothing.  Against a faithful store, the toggle of a batch ends with
/// no transaction left open and in one of two ways.  If the store was healthy
/// at every request (the opening, one update for each strategy, the commit),
/// the whole batch is durable and the count of changed rows is reported.  If
/// it failed at any of them, the one thing reported is `StoreFailure`, and the
/// durable rows are exactly what they were.
pub proof fn lemma_toggle_all_or_nothing(
    ids: Seq<u128>,
    owner: u128,
    enable: bool,
    durable: StrategyTable,
    health: spec_fn(nat) -> bool,
)
    requires
        0 < ids.len() <= usize::MAX,
    ensures
        ({
            let batch = distinct(ids);
            let (last, store) = toggle_outcome(ids, owner, enable, durable, health);
            &&& store.pending is None
            &&& if healthy_between(health, 0, batch.len() + 2) {
                &&& last == ToggleAction::Report(owned_count(durable, batch, owner) as u64)
                &&& store.durable == switched_all(durable, batch, owner, enable)
            } else {
                &&& last == ToggleAction::Reject(ToggleError::StoreFailure)
                &&& store.durable == durable
            }
        }),
{
    reveal_with_fuel(toggle_run, 3);
    let batch = distinct(ids);
    lemma_distinct(ids);
    assert(ids.contains(ids[0]));
    assert(batch.contains(ids[0]));
    assert(batch.len() > 0);
    if !health(0) {
        assert(!healthy_between(health, 0, batch.len() + 2));
    } else {
        assert(batch.take(0) =~= Seq::<u128>::empty());
        reveal(Seq::filter);
        assert(owned_count(durable, batch.take(0), owner) == 0);
        lemma_updates_all_or_nothing(
            batch,
            owner,
            enable,
            durable,
            1,
            0,
            health,
            1,
            (batch.len() + 2) as nat,
        );
        assert(healthy_between(health, 0, batch.len() + 2) <==> healthy_between(
            health,
            1,
            batch.len() + 2,
        ));
    }
}

/// An empty batch is refused before the store is asked for anything.
pub proof fn lemma_empty_batch_leaves_store(
    owner: u128,
    enable: bool,
    durable: StrategyTable,
    health: spec_fn(nat) -> bool,
)
    ensures
        toggle_outcome(Seq::<u128>::empty(), owner, enable, durable, health) == (
            ToggleAction::Reject(ToggleError::EmptyBatch),
            StoreModel { durable, pending: None },
        ),
{
    reveal_with_fuel(toggle_run, 2);
}

/// Ownership isolation.  Whatever the batch names and however the toggle
/// ends, a strategy that `owner` does not own is left exactly as it was; and
/// where the toggle succeeds, the count reported is the number of strategies
/// in the batch that `owner` does own, each of which now has the new flag.
pub proof fn lemma_toggle_ownership_isolation(
    ids: Seq<u128>,
    owner: u128,
    enable: bool,
    durable: StrategyTable,
    health: spec_fn(nat) -> bool,
    strategy_uid: u128,
)
    requires
        0 < ids.len() <= usize::MAX,
        durable.dom().contains(strategy_uid),
    ensures
        ({
            let (last, store) = toggle_outcome(ids, owner, enable, durable, health);
            let owned = ids.to_set().filter(|id: u128| owns(durable, id, owner));
            &&& store.durable.dom().contains(strategy_uid)
            &&& durable[strategy_uid].owner != owner ==> store.durable[strategy_uid]
                == durable[strategy_uid]
            &&& !ids.contains(strategy_uid) ==> store.durable[strategy_uid] == durable[strategy_uid]
            &&& last matches ToggleAction::Report(count) ==> {
                &&& count == owned.len()
                &&& owned.contains(strategy_uid) ==> store.durable[strategy_uid] == (StrategyRow {
                    owner,
                    enabled: enable,
                })
            }
        }),
{
    let batch = distinct(ids);
    lemma_distinct(ids);
    lemma_toggle_all_or_nothing(ids, owner, enable, durable, health);
    lemma_switched_all_rows(durable, batch, owner, enable, strategy_uid);
    lemma_owned_count_is_set_size(durable, ids, owner);
}

/// Of a sequence without repetitions, as many entries pass a test as
/// members of its set do.
proof fn lemma_filter_len_of_distinct(s: Seq<u128>, pred: spec_fn(u128) -> bool)
    requires
        s.no_duplicates(),
    ensures
        s.to_set().filter(pred).finite(),
        s.filter(pred).len() == s.to_set().filter(pred).len(),
    decreases s.len(),
{
    reveal(Seq::filter);
    if s.len() == 0 {
        assert(s.to_set().filter(pred) =~= Set::<u128>::empty());
    } else {
        let front = s.drop_last();
        let last = s.last();
        lemma_filter_len_of_distinct(front, pred);
        let passed = front.to_set().filter(pred);
        assert(!front.contains(last)) by {
            if front.contains(last) {
                let k = choose|k: int| 0 <= k < front.len() && front[k] == last;
                assert(s[k] == s[s.len() - 1]);
            }
        }
        assert forall|id: u128| s.to_set().contains(id) <==> (front.to_set().contains(id) || id
            == last) by {
            if s.contains(id) {
                let k = choose|k: int| 0 <= k < s.len() && s[k] == id;
                if k < s.len() - 1 {
                    assert(front[k] == id);
                }
            }
            if front.contains(id) {
                let k = choose|k: int| 0 <= k < front.len() && front[k] == id;
                assert(s[k] == id);
            }
            assert(s[s.len() - 1] == last);
        }
        if pred(last) {
            assert(s.to_set().filter(pred) =~= passed.insert(last));
        } else {
            assert(s.to_set().filter(pred) =~= passed);
        }
    }
}

/// Once a batch is cleared of repetitions, its owned entries are as many as
/// the owned strategies that it names.
pub proof fn lemma_owned_count_is_set_size(table: StrategyTable, ids: Seq<u128>, owner: u128)
    ensures
        ids.to_set().filter(|id: u128| owns(table, id, owner)).finite(),
        owned_count(table, distinct(ids), owner) == ids.to_set().filter(
            |id: u128| owns(table, id, owner),
        ).len(),
{
    let pred = |id: u128| owns(table, id, owner);
    let batch = distinct(ids);
    lemma_distinct(ids);
    lemma_filter_len_of_distinct(batch, pred);
    assert(batch.to_set() =~= ids.to_set());
}

} // verus!
