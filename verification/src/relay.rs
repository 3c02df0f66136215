//! The signal relay: from a strategy's inbound signal to the order message
//! that goes onto the bus.
//!
//! One relay is a short conversation.  The library says which action comes
//! next; the caller performs it against the store or the bus and hands back
//! what happened.  Nothing is published unless the owner's credential was
//! found and decrypted.

use vstd::prelude::*;

use crate::cipher::{decrypt_secret, opened_secret, CipherError};
use crate::guards::AdminGuard;
use crate::text::same_text;
use crate::types::{SignalView, TradingViewSignal};

verus! {

/// Why a relay, or a request for a user's balance, ended without its result.
#[derive(Clone, Copy, Debug, PartialEq, Eq, Structural)]
pub enum RelayError {
    /// No strategy has the identifier.
    StrategyNotFound,
    /// No user has the identifier.
    UserNotFound,
    /// The stored credential could not be decrypted.
    DecryptionFailure,
    /// The bus did not take the message.  Nothing was committed before the
    /// publish, so the whole relay may be tried again.
    RelayPublishFailure,
}

/// A strategy owner's credential as the store holds it.
#[derive(Clone, Debug, PartialEq, Eq)]
pub struct StoredCredential {
    pub exchange: String,
    pub api_key: String,
    /// The secret, as a blob of the credential cipher.
    pub encrypted_secret: String,
}

/// A stored credential's fields as mathematical text.
pub struct CredentialView {
    pub exchange: Seq<char>,
    pub api_key: Seq<char>,
    pub encrypted_secret: Seq<char>,
}

impl View for StoredCredential {
    type V = CredentialView;

    open spec fn view(&self) -> CredentialView {
        CredentialView {
            exchange: self.exchange@,
            api_key: self.api_key@,
            encrypted_secret: self.encrypted_secret@,
        }
    }
}

/// The order message for the downstream worker.  It carries the decrypted
/// secret and lives only until it has been handed to the bus.
#[derive(Clone, Debug, PartialEq, Eq)]
pub struct OutboundOrder {
    pub exchange: String,
    pub api_key: String,
    /// The decrypted secret.
    pub secret: String,
    pub order_id: String,
    /// The signal's direction in lower case.
    pub side: String,
    pub symbol: String,
    /// The quantity as the signal gave it, still as text.
    pub amount: String,
    /// The limit price as the signal gave it; `None` for a market order.
    pub price: Option<String>,
    pub strategy_uid: u128,
    pub title: String,
}

/// An order message's fields as mathematical text.
pub struct OrderView {
    pub exchange: Seq<char>,
    pub api_key: Seq<char>,
    pub secret: Seq<char>,
    pub order_id: Seq<char>,
    pub side: Seq<char>,
    pub symbol: Seq<char>,
    pub amount: Seq<char>,
    pub price: Option<Seq<char>>,
    pub strategy_uid: u128,
    pub title: Seq<char>,
}

impl View for OutboundOrder {
    type V = OrderView;

    open spec fn view(&self) -> OrderView {
        OrderView {
            exchange: self.exchange@,
            api_key: self.api_key@,
            secret: self.secret@,
            order_id: self.order_id@,
            side: self.side@,
            symbol: self.symbol@,
            amount: self.amount@,
            price: match self.price {
                Some(text) => Some(text@),
                None => None,
            },
            strategy_uid: self.strategy_uid,
            title: self.title@,
        }
    }
}

/// What `str::to_lowercase` makes of `text`.
pub uninterp spec fn unicode_lowercase(text: Seq<char>) -> Seq<char>;

/// Calls `str::to_lowercase`.
#[verifier::external_body]
fn lowercase(text: &str) -> (lowered: String)
    ensures
        lowered@ == unicode_lowercase(text@),
{
    text.to_lowercase()
}

/// The price of a signal: none for the word `market`, else the text itself.
pub open spec fn limit_price(order_price: Seq<char>) -> Option<Seq<char>> {
    if order_price == "market"@ {
        None
    } else {
        Some(order_price)
    }
}

/// The order that a signal for `strategy_uid` becomes, once the owner's
/// credential has given up `secret`.
pub open spec fn assembled_order(
    credential: CredentialView,
    secret: Seq<char>,
    signal: SignalView,
    strategy_uid: u128,
) -> OrderView {
    OrderView {
        exchange: credential.exchange,
        api_key: credential.api_key,
        secret,
        order_id: signal.id,
        side: unicode_lowercase(signal.signal),
        symbol: signal.ticker,
        amount: signal.contracts,
        price: limit_price(signal.order_price),
        strategy_uid,
        title: signal.title,
    }
}

/// Reads a signal's price: `market` means that the order carries none.
pub fn normalize_price(order_price: &str) -> (price: Option<String>)
    ensures
        price is None <==> order_price@ == "market"@,
        price matches Some(text) ==> text@ == order_price@,
{
    if same_text(order_price, "market") {
        None
    } else {
        Some(order_price.to_owned())
    }
}

/// Builds the order message from the credential, its decrypted secret and
/// the signal.
pub fn assemble_order(
    credential: &StoredCredential,
    secret: String,
    signal: &TradingViewSignal,
    strategy_uid: u128,
) -> (order: OutboundOrder)
    ensures
        order@ == assembled_order(credential@, secret@, signal@, strategy_uid),
{
    OutboundOrder {
        exchange: credential.exchange.clone(),
        api_key: credential.api_key.clone(),
        secret,
        order_id: signal.id.clone(),
        side: lowercase(signal.signal.as_str()),
        symbol: signal.ticker.clone(),
        amount: signal.contracts.clone(),
        price: normalize_price(signal.order_price.as_str()),
        strategy_uid,
        title: signal.title.clone(),
    }
}

/// The topic that relayed orders are published to.
pub const TRADING_SIGNALS_TOPIC: &'static str = "trading-signals";

/// The topic for events that the operator sends by hand.
pub const ORDER_NOTIFICATIONS_TOPIC: &'static str = "order-notifications";

/// Where a relay stands.
#[derive(Clone, Debug, PartialEq, Eq)]
pub enum RelayState {
    /// The owner's credential has been asked for.
    Resolving { strategy_uid: u128, signal: TradingViewSignal },
    /// The order has been handed to the bus.
    Publishing,
    /// The bus took the order.
    Delivered,
    /// The relay ended without a delivery.
    Failed(RelayError),
}

/// What the store or the bus answered.
#[derive(Clone, Debug, PartialEq, Eq)]
pub enum RelayEvent {
    /// The store has the strategy, and this is its owner's credential.
    CredentialFound(StoredCredential),
    /// The store has no such strategy.
    CredentialMissing,
    /// The bus took the message.
    PublishAcked,
    /// The bus did not take the message.
    PublishFailed,
}

/// What the caller is to do next.
#[derive(Clone, Debug, PartialEq, Eq)]
pub enum RelayAction {
    /// Look up the strategy and its owner's credential.
    Resolve { strategy_uid: u128 },
    /// Serialize the order and publish it to the topic.
    Publish { topic: &'static str, order: OutboundOrder },
    /// Tell the sender that the signal was delivered; the secret stays here.
    Acknowledge,
    /// Tell the sender that the relay failed, and why.
    Reject(RelayError),
}

/// A relay's state as mathematical text.
pub enum RelayStateView {
    Resolving { strategy_uid: u128, signal: SignalView },
    Publishing,
    Delivered,
    Failed(RelayError),
}

/// An answer as mathematical text.
pub enum RelayEventView {
    CredentialFound(CredentialView),
    CredentialMissing,
    PublishAcked,
    PublishFailed,
}

/// An action as mathematical text.
pub enum RelayActionView {
    Resolve { strategy_uid: u128 },
    Publish { topic: Seq<char>, order: OrderView },
    Acknowledge,
    Reject(RelayError),
}

impl View for RelayState {
    type V = RelayStateView;

    open spec fn view(&self) -> RelayStateView {
        match self {
            RelayState::Resolving { strategy_uid, signal } => RelayStateView::Resolving {
                strategy_uid: *strategy_uid,
                signal: signal@,
            },
            RelayState::Publishing => RelayStateView::Publishing,
            RelayState::Delivered => RelayStateView::Delivered,
            RelayState::Failed(e) => RelayStateView::Failed(*e),
        }
    }
}

impl View for RelayEvent {
    type V = RelayEventView;

    open spec fn view(&self) -> RelayEventView {
        match self {
            RelayEvent::CredentialFound(credential) => RelayEventView::CredentialFound(credential@),
            RelayEvent::CredentialMissing => RelayEventView::CredentialMissing,
            RelayEvent::PublishAcked => RelayEventView::PublishAcked,
            RelayEvent::PublishFailed => RelayEventView::PublishFailed,
        }
    }
}

impl View for RelayAction {
    type V = RelayActionView;

    open spec fn view(&self) -> RelayActionView {
        match self {
            RelayAction::Resolve { strategy_uid } => RelayActionView::Resolve {
                strategy_uid: *strategy_uid,
            },
            RelayAction::Publish { topic, order } => RelayActionView::Publish {
                topic: topic@,
                order: order@,
            },
            RelayAction::Acknowledge => RelayActionView::Acknowledge,
            RelayAction::Reject(e) => RelayActionView::Reject(*e),
        }
    }
}

/// The step that follows the credential lookup once the cipher has spoken:
/// `decrypted` is what decrypting the credential's secret gave.
pub open spec fn after_decryption(
    strategy_uid: u128,
    signal: SignalView,
    credential: CredentialView,
    decrypted: Result<Seq<char>, CipherError>,
) -> (RelayStateView, RelayActionView) {
    match decrypted {
        Ok(secret) => (
            RelayStateView::Publishing,
            RelayActionView::Publish {
                topic: TRADING_SIGNALS_TOPIC@,
                order: assembled_order(credential, secret, signal, strategy_uid),
            },
        ),
        Err(_) => (
            RelayStateView::Failed(RelayError::DecryptionFailure),
            RelayActionView::Reject(RelayError::DecryptionFailure),
        ),
    }
}

/// The relay's rule: the state and the action that follow `event` in `state`.
///
/// An answer that the state does not wait for counts as the failure of what
/// it does wait for.  A relay that has ended stays as it is and repeats its
/// outcome.
pub open spec fn relay_transition(
    state: RelayStateView,
    event: RelayEventView,
    master_key: Seq<char>,
) -> (RelayStateView, RelayActionView) {
    match state {
        RelayStateView::Resolving { strategy_uid, signal } => match event {
            RelayEventView::CredentialFound(credential) => after_decryption(
                strategy_uid,
                signal,
                credential,
                opened_secret(credential.encrypted_secret, master_key),
            ),
            _ => (
                RelayStateView::Failed(RelayError::StrategyNotFound),
                RelayActionView::Reject(RelayError::StrategyNotFound),
            ),
        },
        RelayStateView::Publishing => match event {
            RelayEventView::PublishAcked => (
                RelayStateView::Delivered,
                RelayActionView::Acknowledge,
            ),
            _ => (
                RelayStateView::Failed(RelayError::RelayPublishFailure),
                RelayActionView::Reject(RelayError::RelayPublishFailure),
            ),
        },
        RelayStateView::Delivered => (RelayStateView::Delivered, RelayActionView::Acknowledge),
        RelayStateView::Failed(e) => (RelayStateView::Failed(e), RelayActionView::Reject(e)),
    }
}

/// Begins the relay of `signal` for the strategy, for a caller whom the access
/// gate let through: the first action is the lookup of the owner's
/// credential.
pub fn relay_begin(_pass: &AdminGuard, strategy_uid: u128, signal: TradingViewSignal) -> (begun: (
    RelayState,
    RelayAction,
))
    ensures
        begun.0@ == (RelayStateView::Resolving { strategy_uid, signal: signal@ }),
        begun.1@ == (RelayActionView::Resolve { strategy_uid }),
{
    (RelayState::Resolving { strategy_uid, signal }, RelayAction::Resolve { strategy_uid })
}

/// Decides what follows the credential lookup, given what decrypting the
/// credential's secret gave: the order to publish, or the refusal.
pub fn relay_after_decryption(
    strategy_uid: u128,
    signal: &TradingViewSignal,
    credential: &StoredCredential,
    decrypted: Result<String, CipherError>,
) -> (next: (RelayState, RelayAction))
    ensures
        (next.0@, next.1@) == after_decryption(
            strategy_uid,
            signal@,
            credential@,
            match decrypted {
                Ok(secret) => Ok(secret@),
                Err(e) => Err(e),
            },
        ),
{
    match decrypted {
        Ok(secret) => {
            let order = assemble_order(credential, secret, signal, strategy_uid);
            (RelayState::Publishing, RelayAction::Publish { topic: TRADING_SIGNALS_TOPIC, order })
        },
        Err(_) => (
            RelayState::Failed(RelayError::DecryptionFailure),
            RelayAction::Reject(RelayError::DecryptionFailure),
        ),
    }
}

/// Takes the relay one step on: from the state and the answer to the next
/// state and the next action.
pub fn relay_step(state: RelayState, event: RelayEvent, master_key: &str) -> (next: (
    RelayState,
    RelayAction,
))
    ensures
        (next.0@, next.1@) == relay_transition(state@, event@, master_key@),
{
    match state {
        RelayState::Resolving { strategy_uid, signal } => match event {
            RelayEvent::CredentialFound(credential) => {
                let decrypted = decrypt_secret(credential.encrypted_secret.as_str(), master_key);
                relay_after_decryption(strategy_uid, &signal, &credential, decrypted)
            },
            _ => (
                RelayState::Failed(RelayError::StrategyNotFound),
                RelayAction::Reject(RelayError::StrategyNotFound),
            ),
        },
        RelayState::Publishing => match event {
            RelayEvent::PublishAcked => (RelayState::Delivered, RelayAction::Acknowledge),
            _ => (
                RelayState::Failed(RelayError::RelayPublishFailure),
                RelayAction::Reject(RelayError::RelayPublishFailure),
            ),
        },
        RelayState::Delivered => (RelayState::Delivered, RelayAction::Acknowledge),
        RelayState::Failed(e) => (RelayState::Failed(e), RelayAction::Reject(e)),
    }
}

/// The actions with which a relay in `state` answers `events`, one for each.
pub open spec fn relay_actions(
    state: RelayStateView,
    events: Seq<RelayEventView>,
    master_key: Seq<char>,
) -> Seq<RelayActionView>
    decreases events.len(),
{
    if events.len() == 0 {
        Seq::empty()
    } else {
        let (next, action) = relay_transition(state, events[0], master_key);
        seq![action] + relay_actions(next, events.drop_first(), master_key)
    }
}

/// A relay answers every event with one action.
pub proof fn lemma_relay_actions_len(
    state: RelayStateView,
    events: Seq<RelayEventView>,
    master_key: Seq<char>,
)
    ensures
        relay_actions(state, events, master_key).len() == events.len(),
    decreases events.len(),
{
    if events.len() > 0 {
        let (next, action) = relay_transition(state, events[0], master_key);
        lemma_relay_actions_len(next, events.drop_first(), master_key);
    }
}

/// Once the lookup has been answered, whatever else arrives, the relay asks
/// for no publish.
pub proof fn lemma_no_publish_once_resolved(
    state: RelayStateView,
    events: Seq<RelayEventView>,
    master_key: Seq<char>,
    i: int,
)
    requires
        !(state is Resolving),
        0 <= i < events.len(),
    ensures
        !(relay_actions(state, events, master_key)[i] is Publish),
    decreases events.len(),
{
    let (next, action) = relay_transition(state, events[0], master_key);
    lemma_relay_actions_len(next, events.drop_first(), master_key);
    if i > 0 {
        lemma_no_publish_once_resolved(next, events.drop_first(), master_key, i - 1);
    }
}

/// Publish implies well-formed: whatever answers a relay is fed, it asks for
/// a publish at most once, in answer to the lookup, and only where the
/// credential was found and its secret decrypted.  The order then is the one
/// assembled from that credential, that secret and the signal, and the topic
/// is the one for trading signals.
pub proof fn lemma_publish_implies_decrypted(
    strategy_uid: u128,
    signal: SignalView,
    events: Seq<RelayEventView>,
    master_key: Seq<char>,
    i: int,
)
    requires
        0 <= i < events.len(),
    ensures
        relay_actions(
            RelayStateView::Resolving { strategy_uid, signal },
            events,
            master_key,
        )[i] is Publish ==> {
            &&& i == 0
            &&& events[0] matches RelayEventView::CredentialFound(credential)
            &&& opened_secret(credential.encrypted_secret, master_key) matches Ok(secret)
            &&& relay_actions(
                RelayStateView::Resolving { strategy_uid, signal },
                events,
                master_key,
            )[0] == (RelayActionView::Publish {
                topic: TRADING_SIGNALS_TOPIC@,
                order: assembled_order(credential, secret, signal, strategy_uid),
            })
        },
{
    let start = RelayStateView::Resolving { strategy_uid, signal };
    let (next, action) = relay_transition(start, events[0], master_key);
    lemma_relay_actions_len(next, events.drop_first(), master_key);
    if i > 0 {
        lemma_no_publish_once_resolved(next, events.drop_first(), master_key, i - 1);
    }
}

/// A relay whose credential does not decrypt never asks for a publish,
/// whatever arrives after the lookup.
pub proof fn lemma_undecryptable_never_publishes(
    strategy_uid: u128,
    signal: SignalView,
    credential: CredentialView,
    later: Seq<RelayEventView>,
    master_key: Seq<char>,
    i: int,
)
    requires
        0 <= i <= later.len(),
    ensures
        opened_secret(credential.encrypted_secret, master_key) is Err ==> !(relay_actions(
            RelayStateView::Resolving { strategy_uid, signal },
            seq![RelayEventView::CredentialFound(credential)] + later,
            master_key,
        )[i] is Publish),
{
    let events = seq![RelayEventView::CredentialFound(credential)] + later;
    lemma_publish_implies_decrypted(strategy_uid, signal, events, master_key, i);
}

impl RelayError {
    /// The reason in words, as the sender may read it.  It names the kind of
    /// failure and nothing of what was stored or decrypted.
    pub fn reason(&self) -> (words: &'static str)
        ensures
            words@ == self.reason_text(),
    {
        match self {
            RelayError::StrategyNotFound => "Strategy not found",
            RelayError::UserNotFound => "User not found",
            RelayError::DecryptionFailure => "Decryption error",
            RelayError::RelayPublishFailure => "Error sending to NATS",
        }
    }

    /// The reason in words.
    pub open spec fn reason_text(&self) -> Seq<char> {
        match self {
            RelayError::StrategyNotFound => "Strategy not found"@,
            RelayError::UserNotFound => "User not found"@,
            RelayError::DecryptionFailure => "Decryption error"@,
            RelayError::RelayPublishFailure => "Error sending to NATS"@,
        }
    }
}

/// What the sender of a signal is told on delivery.
pub const RELAY_ACKNOWLEDGEMENT: &'static str = "Webhook received and published to NATS";

} // verus!
