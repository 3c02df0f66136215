//! The values that cross the library's boundary.
//!
//! Identifiers of users and strategies are 128-bit numbers here; the caller
//! turns them into whatever its storage and its wire format want.

use vstd::prelude::*;

verus! {

/// A request for the balance of one user on one exchange.
#[derive(Clone, Debug, PartialEq, Eq)]
pub struct BalanceRequest {
    pub user_telegram_id: i64,
    pub exchange: String,
}

/// A request to register a user with an exchange credential.
#[derive(Clone, Debug, PartialEq, Eq)]
pub struct RegisterUserRequest {
    pub user_telegram_id: i64,
    pub api_key: String,
    /// The secret half of the credential, in the clear.
    pub secret_key: String,
    pub exchange: String,
}

/// The answer to a registration.
#[derive(Clone, Copy, Debug, PartialEq, Eq)]
pub struct RegisterUserResponse {
    pub user_uid: u128,
}

/// A request to change a user's credential.
#[derive(Clone, Debug, PartialEq, Eq)]
pub struct UpdateUserRequest {
    pub api_key: String,
    /// The new secret in the clear; `None` keeps the stored one.
    pub secret_key: Option<String>,
    pub exchange: String,
}

/// A user as shown to the operator: never with a key or a secret.
#[derive(Clone, Debug, PartialEq, Eq)]
pub struct User {
    pub id: u128,
    pub user_telegram_id: i64,
    pub exchange: String,
}

/// A request to create, or to rename, a strategy.
#[derive(Clone, Debug, PartialEq, Eq)]
pub struct CreateStrategyRequest {
    pub user_uid: u128,
    pub strategy_name: String,
}

/// The answer to the creation of a strategy.
#[derive(Clone, Debug, PartialEq, Eq)]
pub struct CreateStrategyResponse {
    /// The address that signals for the strategy are sent to.
    pub webhook: String,
    pub strategy_uid: u128,
}

/// The strategies to enable or disable in one batch.
#[derive(Clone, Debug, PartialEq, Eq)]
pub struct ToggleStrategiesRequest {
    pub strategy_uids: Vec<u128>,
}

/// A strategy as shown to the operator.
#[derive(Clone, Debug, PartialEq, Eq)]
pub struct Strategy {
    pub strategy_uid: u128,
    pub strategy_name: String,
    pub enabled: bool,
}

/// A user's strategies, the enabled ones apart from the others.
#[derive(Clone, Debug, PartialEq, Eq)]
pub struct StrategiesResponse {
    /// The enabled strategies.
    pub personal: Vec<Strategy>,
    /// The disabled strategies.
    pub other: Vec<Strategy>,
}

/// A trading signal as the charting service sends it: every field is text.
#[derive(Clone, Debug, PartialEq, Eq)]
pub struct TradingViewSignal {
    /// The sender's identifier of the order.
    pub id: String,
    /// `buy` or `sell`, in any case.
    pub signal: String,
    /// The quantity, as decimal text.
    pub contracts: String,
    /// The instrument, such as `NEAR/USDT`.
    pub ticker: String,
    /// The limit price as decimal text, or `market`.
    pub order_price: String,
    pub deposit_pct_limit: String,
    pub order_type: String,
    /// A free note.
    pub title: String,
    pub sl_percentage: String,
}

/// A signal's fields as mathematical text.
pub struct SignalView {
    pub id: Seq<char>,
    pub signal: Seq<char>,
    pub contracts: Seq<char>,
    pub ticker: Seq<char>,
    pub order_price: Seq<char>,
    pub deposit_pct_limit: Seq<char>,
    pub order_type: Seq<char>,
    pub title: Seq<char>,
    pub sl_percentage: Seq<char>,
}

impl View for TradingViewSignal {
    type V = SignalView;

    open spec fn view(&self) -> SignalView {
        SignalView {
            id: self.id@,
            signal: self.signal@,
            contracts: self.contracts@,
            ticker: self.ticker@,
            order_price: self.order_price@,
            deposit_pct_limit: self.deposit_pct_limit@,
            order_type: self.order_type@,
            title: self.title@,
            sl_percentage: self.sl_percentage@,
        }
    }
}

} // verus!
