//! What the strategy endpoints compute: the webhook address of a new
//! strategy, the split of a user's strategies into enabled and disabled, and
//! the verdict on a change that touched no row.

use vstd::prelude::*;
use vstd::string::StringExecFns;

use crate::config::Config;
use crate::hex_text::hex_digit;
use crate::relay::RelayError;
use crate::types::{CreateStrategyRequest, CreateStrategyResponse, StrategiesResponse, Strategy};

verus! {

/// The hexadecimal digit of `id` at place `k`, counted from the highest of
/// its 32.
pub open spec fn uuid_nibble(id: u128, k: int) -> int {
    (id as int / vstd::arithmetic::power::pow(16, (31 - k) as nat)) % 16
}

/// An identifier in the usual hyphenated form: 32 lower-case hexadecimal
/// digits, highest first, in groups of 8, 4, 4, 4 and 12.
pub open spec fn uuid_text(id: u128) -> Seq<char> {
    Seq::new(
        36,
        |p: int|
            if p == 8 || p == 13 || p == 18 || p == 23 {
                '-'
            } else if p < 8 {
                hex_digit(uuid_nibble(id, p))
            } else if p < 13 {
                hex_digit(uuid_nibble(id, p - 1))
            } else if p < 18 {
                hex_digit(uuid_nibble(id, p - 2))
            } else if p < 23 {
                hex_digit(uuid_nibble(id, p - 3))
            } else {
                hex_digit(uuid_nibble(id, p - 4))
            },
    )
}

/// Calls `Uuid::from_u128` and formats the result, which `uuid` writes in
/// the hyphenated lower-case form.
#[verifier::external_body]
fn hyphenated(id: u128) -> (text: String)
    ensures
        text@ == uuid_text(id),
{
    uuid::Uuid::from_u128(id).to_string()
}

/// The address that signals for a strategy are sent to.
pub open spec fn webhook_address(domain: Seq<char>, strategy_uid: u128) -> Seq<char> {
    domain + "/webhook/"@ + uuid_text(strategy_uid)
}

/// Writes the webhook address of a strategy under the configured domain.
pub fn webhook_url(domain: &str, strategy_uid: u128) -> (url: String)
    ensures
        url@ == webhook_address(domain@, strategy_uid),
{
    let mut url = String::from_str(domain);
    url.append("/webhook/");
    let id = hyphenated(strategy_uid);
    url.append(id.as_str());
    url
}

/// The answer to the creation of the strategy with the identifier given.
pub fn strategy_created(config: &Config, strategy_uid: u128) -> (response: CreateStrategyResponse)
    ensures
        response.strategy_uid == strategy_uid,
        response.webhook@ == webhook_address(config.domain@, strategy_uid),
{
    CreateStrategyResponse { webhook: webhook_url(config.domain.as_str(), strategy_uid), strategy_uid }
}

/// The renaming of one strategy, bound to the owner who asks for it: the
/// store is to change the name only where the strategy belongs to `owner`.
#[derive(Clone, Debug, PartialEq, Eq)]
pub struct StrategyRename {
    pub strategy_uid: u128,
    pub owner: u128,
    pub strategy_name: String,
}

/// Binds a renaming to the strategy and to the user named in the request, so
/// that it touches no strategy of anybody else.
pub fn rename_strategy(strategy_uid: u128, request: &CreateStrategyRequest) -> (change:
    StrategyRename)
    ensures
        change.strategy_uid == strategy_uid,
        change.owner == request.user_uid,
        change.strategy_name@ == request.strategy_name@,
{
    StrategyRename {
        strategy_uid,
        owner: request.user_uid,
        strategy_name: request.strategy_name.clone(),
    }
}

/// Splits a user's strategies: the enabled ones are `personal`, the others
/// `other`, each in the order in which they came.
pub fn partition_strategies(rows: Vec<Strategy>) -> (response: StrategiesResponse)
    ensures
        response.personal@ == rows@.filter(|s: Strategy| s.enabled),
        response.other@ == rows@.filter(|s: Strategy| !s.enabled),
{
    let ghost all = rows@;
    let mut personal: Vec<Strategy> = Vec::new();
    let mut other: Vec<Strategy> = Vec::new();
    for strategy in iter: rows
        invariant
            iter.seq() == all,
            personal@ == all.take(iter.index() as int).filter(|s: Strategy| s.enabled),
            other@ == all.take(iter.index() as int).filter(|s: Strategy| !s.enabled),
    {
        proof {
            reveal(Seq::filter);
            let k = iter.index() as int;
            assert(all.take(k + 1).drop_last() =~= all.take(k));
            assert(all.take(k + 1).last() == strategy);
        }
        if strategy.enabled {
            personal.push(strategy);
        } else {
            other.push(strategy);
        }
    }
    proof {
        assert(all.take(all.len() as int) =~= all);
    }
    StrategiesResponse { personal, other }
}

/// The verdict on a change by identifier: one that touched no row found
/// nothing, and is reported as `missing`.
pub fn expect_found(rows_affected: u64, missing: RelayError) -> (verdict: Result<(), RelayError>)
    ensures
        rows_affected == 0 ==> verdict == Err::<(), RelayError>(missing),
        rows_affected != 0 ==> verdict is Ok,
{
    if rows_affected == 0 {
        Err(missing)
    } else {
        Ok(())
    }
}

} // verus!
