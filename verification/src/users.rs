//! What the user endpoints compute: the row of a new user with its secret
//! sealed, the change to a user's credential, and the query that fetches a
//! balance with the decrypted credential.

use vstd::prelude::*;

use crate::cipher::{decrypt_secret, encrypt_secret, fits, opened_secret, CipherError};
use crate::guards::AdminGuard;
use crate::relay::{CredentialView, RelayError, StoredCredential};
use crate::types::{RegisterUserRequest, UpdateUserRequest};

verus! {

/// A user's row as it is written to the store: the secret is sealed.
#[derive(Clone, Debug, PartialEq, Eq)]
pub struct UserRecord {
    pub id: u128,
    pub user_telegram_id: i64,
    pub api_key: String,
    /// The secret, as a blob of the credential cipher.
    pub encrypted_secret: String,
    pub exchange: String,
}

/// The change to a user's credential as it is written to the store.
#[derive(Clone, Debug, PartialEq, Eq)]
pub struct UserUpdate {
    pub api_key: String,
    /// The new secret, sealed; `None` keeps the stored one.
    pub encrypted_secret: Option<String>,
    pub exchange: String,
}

/// What the balance service is asked: the credential with its secret in the
/// clear.  It lives only until the request has been sent.
#[derive(Clone, Debug, PartialEq, Eq)]
pub struct BalanceQuery {
    pub exchange: String,
    pub api_key: String,
    /// The decrypted secret.
    pub secret: String,
}

/// Why an encryption may fail: the secret is too long, or no nonce is to be
/// had.  Only the first depends on the secret.
pub open spec fn sealing_refused(e: CipherError, secret: Seq<char>) -> bool {
    &&& e == CipherError::PlaintextTooLong || e == CipherError::EntropyUnavailable
    &&& e == CipherError::PlaintextTooLong <==> !fits(secret)
}

/// The row of a new user, given the blob that holds the secret: everything
/// but the secret is taken over from the request.
pub fn user_record(request: &RegisterUserRequest, user_uid: u128, encrypted_secret: String) -> (record:
    UserRecord)
    ensures
        record.id == user_uid,
        record.user_telegram_id == request.user_telegram_id,
        record.api_key@ == request.api_key@,
        record.encrypted_secret@ == encrypted_secret@,
        record.exchange@ == request.exchange@,
{
    UserRecord {
        id: user_uid,
        user_telegram_id: request.user_telegram_id,
        api_key: request.api_key.clone(),
        encrypted_secret,
        exchange: request.exchange.clone(),
    }
}

/// The change to a user's credential, given the blob that holds the new
/// secret, if there is one.
pub fn user_update(request: &UpdateUserRequest, encrypted_secret: Option<String>) -> (update:
    UserUpdate)
    ensures
        update.api_key@ == request.api_key@,
        update.exchange@ == request.exchange@,
        update.encrypted_secret is Some <==> encrypted_secret is Some,
        update.encrypted_secret matches Some(kept) ==> encrypted_secret matches Some(blob)
            && kept@ == blob@,
{
    UserUpdate {
        api_key: request.api_key.clone(),
        encrypted_secret,
        exchange: request.exchange.clone(),
    }
}

/// Prepares the row of a new user: the secret is sealed under the master
/// key, everything else is taken over.  The sealed secret decrypts to the
/// one given.
pub fn register(
    _pass: &AdminGuard,
    request: &RegisterUserRequest,
    user_uid: u128,
    master_key: &str,
) -> (row: Result<UserRecord, CipherError>)
    ensures
        (match row {
            Ok(record) => {
                &&& record.id == user_uid
                &&& record.user_telegram_id == request.user_telegram_id
                &&& record.api_key@ == request.api_key@
                &&& record.exchange@ == request.exchange@
                &&& fits(request.secret_key@)
                &&& opened_secret(record.encrypted_secret@, master_key@) == Ok::<
                    Seq<char>,
                    CipherError,
                >(request.secret_key@)
            },
            Err(e) => sealing_refused(e, request.secret_key@),
        }),
{
    match encrypt_secret(request.secret_key.as_str(), master_key) {
        Err(e) => Err(e),
        Ok(encrypted_secret) => Ok(user_record(request, user_uid, encrypted_secret)),
    }
}

/// Prepares the change to a user's credential.  A request without a secret
/// keeps the stored one and cannot fail; a request with one seals it.
pub fn prepare_update(_pass: &AdminGuard, request: &UpdateUserRequest, master_key: &str) -> (change:
    Result<UserUpdate, CipherError>)
    ensures
        (match change {
            Ok(update) => {
                &&& update.api_key@ == request.api_key@
                &&& update.exchange@ == request.exchange@
                &&& match request.secret_key {
                    None => update.encrypted_secret is None,
                    Some(secret) => {
                        &&& fits(secret@)
                        &&& update.encrypted_secret matches Some(blob)
                        &&& opened_secret(blob@, master_key@) == Ok::<Seq<char>, CipherError>(
                            secret@,
                        )
                    },
                }
            },
            Err(e) => request.secret_key matches Some(secret) && sealing_refused(e, secret@),
        }),
{
    let encrypted_secret = match &request.secret_key {
        None => None,
        Some(secret) => match encrypt_secret(secret.as_str(), master_key) {
            Err(e) => {
                return Err(e);
            },
            Ok(blob) => Some(blob),
        },
    };
    Ok(user_update(request, encrypted_secret))
}

/// What a balance request comes to once the cipher has spoken: the
/// exchange, the key and the secret in the clear, or the refusal.
pub open spec fn balance_after(
    credential: CredentialView,
    decrypted: Result<Seq<char>, CipherError>,
) -> Result<(Seq<char>, Seq<char>, Seq<char>), RelayError> {
    match decrypted {
        Err(_) => Err(RelayError::DecryptionFailure),
        Ok(secret) => Ok((credential.exchange, credential.api_key, secret)),
    }
}

/// What a balance request comes to, given what the store has of the user.
pub open spec fn balance_outcome(lookup: Option<CredentialView>, master_key: Seq<char>) -> Result<
    (Seq<char>, Seq<char>, Seq<char>),
    RelayError,
> {
    match lookup {
        None => Err(RelayError::UserNotFound),
        Some(credential) => balance_after(
            credential,
            opened_secret(credential.encrypted_secret, master_key),
        ),
    }
}

/// Whether `query` is what `outcome` describes.
pub open spec fn query_matches(
    query: Result<BalanceQuery, RelayError>,
    outcome: Result<(Seq<char>, Seq<char>, Seq<char>), RelayError>,
) -> bool {
    match outcome {
        Ok((exchange, api_key, secret)) => {
            &&& query matches Ok(q)
            &&& q.exchange@ == exchange
            &&& q.api_key@ == api_key
            &&& q.secret@ == secret
        },
        Err(e) => query matches Err(f) && f == e,
    }
}

/// Builds the balance query from the credential and what decrypting its
/// secret gave.
pub fn balance_after_decryption(
    credential: &StoredCredential,
    decrypted: Result<String, CipherError>,
) -> (query: Result<BalanceQuery, RelayError>)
    ensures
        query_matches(
            query,
            balance_after(
                credential@,
                match decrypted {
                    Ok(secret) => Ok(secret@),
                    Err(e) => Err(e),
                },
            ),
        ),
{
    match decrypted {
        Err(_) => Err(RelayError::DecryptionFailure),
        Ok(secret) => Ok(
            BalanceQuery {
                exchange: credential.exchange.clone(),
                api_key: credential.api_key.clone(),
                secret,
            },
        ),
    }
}

/// Builds the balance query for the user that was looked up: `None` where
/// the store has no such user.
pub fn balance_query(
    _pass: &AdminGuard,
    lookup: Option<&StoredCredential>,
    master_key: &str,
) -> (query: Result<BalanceQuery, RelayError>)
    ensures
        query_matches(
            query,
            balance_outcome(
                match lookup {
                    Some(credential) => Some(credential@),
                    None => None,
                },
                master_key@,
            ),
        ),
{
    match lookup {
        None => Err(RelayError::UserNotFound),
        Some(credential) => {
            let decrypted = decrypt_secret(credential.encrypted_secret.as_str(), master_key);
            balance_after_decryption(credential, decrypted)
        },
    }
}

} // verus!
