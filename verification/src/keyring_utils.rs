//! Provider API keys in the credential store of the operating system.
//!
//! Every call opens the store anew, so changes made by other programs are
//! always seen. What the store answers is outside this library's control;
//! what the library decides is how each answer is reported.

use vstd::prelude::*;

use crate::error::ErrorKind;

verus! {

/// The service under which all keys of the application are filed.
pub const SERVICE_NAME: &'static str = "FixMyTex";

/// `keyring::Entry`: a handle on one credential of the store. It is opaque
/// here and only carried from the call that opens it to the call that uses it.
#[verifier::external_type_specification]
#[verifier::external_body]
pub struct ExEntry(keyring::Entry);

/// `keyring::Error`: the store's own description of a failure. It is opaque
/// here; [`classify`] reads off which kind it is.
#[verifier::external_type_specification]
#[verifier::external_body]
pub struct ExStoreError(keyring::Error);

/// `keyring::Entry::new`: names the credential of `user` under `service`.
/// Nothing is promised of the outcome: the platform decides which names it
/// accepts. The call panics only where an earlier panic in another thread
/// has poisoned the crate's own lock, which no argument brings about.
pub assume_specification[ keyring::Entry::new ](service: &str, user: &str) -> (opened: Result<
    keyring::Entry,
    keyring::Error,
>)
;

/// `keyring::Entry::set_password`: asks the store to save `password` for the
/// entry. Nothing is promised of the outcome.
pub assume_specification[ keyring::Entry::set_password ](
    entry: &keyring::Entry,
    password: &str,
) -> (saved: Result<(), keyring::Error>)
;

/// `keyring::Entry::get_password`: asks the store for the entry's password.
/// Nothing is promised of the outcome.
pub assume_specification[ keyring::Entry::get_password ](entry: &keyring::Entry) -> (found: Result<
    String,
    keyring::Error,
>)
;

/// `keyring::Entry::delete_credential`: asks the store to forget the entry's
/// credential. Nothing is promised of the outcome.
pub assume_specification[ keyring::Entry::delete_credential ](entry: &keyring::Entry) -> (removed:
    Result<(), keyring::Error>)
;

/// The ways in which the store describes a failure.
#[derive(Clone, Copy, Debug, PartialEq, Eq, Structural)]
pub enum StoreFault {
    /// The platform's storage failed at run time.
    PlatformFailure,
    /// The storage could not be accessed, for instance because it is locked.
    NoStorageAccess,
    /// No credential exists for the entry.
    NoEntry,
    /// The stored secret is not text.
    BadEncoding,
    /// A name or the secret is longer than the platform allows.
    TooLong,
    /// A name is not acceptable to the platform.
    Invalid,
    /// More than one credential matches the entry.
    Ambiguous,
    /// A failure of a kind this library does not know.
    Other,
}

/// Reads off which kind of failure the store reported, one case for each
/// variant of `keyring::Error`. Trusted; nothing is promised of the result.
#[verifier::external_body]
fn classify(error: &keyring::Error) -> StoreFault {
    match error {
        keyring::Error::PlatformFailure(_) => StoreFault::PlatformFailure,
        keyring::Error::NoStorageAccess(_) => StoreFault::NoStorageAccess,
        keyring::Error::NoEntry => StoreFault::NoEntry,
        keyring::Error::BadEncoding(_) => StoreFault::BadEncoding,
        keyring::Error::TooLong(_, _) => StoreFault::TooLong,
        keyring::Error::Invalid(_, _) => StoreFault::Invalid,
        keyring::Error::Ambiguous(_) => StoreFault::Ambiguous,
        _ => StoreFault::Other,
    }
}

/// The step of an operation at which the store failed.
#[derive(Clone, Copy, Debug, PartialEq, Eq, Structural)]
pub enum Stage {
    /// Naming the credential.
    Open,
    /// Saving, reading or removing it.
    Access,
}

/// A failed interaction with the store.
#[derive(Clone, Copy, Debug, PartialEq, Eq, Structural)]
pub struct Failure {
    pub stage: Stage,
    pub fault: StoreFault,
}

/// How a failure to save a key is reported: `StoreUnavailable` when the
/// store could not be reached, that is, when the credential could not be
/// named or the storage could not be accessed; `WriteFailed` otherwise.
pub open spec fn store_error(failure: Failure) -> ErrorKind {
    if failure.stage == Stage::Open || failure.fault == StoreFault::NoStorageAccess {
        ErrorKind::StoreUnavailable
    } else {
        ErrorKind::WriteFailed
    }
}

/// How a failure to read a key is reported: `NotFound` when the store holds
/// no credential for the provider, `StoreUnavailable` otherwise.
pub open spec fn retrieve_error(failure: Failure) -> ErrorKind {
    if failure.stage == Stage::Access && failure.fault == StoreFault::NoEntry {
        ErrorKind::NotFound
    } else {
        ErrorKind::StoreUnavailable
    }
}

/// How a failure to remove a key is reported: `NotFound` when the store
/// holds no credential for the provider, `DeleteFailed` otherwise.
pub open spec fn delete_error(failure: Failure) -> ErrorKind {
    if failure.stage == Stage::Access && failure.fault == StoreFault::NoEntry {
        ErrorKind::NotFound
    } else {
        ErrorKind::DeleteFailed
    }
}

/// Reports what came of saving a key.
pub fn store_result(attempt: Result<(), Failure>) -> (stored: Result<(), ErrorKind>)
    ensures
        stored == match attempt {
            Ok(()) => Ok::<(), ErrorKind>(()),
            Err(failure) => Err::<(), ErrorKind>(store_error(failure)),
        },
{
    match attempt {
        Ok(()) => Ok(()),
        Err(failure) => {
            if matches!(failure.stage, Stage::Open) || matches!(
                failure.fault,
                StoreFault::NoStorageAccess
            ) {
                Err(ErrorKind::StoreUnavailable)
            } else {
                Err(ErrorKind::WriteFailed)
            }
        },
    }
}

/// Reports what came of reading a key: the secret as the store gave it, or
/// the kind of failure.
pub fn retrieve_result(attempt: Result<String, Failure>) -> (retrieved: Result<String, ErrorKind>)
    ensures
        retrieved == match attempt {
            Ok(secret) => Ok::<String, ErrorKind>(secret),
            Err(failure) => Err::<String, ErrorKind>(retrieve_error(failure)),
        },
{
    match attempt {
        Ok(secret) => Ok(secret),
        Err(failure) => {
            if matches!(failure.stage, Stage::Access) && matches!(failure.fault, StoreFault::NoEntry) {
                Err(ErrorKind::NotFound)
            } else {
                Err(ErrorKind::StoreUnavailable)
            }
        },
    }
}

/// Reports what came of removing a key.
pub fn delete_result(attempt: Result<(), Failure>) -> (deleted: Result<(), ErrorKind>)
    ensures
        deleted == match attempt {
            Ok(()) => Ok::<(), ErrorKind>(()),
            Err(failure) => Err::<(), ErrorKind>(delete_error(failure)),
        },
{
    match attempt {
        Ok(()) => Ok(()),
        Err(failure) => {
            if matches!(failure.stage, Stage::Access) && matches!(failure.fault, StoreFault::NoEntry) {
                Err(ErrorKind::NotFound)
            } else {
                Err(ErrorKind::DeleteFailed)
            }
        },
    }
}

/// Names the credential of `provider` in the application's service.
fn open_entry(provider: &str) -> (opened: Result<keyring::Entry, Failure>)
    ensures
        opened matches Err(failure) ==> failure.stage == Stage::Open,
{
    match keyring::Entry::new(SERVICE_NAME, provider) {
        Ok(entry) => Ok(entry),
        Err(error) => Err(Failure { stage: Stage::Open, fault: classify(&error) }),
    }
}

/// Saves `api_key` as the key of `provider`, replacing any earlier one.
///
/// Whether the store accepts the key is the store's decision. A failure is
/// `StoreUnavailable` or `WriteFailed`, as [`store_result`] tells them apart.
pub fn store_api_key(provider: &str, api_key: &str) -> (stored: Result<(), ErrorKind>)
    ensures
        stored matches Err(kind) ==> kind == ErrorKind::StoreUnavailable || kind
            == ErrorKind::WriteFailed,
{
    let attempt = match open_entry(provider) {
        Err(failure) => Err(failure),
        Ok(entry) => match entry.set_password(api_key) {
            Ok(()) => Ok(()),
            Err(error) => Err(Failure { stage: Stage::Access, fault: classify(&error) }),
        },
    };
    store_result(attempt)
}

/// Reads the key of `provider` from the store.
///
/// A failure is `NotFound` when the store holds no key for the provider and
/// `StoreUnavailable` otherwise, as [`retrieve_result`] tells them apart.
pub fn get_api_key(provider: &str) -> (retrieved: Result<String, ErrorKind>)
    ensures
        retrieved matches Err(kind) ==> kind == ErrorKind::NotFound || kind
            == ErrorKind::StoreUnavailable,
{
    let attempt = match open_entry(provider) {
        Err(failure) => Err(failure),
        Ok(entry) => match entry.get_password() {
            Ok(secret) => Ok(secret),
            Err(error) => Err(Failure { stage: Stage::Access, fault: classify(&error) }),
        },
    };
    retrieve_result(attempt)
}

/// Removes the key of `provider` from the store.
///
/// A failure is `NotFound` when the store holds no key for the provider and
/// `DeleteFailed` otherwise, as [`delete_result`] tells them apart.
pub fn delete_api_key(provider: &str) -> (deleted: Result<(), ErrorKind>)
    ensures
        deleted matches Err(kind) ==> kind == ErrorKind::NotFound || kind
            == ErrorKind::DeleteFailed,
{
    let attempt = match open_entry(provider) {
        Err(failure) => Err(failure),
        Ok(entry) => match entry.delete_credential() {
            Ok(()) => Ok(()),
            Err(error) => Err(Failure { stage: Stage::Access, fault: classify(&error) }),
        },
    };
    delete_result(attempt)
}

/// A missing credential is the one answer of the store that is reported as
/// `NotFound`, by reading and by removing alike; saving never reports it.
pub proof fn lemma_not_found_means_no_entry(failure: Failure)
    ensures
        retrieve_error(failure) == ErrorKind::NotFound <==> failure == (Failure {
            stage: Stage::Access,
            fault: StoreFault::NoEntry,
        }),
        delete_error(failure) == ErrorKind::NotFound <==> failure == (Failure {
            stage: Stage::Access,
            fault: StoreFault::NoEntry,
        }),
        store_error(failure) != ErrorKind::NotFound,
{
}

} // verus!
