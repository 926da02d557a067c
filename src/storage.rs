//! Keys and clients for the result store.

use vstd::prelude::*;
use vstd::string::*;

verus! {

/// The store key of a repository: a fixed namespace followed by the identifier
/// exactly as the caller gave it.
pub open spec fn store_key_text(repo: Seq<char>) -> Seq<char> {
    "cjlint_"@ + repo
}

/// The store key of a repository.
pub fn store_key(repo: &str) -> (r: String)
    ensures
        r@ == store_key_text(repo@),
{
    String::from_str("cjlint_").concat(repo)
}

/// Why a result could not be stored.
#[derive(Clone, Debug, PartialEq, Eq)]
pub enum StoreError {
    /// No connection string is configured.
    Unconfigured,
    /// The connection string was refused.
    Client(String),
    /// Connecting to the store or writing to it failed.
    Backend(String),
}

/// The description of a store failure.
pub open spec fn store_error_text(e: StoreError) -> Seq<char> {
    match e {
        StoreError::Unconfigured => "KV_URL not set"@,
        StoreError::Client(m) => "Failed to create Redis client: "@ + m@,
        StoreError::Backend(m) => m@,
    }
}

impl StoreError {
    /// The description of the failure.
    pub fn message(&self) -> (r: String)
        ensures
            r@ == store_error_text(*self),
    {
        match self {
            StoreError::Unconfigured => String::from_str("KV_URL not set"),
            StoreError::Client(m) => String::from_str("Failed to create Redis client: ").concat(m.as_str()),
            StoreError::Backend(m) => m.clone(),
        }
    }
}

#[verifier::external_type_specification]
#[verifier::external_body]
pub struct ExClient(redis::Client);

/// Whether a store connection string parses.
pub uninterp spec fn redis_url_accepted(url: Seq<char>) -> bool;

/// Relies on `redis::Client::open`: it parses the connection string and opens no
/// connection yet, failing exactly when the string does not parse; the outcome
/// depends on the text alone.
#[verifier::external_body]
fn open_client(url: &str) -> (r: Result<redis::Client, String>)
    ensures
        r is Ok <==> redis_url_accepted(url@),
{
    redis::Client::open(url).map_err(|e| e.to_string())
}

/// The store client for the configured connection string, checked before any
/// connection is attempted: a missing string is a configuration error and one
/// that does not parse is refused.
pub fn store_client(kv_url: Option<&str>) -> (r: Result<redis::Client, StoreError>)
    ensures
        match kv_url {
            None => r matches Err(StoreError::Unconfigured),
            Some(u) => (r is Ok <==> redis_url_accepted(u@)) && (r is Err ==> r matches Err(
                StoreError::Client(_),
            )),
        },
{
    match kv_url {
        None => Err(StoreError::Unconfigured),
        Some(u) => match open_client(u) {
            Ok(c) => Ok(c),
            Err(e) => Err(StoreError::Client(e)),
        },
    }
}

} // verus!
