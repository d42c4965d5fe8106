//! When the API key is taken from the secure store and when it is asked for.

use vstd::prelude::*;

verus! {

/// The service name under which the key is stored.
pub const SERVICE_NAME: &'static str = "ai-cli";

/// The user name under which the key is stored.
pub const USERNAME: &'static str = "user";

/// Where the key for this run comes from.
#[derive(Debug)]
pub enum KeySource {
    /// The key found in the secure store.
    Stored(String),
    /// None was stored: ask the user for one and store it.
    AskAndStore,
}

/// Resolves the key from what the secure store holds: a stored key is used
/// as it is; without one the user is asked.
pub fn resolve_key(stored: Option<String>) -> (r: KeySource)
    ensures
        stored is None ==> r is AskAndStore,
        stored matches Some(k) ==> (r matches KeySource::Stored(u) && u@ == k@),
{
    match stored {
        Some(k) => KeySource::Stored(k),
        None => KeySource::AskAndStore,
    }
}

} // verus!
