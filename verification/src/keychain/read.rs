//! The credentials the app reads (never writes or refreshes) and the error a
//! failed Keychain read becomes.

use vstd::prelude::*;

verus! {

/// errSecItemNotFound: the Keychain item does not exist.
pub const ERR_SEC_ITEM_NOT_FOUND: i32 = -25300;

/// The credentials the app needs. The token is used only as a request header.
#[derive(Debug, Clone)]
pub struct Credentials {
    pub access_token: String,
    /// Epoch millis the token expires, when the blob says.
    pub expires_at: Option<i64>,
    pub subscription_type: Option<String>,
}

/// Why a Keychain read failed. Every variant maps to a Blind Snapshot.
#[derive(Debug)]
pub enum KeychainError {
    /// The item (or the `$USER` account) was not found.
    NotFound,
    /// The user denied the prompt, or access was refused.
    Denied,
    /// The blob was present but not the JSON shape expected.
    Parse(String),
}

/// Map a Security.framework OSStatus to the coarse error: not-found is
/// distinct, every other status (user cancel, auth failure, ...) is denied.
pub fn map_keychain_error(code: i32) -> (error: KeychainError)
    ensures
        code == ERR_SEC_ITEM_NOT_FOUND ==> error is NotFound,
        code != ERR_SEC_ITEM_NOT_FOUND ==> error is Denied,
{
    if code == ERR_SEC_ITEM_NOT_FOUND {
        KeychainError::NotFound
    } else {
        KeychainError::Denied
    }
}

} // verus!
