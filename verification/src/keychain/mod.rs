//! The usage account's OAuth credentials as read from the macOS Keychain, and how a
//! failed read is classified.

pub mod read;
