//! Client side of a one-time secret sharing service.
//!
//! A secret is sealed locally with an authenticated cipher under a fresh key;
//! only the sealed envelope travels to the storage service, while the key is
//! placed in the fragment of the share URL.

mod text;
pub mod cipher;
pub mod envelope;
pub mod error;
pub mod url;
pub mod input;
pub mod config;
pub mod protocol;
