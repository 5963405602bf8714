//! Identity and access core of a user-management service.
//!
//! The crate resolves caller-supplied identifiers to a storage column, signs
//! and verifies expiring confirmation tokens, issues and decodes session
//! credentials, guards profile mutations by ownership, and decides the
//! outcome of each account flow from the events the surrounding service
//! reports.

pub mod avatar;
pub mod clock;
pub mod confirmation;
pub mod decimal;
pub mod guard;
pub mod identifier;
pub mod jwt;
pub mod login;
pub mod mac;
pub mod nonce;
pub mod profile;
pub mod registration;
pub mod reply;
pub mod session;
pub mod text;
pub mod token;
