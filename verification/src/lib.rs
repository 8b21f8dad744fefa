//! Credential-authentication core: value objects that enforce input validity,
//! pluggable user / revocation / challenge stores, a signed session-token
//! codec, and the signup / login / two-factor / logout flows composed on top.
pub mod auth;
pub mod data_stores;
pub mod email;
pub mod email_client;
pub mod error;
pub mod hashing;
pub mod hashmap_two_fa_code_store;
pub mod hashmap_user_store;
pub mod hashset_banned_token_store;
pub mod laws;
pub mod password;
pub mod strutil;
pub mod token;
pub mod user;
