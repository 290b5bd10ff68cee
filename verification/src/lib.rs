//! Identity tokens: values that are unique among all tokens alive at the same time, and that
//! can be compared, ordered, hashed and printed.
//!
//! A token owns one byte on the heap. The byte's address is the token's identity: it stays
//! the same wherever the token itself is moved, and no two tokens alive at the same time
//! share it. Cloning a token gives a new token with a new identity.
//!
//! Contracts speak of a token through its view, written `token@`: the address of its byte
//! as a `usize`.

pub mod cell;
pub mod hashing;
pub mod laws;
pub mod order;
pub mod render;
pub mod token;

pub use token::UniqueId;
