//! A registry of verified users: who may be added, who may be removed, and
//! what a write request is answered with.
//!
//! The registry ties a game-character handle to a chat-account id. It is read
//! by anyone and written by whoever knows the shared secret. This crate holds
//! the rules: the match predicate and the first-match lookup, guarded
//! addition and removal, the token check, the reading of a request's intent,
//! the answers, and the one configuration that is refused. Files, sockets and
//! the lock around the shared state are left to the program that uses it.
//!
//! Every executable function carries a contract over the mathematical view of
//! the data it touches, and Verus proves each body against its contract.
//! Three things are taken on trust, each marked where it stands: what
//! `str::trim` and `str::to_lowercase` return, in [`text`], and what the
//! clock can print, in [`clock`].

pub mod auth;
pub mod clock;
pub mod config;
pub mod registry;
pub mod service;
pub mod text;
pub mod user;
