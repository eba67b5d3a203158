//! Verified core of a crowd-sourced debate-card repository.
//!
//! A card is a text passage classified by topic and side. Cards are stored in
//! an external vector point store as an embedding vector plus an untyped
//! key/value payload, searched by vector similarity, and voted on with a
//! read-modify-write protocol. This crate holds the verified logic of that
//! pipeline: the payload codec, identifier handling, and the repository
//! decisions for create, search, get and vote. The network edges (embedding
//! provider, point store, HTTP surface) live outside it and exchange plain
//! values with it.

pub mod codec;
pub mod ids;
pub mod payload;
pub mod repository;
