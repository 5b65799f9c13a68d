//! Core of a local static-asset server: an in-memory cache of served
//! files, the debounced invalidation logic that reacts to filesystem
//! change events, and the per-connection request coordinator that reads
//! through the cache. Socket I/O, request-line parsing and the actual
//! filesystem access live outside this crate; the logic here is given
//! plain values and decides everything else.

pub mod cache;
pub mod debounce;
pub mod http;
pub mod laws;
pub mod request;
pub mod strmap;
pub mod text;
pub mod watch;
