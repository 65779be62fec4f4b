//! Address-based packet filtering with fixed-window rate limiting.
//!
//! The crate holds the decisions of a two-hook packet filter and of the
//! processes around it: how a frame is read (`frame`, `wire`), the tables
//! that say who is blocked and who has sent how much (`table`, `store`), the
//! counter behind the rate limit (`rate`), the ingress and egress hooks
//! (`hooks`, `simple`), the loader's life cycle (`loader`), and the updater
//! that blocks and unblocks the addresses of a name (`updater`, `scan`).
//! Every function carries a contract that Verus proves.

pub mod fault;
pub mod frame;
pub mod hooks;
pub mod loader;
pub mod rate;
pub mod scan;
pub mod simple;
pub mod store;
pub mod table;
pub mod updater;
pub mod wire;
