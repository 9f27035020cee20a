//! Settlement of a two-party token escrow: the taker pays the maker in asset B
//! and receives the asset A that a program-derived vault holds, after which the
//! vault and the escrow record are closed.

mod keys;
pub mod accounts;
pub mod take;
pub mod derivation;

pub use keys::{keys_equal, le_bytes, u64_le_bytes};
