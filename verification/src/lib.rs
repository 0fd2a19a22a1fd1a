//! A typed request/response modeling layer for ledger-read queries against a
//! distributed ledger node: ledger-version pinning, cursor-based pagination,
//! and exact round-trip decoding of ledger-native value objects.

pub mod account_nfts;
pub mod body;
pub mod error;
pub mod ledger;
pub mod pagination;
pub mod request;
pub mod token;
pub mod wire;
