//! A ledger that routes value transfers, splits each into a net payout and two
//! fee shares, keeps a confidential running aggregate maintained by an outside
//! compute service, and tracks the delegation of settlement authority.
//!
//! Every mutation goes through [`ledger::Ledger`]. Requests to the compute
//! service leave through [`gateway`], and their results come back through
//! [`callback::handle_callback`], which applies each one at most once.
pub mod fees;
pub mod replay;
pub mod delegation;
pub mod error;
pub mod entry;
pub mod transfer;
pub mod ledger;
pub mod gateway;
pub mod callback;
