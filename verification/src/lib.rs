//! Verified core of the DCP-backed account and signing flow of Pay.sh.

pub mod account_flow;
pub mod accounts;
pub mod backend;
pub mod clock;
pub mod codec;
pub mod dcp_signer;
pub mod keys;
pub mod messages;
pub mod signing_flow;
pub mod text;
