//! Pricing, liquidity accounting and access control of a bonding-curve pool that
//! holds one fungible token balance and a set of non-fungible items.
//!
//! The crate holds the decisions of the pool and proves them against contracts.
//! Custody itself (transfers, approvals, balance reads) is the host's work: each
//! operation here first authorises the movement and says how much is to move, and
//! a second call records what custody reports once the movement is done.

pub mod curve;
pub mod error;
pub mod instructions;
pub mod ledger;
pub mod state;
pub mod utils;
