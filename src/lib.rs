//! Accounting core of a fixed-pool auction: an administrator funds a pool of
//! a project token, participants deposit a paired token while the auction is
//! active, and after it closes each participant claims a share of the pool in
//! proportion to their deposit.
//!
//! Neither the pool nor the total of deposits is reset when an auction closes
//! or a new one opens: a later round adds to the counters of the earlier ones.
//! The rounding left over by floored shares stays in the pool.

pub mod contract;
pub mod laws;
pub mod msg;
pub mod state;
