//! A pooled-capital vault: depositors receive fungible shares proportional
//! to their contribution and later redeem them for a proportional slice of
//! the pool, net of a performance fee on realized yield. An authority-held
//! layer tracks target allocation percentages across downstream destinations
//! and recomputes bookkeeping amounts on rebalance.
//!
//! The host runtime (caller authentication, durable account storage, the
//! actual movement of funds and the reserve-floor rule) is an external
//! collaborator: operations take the caller's identity, the current time,
//! the custody balance and the reserve floor as plain parameters and return
//! the events the host should publish.

pub mod errors;
pub mod ops;
pub mod share_math;
pub mod state;
