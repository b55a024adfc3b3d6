//! Accounting core of a reflective fee-on-transfer token and of the treasury
//! that turns its accumulated tax into liquidity, burned supply and a
//! reflected payout.

pub mod error;
pub mod rate;
pub mod tax;
pub mod address_map;
pub mod token;
pub mod throttle;
pub mod asset;
pub mod msg;
pub mod treasury;
