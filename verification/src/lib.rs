//! Verified core of an SVS allocator vault: share accounting, the
//! anti-exploit guards (oracle freshness and confidence, pool deviation band,
//! oracle-derived swap floor, caps and pause, keeper authorisation) and the
//! state transitions of the vault program's instructions.

pub mod allocator;
pub mod guards;
pub mod key;
pub mod math;
