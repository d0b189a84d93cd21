//! The vault program's instructions, each as a state transition over plain
//! values: what it checks, how it changes the vault, and the event it emits.

pub mod admin;
pub mod deposit;
pub mod initialize;
pub mod rebalance;
pub mod withdraw;
