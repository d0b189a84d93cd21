//! The SVS-9 allocator vault program: its state, its guard middleware and the
//! state transitions of its instructions. Account plumbing, token transfers and
//! events' emission stand outside; each instruction here decides and updates
//! the vault's state from plain values.

pub mod errors;
pub mod guards;
pub mod instructions;
pub mod laws;
pub mod state;
