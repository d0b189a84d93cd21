//! Errors of the vault program.

use vstd::prelude::*;

verus! {

/// Why a vault instruction refused.
#[derive(Clone, Copy, Debug, PartialEq, Eq, Structural)]
pub enum VaultError {
    Paused,
    CapExceeded,
    DepositCapReached,
    StaleOracle,
    OracleUncertain,
    PriceManipulated,
    SlippageTooLoose,
    SlippageExceeded,
    Unauthorized,
    MathOverflow,
    ZeroAmount,
    InsufficientShares,
}

} // verus!
