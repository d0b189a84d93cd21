//! `deposit`: assets in, shares out at the current NAV.

use vstd::prelude::*;

use crate::allocator::errors::VaultError;
use crate::allocator::guards::{assert_within_caps, caps_verdict};
use crate::allocator::state::{shares_owed, Allocation, Vault};
use crate::key::AccountKey;

verus! {

/// Event: a deposit went through.
#[derive(Clone, Copy, Debug)]
pub struct Deposited {
    pub vault: AccountKey,
    pub user: AccountKey,
    pub assets: u64,
    pub shares: u64,
}

/// What `deposit` answers for `assets`: the guards (pause and caps) first,
/// then the shares owed at NAV, which must fit in `u64`, be non-zero and fit
/// with the new supply, NAV and idle reserve.
pub open spec fn deposit_verdict(v: Vault, assets: u64) -> Result<u64, VaultError> {
    match caps_verdict(v.paused, assets, v.per_tx_cap, v.stored_assets, v.deposit_cap, true) {
        Err(e) => Err(e),
        Ok(_) => {
            let shares = shares_owed(v, assets);
            if shares > u64::MAX {
                Err(VaultError::MathOverflow)
            } else if shares == 0 {
                Err(VaultError::ZeroAmount)
            } else if v.total_shares + shares > u64::MAX {
                Err(VaultError::MathOverflow)
            } else if v.stored_assets + assets > u64::MAX {
                Err(VaultError::MathOverflow)
            } else if v.allocations[0].deployed + assets > u64::MAX {
                Err(VaultError::MathOverflow)
            } else {
                Ok(shares as u64)
            }
        },
    }
}

/// `post` is `pre` after `assets` came in against `shares`: the supply grows
/// by the shares, the NAV and the idle reserve (slot 0) by the assets, and
/// nothing else changes.
pub open spec fn deposited(pre: Vault, post: Vault, assets: u64, shares: u64) -> bool {
    &&& post == Vault {
        total_shares: (pre.total_shares + shares) as u64,
        stored_assets: (pre.stored_assets + assets) as u64,
        allocations: post.allocations,
        ..pre
    }
    &&& post.allocations@ == pre.allocations@.update(
        0,
        Allocation { deployed: (pre.allocations[0].deployed + assets) as u64, ..pre.allocations[0] },
    )
}

/// Deposits `assets` for `user`: checks pause and caps against the stored
/// NAV (never the raw token balance), prices the shares, and records the
/// deposit. Returns the event to emit; the caller moves the tokens and mints
/// the shares. On an error the vault is left as it was.
pub fn deposit(vault: &mut Vault, vault_key: AccountKey, user: AccountKey, assets: u64) -> (r: Result<
    Deposited,
    VaultError,
>)
    ensures
        match deposit_verdict(*old(vault), assets) {
            Err(e) => r == Err::<Deposited, VaultError>(e) && *final(vault) == *old(vault),
            Ok(shares) => r == Ok::<Deposited, VaultError>(
                Deposited { vault: vault_key, user, assets, shares },
            ) && deposited(*old(vault), *final(vault), assets, shares),
        },
        r is Ok ==> !old(vault).paused && 0 < assets <= old(vault).per_tx_cap
            && final(vault).stored_assets <= final(vault).deposit_cap,
{
    match assert_within_caps(
        vault.paused,
        assets,
        vault.per_tx_cap,
        vault.stored_assets,
        vault.deposit_cap,
        true,
    ) {
        Ok(_) => {},
        Err(e) => {
            return Err(e);
        },
    }
    let shares = match vault.shares_for_deposit(assets) {
        Some(s) => s,
        None => {
            return Err(VaultError::MathOverflow);
        },
    };
    if shares == 0 {
        return Err(VaultError::ZeroAmount);
    }
    let total_shares = match vault.total_shares.checked_add(shares) {
        Some(x) => x,
        None => {
            return Err(VaultError::MathOverflow);
        },
    };
    let stored_assets = match vault.stored_assets.checked_add(assets) {
        Some(x) => x,
        None => {
            return Err(VaultError::MathOverflow);
        },
    };
    let mut idle = vault.allocations[0];
    idle.deployed = match idle.deployed.checked_add(assets) {
        Some(x) => x,
        None => {
            return Err(VaultError::MathOverflow);
        },
    };
    vault.total_shares = total_shares;
    vault.stored_assets = stored_assets;
    vault.allocations[0] = idle;
    Ok(Deposited { vault: vault_key, user, assets, shares })
}

} // verus!
