//! `withdraw`: shares in, assets out at the current NAV.

use vstd::prelude::*;

use crate::allocator::errors::VaultError;
use crate::allocator::state::{assets_owed, Allocation, Vault};
use crate::key::AccountKey;

verus! {

/// Event: a withdrawal went through.
#[derive(Clone, Copy, Debug)]
pub struct Withdrawn {
    pub vault: AccountKey,
    pub user: AccountKey,
    pub assets: u64,
    pub shares: u64,
}

/// What `withdraw` answers for `shares` when the vault's token account holds
/// `vault_balance`: pause, a non-zero amount within the supply, then the
/// assets owed at NAV, which must be non-zero, within the per-transaction cap
/// and covered by the idle balance.
pub open spec fn withdraw_verdict(v: Vault, shares: u64, vault_balance: u64) -> Result<
    u64,
    VaultError,
> {
    if v.paused {
        Err(VaultError::Paused)
    } else if shares == 0 {
        Err(VaultError::ZeroAmount)
    } else if shares > v.total_shares {
        Err(VaultError::InsufficientShares)
    } else {
        let assets = assets_owed(v, shares);
        if assets == 0 {
            Err(VaultError::ZeroAmount)
        } else if assets > v.per_tx_cap {
            Err(VaultError::CapExceeded)
        } else if vault_balance < assets {
            Err(VaultError::InsufficientShares)
        } else {
            Ok(assets as u64)
        }
    }
}

/// `post` is `pre` after `shares` were burned for `assets`: the supply and the
/// NAV shrink by them, the idle reserve (slot 0) by the assets, saturating at
/// zero, and nothing else changes.
pub open spec fn withdrawn(pre: Vault, post: Vault, shares: u64, assets: u64) -> bool {
    &&& post == Vault {
        total_shares: (pre.total_shares - shares) as u64,
        stored_assets: (pre.stored_assets - assets) as u64,
        allocations: post.allocations,
        ..pre
    }
    &&& post.allocations@ == pre.allocations@.update(
        0,
        Allocation {
            deployed: if pre.allocations[0].deployed >= assets {
                (pre.allocations[0].deployed - assets) as u64
            } else {
                0
            },
            ..pre.allocations[0]
        },
    )
}

/// Redeeming at most the whole supply never asks for more than the NAV.
pub proof fn lemma_redeem_within_nav(v: Vault, shares: u64)
    requires
        shares <= v.total_shares,
    ensures
        0 <= assets_owed(v, shares) <= v.stored_assets,
{
    let q = assets_owed(v, shares);
    if v.total_shares > 0 {
        assert(0 <= q <= v.stored_assets) by (nonlinear_arith)
            requires
                q == shares * v.stored_assets / v.total_shares as int,
                shares <= v.total_shares,
                v.total_shares > 0,
                v.stored_assets >= 0,
        ;
    }
}

/// Withdraws `shares` for `user`, given the balance of the vault's token
/// account: checks pause, supply, the per-transaction cap and liquidity, and
/// records the withdrawal. Returns the event to emit; the caller burns the
/// shares and moves the tokens. On an error the vault is left as it was.
pub fn withdraw(
    vault: &mut Vault,
    vault_key: AccountKey,
    user: AccountKey,
    shares: u64,
    vault_balance: u64,
) -> (r: Result<Withdrawn, VaultError>)
    ensures
        match withdraw_verdict(*old(vault), shares, vault_balance) {
            Err(e) => r == Err::<Withdrawn, VaultError>(e) && *final(vault) == *old(vault),
            Ok(assets) => r == Ok::<Withdrawn, VaultError>(
                Withdrawn { vault: vault_key, user, assets, shares },
            ) && withdrawn(*old(vault), *final(vault), shares, assets),
        },
        r matches Ok(ev) ==> !old(vault).paused && 0 < ev.assets <= old(vault).per_tx_cap
            && ev.assets <= vault_balance && ev.assets <= old(vault).stored_assets,
{
    if vault.paused {
        return Err(VaultError::Paused);
    }
    if shares == 0 {
        return Err(VaultError::ZeroAmount);
    }
    if shares > vault.total_shares {
        return Err(VaultError::InsufficientShares);
    }
    proof {
        lemma_redeem_within_nav(*vault, shares);
    }
    let assets = match vault.assets_for_shares(shares) {
        Some(a) => a,
        None => {
            return Err(VaultError::MathOverflow);
        },
    };
    if assets == 0 {
        return Err(VaultError::ZeroAmount);
    }
    if assets > vault.per_tx_cap {
        return Err(VaultError::CapExceeded);
    }
    if vault_balance < assets {
        return Err(VaultError::InsufficientShares);
    }
    let total_shares = match vault.total_shares.checked_sub(shares) {
        Some(x) => x,
        None => {
            return Err(VaultError::MathOverflow);
        },
    };
    let stored_assets = match vault.stored_assets.checked_sub(assets) {
        Some(x) => x,
        None => {
            return Err(VaultError::MathOverflow);
        },
    };
    let mut idle = vault.allocations[0];
    idle.deployed = idle.deployed.saturating_sub(assets);
    vault.total_shares = total_shares;
    vault.stored_assets = stored_assets;
    vault.allocations[0] = idle;
    Ok(Withdrawn { vault: vault_key, user, assets, shares })
}

} // verus!
