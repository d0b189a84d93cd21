//! `initialize`: a new vault, seeded with dead shares.

use vstd::prelude::*;

use crate::allocator::errors::VaultError;
use crate::allocator::state::{Allocation, GuardConfig, Vault, MAX_VENUES};
use crate::key::AccountKey;

verus! {

/// Shares minted at initialization to a burn address, backed by as many asset
/// units taken from the authority into the idle reserve. Nobody can redeem
/// them, so the supply never returns to zero and the first-deposit inflation
/// attack has nothing to inflate.
pub const DEAD_SHARES: u64 = 1_000;

/// The settings a vault is created with.
#[derive(Clone, Copy, Debug)]
pub struct InitializeParams {
    pub deposit_cap: u64,
    pub per_tx_cap: u64,
    pub guard: GuardConfig,
}

/// `v` is the vault that `initialize` creates from these keys, settings and
/// bumps: unpaused, holding only the dead shares and their backing, which
/// sits in the idle reserve (slot 0); every other slot is zero.
pub open spec fn is_fresh_vault(
    v: Vault,
    authority: AccountKey,
    asset_mint: AccountKey,
    share_mint: AccountKey,
    params: InitializeParams,
    bump: u8,
    auth_bump: u8,
) -> bool {
    &&& v.authority == authority
    &&& v.asset_mint == asset_mint
    &&& v.share_mint == share_mint
    &&& v.total_shares == DEAD_SHARES
    &&& v.stored_assets == DEAD_SHARES
    &&& v.deposit_cap == params.deposit_cap
    &&& v.per_tx_cap == params.per_tx_cap
    &&& !v.paused
    &&& v.guard == params.guard
    &&& v.allocations[0] == (Allocation { venue_id: 0, deployed: DEAD_SHARES, last_nav: 0 })
    &&& forall|i: int|
        1 <= i < MAX_VENUES ==> #[trigger] v.allocations[i] == (Allocation {
            venue_id: 0,
            deployed: 0,
            last_nav: 0,
        })
    &&& v.bump == bump
    &&& v.auth_bump == auth_bump
}

/// Sets up the vault account: the authority, the asset and share mints, the
/// caps and guard settings, and the dead-share seed. Returns the seed: the
/// caller moves that many asset units from the authority into the vault and
/// mints that many shares to a burn address.
pub fn initialize(
    vault: &mut Vault,
    authority: AccountKey,
    asset_mint: AccountKey,
    share_mint: AccountKey,
    params: InitializeParams,
    bump: u8,
    auth_bump: u8,
) -> (r: Result<u64, VaultError>)
    ensures
        r == Ok::<u64, VaultError>(DEAD_SHARES),
        is_fresh_vault(*final(vault), authority, asset_mint, share_mint, params, bump, auth_bump),
{
    vault.authority = authority;
    vault.asset_mint = asset_mint;
    vault.share_mint = share_mint;
    vault.total_shares = DEAD_SHARES;
    vault.stored_assets = DEAD_SHARES;
    vault.deposit_cap = params.deposit_cap;
    vault.per_tx_cap = params.per_tx_cap;
    vault.paused = false;
    vault.guard = params.guard;
    let empty = Allocation::default();
    let idle = Allocation { venue_id: 0, deployed: DEAD_SHARES, last_nav: 0 };
    vault.allocations = [idle, empty, empty, empty, empty, empty, empty, empty];
    vault.bump = bump;
    vault.auth_bump = auth_bump;
    Ok(DEAD_SHARES)
}

} // verus!
