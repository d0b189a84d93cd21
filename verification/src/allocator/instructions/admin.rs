//! `set_paused`: the admin circuit breaker.

use vstd::prelude::*;

use crate::allocator::errors::VaultError;
use crate::allocator::state::Vault;
use crate::key::AccountKey;

verus! {

/// Event: the pause flag was set.
#[derive(Clone, Copy, Debug)]
pub struct PausedSet {
    pub vault: AccountKey,
    pub paused: bool,
}

/// Sets the pause flag. Only the vault's authority may (the `has_one =
/// authority` constraint of the instruction's accounts).
pub fn set_paused(vault: &mut Vault, vault_key: AccountKey, signer: AccountKey, paused: bool) -> (r:
    Result<PausedSet, VaultError>)
    ensures
        signer != old(vault).authority ==> r == Err::<PausedSet, VaultError>(VaultError::Unauthorized)
            && *final(vault) == *old(vault),
        signer == old(vault).authority ==> r == Ok::<PausedSet, VaultError>(
            PausedSet { vault: vault_key, paused },
        ) && *final(vault) == (Vault { paused, ..*old(vault) }),
{
    if !signer.same(&vault.authority) {
        return Err(VaultError::Unauthorized);
    }
    vault.paused = paused;
    Ok(PausedSet { vault: vault_key, paused })
}

} // verus!
