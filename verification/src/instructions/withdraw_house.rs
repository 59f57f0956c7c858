//! Withdrawing house funds.
use vstd::prelude::*;

use anchor_lang::solana_program::pubkey::Pubkey;

use crate::error::MinesError;
use crate::keys::pubkey_eq;
use crate::state::Config;

verus! {

/// What `withdraw_house` reads.
#[derive(Clone, Copy)]
pub struct WithdrawHouse {
    /// The global configuration.
    pub config: Config,
    /// The signer, who must be the configured authority.
    pub authority: Pubkey,
    /// Balance of the house vault.
    pub house_vault_amount: u64,
}

/// Why `withdraw_house` refuses, if it does.
pub open spec fn withdraw_error(ctx: WithdrawHouse, amount: u64) -> Option<MinesError> {
    if ctx.authority != ctx.config.authority {
        Some(MinesError::Unauthorized)
    } else if ctx.house_vault_amount < amount {
        Some(MinesError::InsufficientVaultFunds)
    } else {
        None
    }
}

/// Withdraw house funds (authority only). On success the caller moves `amount`
/// from the vault to the authority.
pub fn withdraw_house(ctx: &WithdrawHouse, amount: u64) -> (r: Result<(), MinesError>)
    ensures
        match withdraw_error(*ctx, amount) {
            Some(e) => r == Err::<(), MinesError>(e),
            None => r == Ok::<(), MinesError>(()),
        },
        r is Ok <==> (ctx.authority == ctx.config.authority && amount <= ctx.house_vault_amount),
{
    if !pubkey_eq(&ctx.authority, &ctx.config.authority) {
        return Err(MinesError::Unauthorized);
    }
    if !(ctx.house_vault_amount >= amount) {
        return Err(MinesError::InsufficientVaultFunds);
    }
    Ok(())
}

} // verus!
