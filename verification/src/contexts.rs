use vstd::prelude::*;

use crate::account::AccountId;

verus! {

/// The accounts involved in creating the treasury. `admin` is the creator,
/// who becomes the administrator; `brb_mint` is the representative-token mint
/// the treasury will control; `usdc_vault` is the custody account that will
/// hold deposited collateral; `usdc_mint` identifies the collateral asset.
/// The substrate has verified that `admin` signed the operation.
#[derive(Clone, Copy, Debug, PartialEq, Eq, Structural)]
pub struct InitializeTreasury {
    pub admin: AccountId,
    pub brb_mint: AccountId,
    pub usdc_vault: AccountId,
    pub usdc_mint: AccountId,
}

/// The accounts involved in a deposit: the caller (`user`, verified by the
/// substrate to have signed), the caller's collateral and token accounts, the
/// treasury's vault, and the token mint.
#[derive(Clone, Copy, Debug, PartialEq, Eq, Structural)]
pub struct DepositAndMint {
    pub user: AccountId,
    pub brb_mint: AccountId,
    pub usdc_vault: AccountId,
    pub user_brb_account: AccountId,
    pub user_usdc_account: AccountId,
}

/// The accounts involved in a redemption; the same shape as a deposit, with
/// the movements running in the opposite direction.
#[derive(Clone, Copy, Debug, PartialEq, Eq, Structural)]
pub struct BurnAndRedeem {
    pub user: AccountId,
    pub brb_mint: AccountId,
    pub usdc_vault: AccountId,
    pub user_brb_account: AccountId,
    pub user_usdc_account: AccountId,
}

/// The caller of a pause/unpause request. The substrate has verified the
/// signature; whether `admin` matches the treasury's administrator is this
/// crate's decision.
#[derive(Clone, Copy, Debug, PartialEq, Eq, Structural)]
pub struct SetPauseStatus {
    pub admin: AccountId,
}

/// The caller of an admin-rotation request, with the same authorization
/// treatment as [`SetPauseStatus`].
#[derive(Clone, Copy, Debug, PartialEq, Eq, Structural)]
pub struct UpdateTreasuryParams {
    pub admin: AccountId,
}

} // verus!
