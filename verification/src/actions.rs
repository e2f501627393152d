use vstd::prelude::*;

use crate::account::AccountId;

verus! {

/// Who must authorize an asset movement that the treasury directs.
///
/// The treasury's own signing authority is a capability derived
/// deterministically from the treasury record; it is held by the execution
/// substrate and is never handed to callers, so it is referred to here only
/// by this tag, never carried as data.
#[derive(Clone, Copy, Debug, PartialEq, Eq, Structural)]
pub enum MoveAuthority {
    /// The caller signs with their own key (moving assets they own).
    Caller,
    /// The treasury signs with its derived authority (the privileged step
    /// that only the treasury may perform).
    TreasuryDerived,
}

/// A directed movement of collateral between two accounts.
#[derive(Clone, Copy, Debug, PartialEq, Eq, Structural)]
pub struct TransferAction {
    pub from: AccountId,
    pub to: AccountId,
    pub authority: MoveAuthority,
    pub amount: u64,
}

/// A directed creation of new representative tokens into an account.
#[derive(Clone, Copy, Debug, PartialEq, Eq, Structural)]
pub struct MintAction {
    pub mint: AccountId,
    pub to: AccountId,
    pub authority: MoveAuthority,
    pub amount: u64,
}

/// A directed destruction of representative tokens held in an account.
#[derive(Clone, Copy, Debug, PartialEq, Eq, Structural)]
pub struct BurnAction {
    pub mint: AccountId,
    pub from: AccountId,
    pub authority: MoveAuthority,
    pub amount: u64,
}

/// The two asset movements of a deposit, in order: collateral moves from the
/// caller into the vault under the caller's signature, then an equal amount
/// of tokens is minted to the caller under the treasury's derived authority.
/// The substrate commits both together with the ledger update, or neither.
#[derive(Clone, Copy, Debug, PartialEq, Eq, Structural)]
pub struct DepositActions {
    pub transfer_in: TransferAction,
    pub mint_to_user: MintAction,
}

/// The two asset movements of a redemption, in order: tokens are burned from
/// the caller's account under the caller's signature, then an equal amount of
/// collateral moves from the vault back to the caller under the treasury's
/// derived authority. Committed atomically with the ledger update.
#[derive(Clone, Copy, Debug, PartialEq, Eq, Structural)]
pub struct RedeemActions {
    pub burn_from_user: BurnAction,
    pub transfer_out: TransferAction,
}

} // verus!
