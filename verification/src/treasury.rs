use vstd::prelude::*;

use crate::account::AccountId;
use crate::actions::{
    BurnAction, DepositActions, MintAction, MoveAuthority, RedeemActions, TransferAction,
};
use crate::contexts::{
    BurnAndRedeem, DepositAndMint, InitializeTreasury, SetPauseStatus, UpdateTreasuryParams,
};
use crate::errors::ErrorCode;

verus! {

/// The treasury's single persistent accounting record.
///
/// `bump` is the seed index from which the treasury's signing authority is
/// derived; it is fixed at creation and never mutated, as are the mint and
/// vault references. `total_collateral` and `total_brb_supply` move together:
/// every reachable record satisfies [`Treasury::backed_one_to_one`], because
/// [`initialize_treasury`] establishes it and every transition preserves it.
#[derive(Clone, Copy, Debug, PartialEq, Eq, Structural)]
pub struct Treasury {
    pub admin: AccountId,
    pub brb_mint: AccountId,
    pub usdc_vault: AccountId,
    pub total_collateral: u64,
    pub total_brb_supply: u64,
    pub is_paused: bool,
    pub bump: u8,
}

impl Treasury {
    /// The backing invariant: outstanding token supply equals deposited
    /// collateral, unit for unit.
    pub open spec fn backed_one_to_one(self) -> bool {
        self.total_collateral == self.total_brb_supply
    }

    /// The configuration fields that no deposit, redemption or pause change
    /// may touch.
    pub open spec fn same_config(self, other: Treasury) -> bool {
        &&& self.admin == other.admin
        &&& self.brb_mint == other.brb_mint
        &&& self.usdc_vault == other.usdc_vault
        &&& self.bump == other.bump
    }

    /// When a deposit of `amount` is permitted: the treasury is open and the
    /// amount is positive.
    pub open spec fn deposit_permitted(self, amount: u64) -> bool {
        &&& !self.is_paused
        &&& amount > 0
    }

    /// When a redemption of `amount` is permitted: the treasury is open, the
    /// amount is positive, and the request does not exceed the backing.
    pub open spec fn redeem_permitted(self, amount: u64) -> bool {
        &&& !self.is_paused
        &&& amount > 0
        &&& amount <= self.total_collateral
    }

    /// The ledger record after a successful deposit of `amount`.
    pub open spec fn spec_deposit(self, amount: u64) -> Treasury {
        Treasury {
            total_collateral: (self.total_collateral + amount) as u64,
            total_brb_supply: (self.total_brb_supply + amount) as u64,
            ..self
        }
    }

    /// The ledger record after a successful redemption of `amount`.
    pub open spec fn spec_redeem(self, amount: u64) -> Treasury {
        Treasury {
            total_collateral: (self.total_collateral - amount) as u64,
            total_brb_supply: (self.total_brb_supply - amount) as u64,
            ..self
        }
    }
}

/// Creates the treasury record: the creator becomes admin, the mint and vault
/// references and the authority seed index are fixed, both totals start at
/// zero, and the treasury starts open. The account store creates the record
/// at its derived address exactly once and fails the whole operation if one
/// already exists there.
pub fn initialize_treasury(ctx: &InitializeTreasury, treasury_bump: u8) -> (t: Treasury)
    ensures
        t.admin == ctx.admin,
        t.brb_mint == ctx.brb_mint,
        t.usdc_vault == ctx.usdc_vault,
        t.total_collateral == 0,
        t.total_brb_supply == 0,
        !t.is_paused,
        t.bump == treasury_bump,
        t.backed_one_to_one(),
{
    Treasury {
        admin: ctx.admin,
        brb_mint: ctx.brb_mint,
        usdc_vault: ctx.usdc_vault,
        total_collateral: 0,
        total_brb_supply: 0,
        is_paused: false,
        bump: treasury_bump,
    }
}

/// Deposit collateral and mint an equal amount of representative tokens.
///
/// On success the returned directives tell the substrate which movements to
/// commit together with the updated record: the collateral transfer into the
/// vault signed by the caller, then the mint to the caller signed by the
/// treasury's derived authority. On any failure the record is unchanged and
/// nothing moves.
pub fn deposit_and_mint(treasury: &mut Treasury, ctx: &DepositAndMint, amount: u64) -> (r:
    Result<DepositActions, ErrorCode>)
    requires
        old(treasury).backed_one_to_one(),
        old(treasury).total_collateral + amount <= u64::MAX,
    ensures
        r is Ok <==> old(treasury).deposit_permitted(amount),
        old(treasury).is_paused ==> r == Err::<DepositActions, ErrorCode>(
            ErrorCode::TreasuryPaused,
        ),
        !old(treasury).is_paused && amount == 0 ==> r == Err::<DepositActions, ErrorCode>(
            ErrorCode::InvalidAmount,
        ),
        r is Err ==> *final(treasury) == *old(treasury),
        r is Ok ==> *final(treasury) == old(treasury).spec_deposit(amount),
        r is Ok ==> final(treasury).total_collateral == old(treasury).total_collateral + amount,
        r is Ok ==> final(treasury).total_brb_supply == old(treasury).total_brb_supply + amount,
        final(treasury).same_config(*old(treasury)),
        final(treasury).is_paused == old(treasury).is_paused,
        final(treasury).backed_one_to_one(),
        r matches Ok(a) ==> a.transfer_in == (TransferAction {
            from: ctx.user_usdc_account,
            to: ctx.usdc_vault,
            authority: MoveAuthority::Caller,
            amount,
        }),
        r matches Ok(a) ==> a.mint_to_user == (MintAction {
            mint: ctx.brb_mint,
            to: ctx.user_brb_account,
            authority: MoveAuthority::TreasuryDerived,
            amount,
        }),
{
    if treasury.is_paused {
        return Err(ErrorCode::TreasuryPaused);
    }
    if amount == 0 {
        return Err(ErrorCode::InvalidAmount);
    }
    let transfer_in = TransferAction {
        from: ctx.user_usdc_account,
        to: ctx.usdc_vault,
        authority: MoveAuthority::Caller,
        amount,
    };
    let mint_to_user = MintAction {
        mint: ctx.brb_mint,
        to: ctx.user_brb_account,
        authority: MoveAuthority::TreasuryDerived,
        amount,
    };
    treasury.total_collateral = treasury.total_collateral + amount;
    treasury.total_brb_supply = treasury.total_brb_supply + amount;
    Ok(DepositActions { transfer_in, mint_to_user })
}

/// Burn representative tokens and redeem an equal amount of collateral.
///
/// The request is refused outright if it exceeds the treasury's backing, so
/// the totals can never underflow. On success the returned directives are the
/// burn from the caller signed by the caller, then the collateral transfer
/// out of the vault signed by the treasury's derived authority; the substrate
/// commits them together with the updated record. On any failure the record
/// is unchanged and nothing moves.
pub fn burn_and_redeem(treasury: &mut Treasury, ctx: &BurnAndRedeem, amount: u64) -> (r: Result<
    RedeemActions,
    ErrorCode,
>)
    requires
        old(treasury).backed_one_to_one(),
    ensures
        r is Ok <==> old(treasury).redeem_permitted(amount),
        old(treasury).is_paused ==> r == Err::<RedeemActions, ErrorCode>(
            ErrorCode::TreasuryPaused,
        ),
        !old(treasury).is_paused && amount == 0 ==> r == Err::<RedeemActions, ErrorCode>(
            ErrorCode::InvalidAmount,
        ),
        !old(treasury).is_paused && amount > 0 && amount > old(treasury).total_collateral ==> r
            == Err::<RedeemActions, ErrorCode>(ErrorCode::InsufficientCollateral),
        r is Err ==> *final(treasury) == *old(treasury),
        r is Ok ==> *final(treasury) == old(treasury).spec_redeem(amount),
        r is Ok ==> final(treasury).total_collateral == old(treasury).total_collateral - amount,
        r is Ok ==> final(treasury).total_brb_supply == old(treasury).total_brb_supply - amount,
        final(treasury).same_config(*old(treasury)),
        final(treasury).is_paused == old(treasury).is_paused,
        final(treasury).backed_one_to_one(),
        r matches Ok(a) ==> a.burn_from_user == (BurnAction {
            mint: ctx.brb_mint,
            from: ctx.user_brb_account,
            authority: MoveAuthority::Caller,
            amount,
        }),
        r matches Ok(a) ==> a.transfer_out == (TransferAction {
            from: ctx.usdc_vault,
            to: ctx.user_usdc_account,
            authority: MoveAuthority::TreasuryDerived,
            amount,
        }),
{
    if treasury.is_paused {
        return Err(ErrorCode::TreasuryPaused);
    }
    if amount == 0 {
        return Err(ErrorCode::InvalidAmount);
    }
    if amount > treasury.total_collateral {
        return Err(ErrorCode::InsufficientCollateral);
    }
    let burn_from_user = BurnAction {
        mint: ctx.brb_mint,
        from: ctx.user_brb_account,
        authority: MoveAuthority::Caller,
        amount,
    };
    let transfer_out = TransferAction {
        from: ctx.usdc_vault,
        to: ctx.user_usdc_account,
        authority: MoveAuthority::TreasuryDerived,
        amount,
    };
    treasury.total_collateral = treasury.total_collateral - amount;
    treasury.total_brb_supply = treasury.total_brb_supply - amount;
    Ok(RedeemActions { burn_from_user, transfer_out })
}

/// Open or close the treasury. Only the current admin may do this; the call
/// is idempotent, so setting the flag to its current value succeeds and
/// changes nothing. Totals and configuration are never touched.
pub fn set_pause_status(treasury: &mut Treasury, ctx: &SetPauseStatus, is_paused: bool) -> (r:
    Result<(), ErrorCode>)
    ensures
        r is Ok <==> ctx.admin == old(treasury).admin,
        ctx.admin != old(treasury).admin ==> r == Err::<(), ErrorCode>(ErrorCode::Unauthorized)
            && *final(treasury) == *old(treasury),
        r is Ok ==> *final(treasury) == (Treasury { is_paused, ..*old(treasury) }),
{
    if ctx.admin != treasury.admin {
        return Err(ErrorCode::Unauthorized);
    }
    treasury.is_paused = is_paused;
    Ok(())
}

/// Rotate the administrator. Only the current admin may do this. Supplying no
/// successor is a deliberate no-op success, so the admin can never remove
/// itself without naming a replacement.
pub fn update_treasury_params(
    treasury: &mut Treasury,
    ctx: &UpdateTreasuryParams,
    new_admin: Option<AccountId>,
) -> (r: Result<(), ErrorCode>)
    ensures
        r is Ok <==> ctx.admin == old(treasury).admin,
        ctx.admin != old(treasury).admin ==> r == Err::<(), ErrorCode>(ErrorCode::Unauthorized)
            && *final(treasury) == *old(treasury),
        r is Ok && new_admin is None ==> *final(treasury) == *old(treasury),
        r is Ok ==> (new_admin matches Some(a) ==> *final(treasury) == (Treasury {
            admin: a,
            ..*old(treasury)
        })),
{
    if ctx.admin != treasury.admin {
        return Err(ErrorCode::Unauthorized);
    }
    if let Some(a) = new_admin {
        treasury.admin = a;
    }
    Ok(())
}

/// Depositing preserves the backing invariant: incrementing both totals by
/// the same amount keeps them equal.
pub proof fn lemma_backing_preserved_by_deposit(t: Treasury, amount: u64)
    requires
        t.backed_one_to_one(),
        t.total_collateral + amount <= u64::MAX,
    ensures
        t.spec_deposit(amount).backed_one_to_one(),
{
}

/// Redeeming preserves the backing invariant: decrementing both totals by
/// the same amount keeps them equal, and the permission check keeps either
/// total from underflowing.
pub proof fn lemma_backing_preserved_by_redeem(t: Treasury, amount: u64)
    requires
        t.backed_one_to_one(),
        t.redeem_permitted(amount),
    ensures
        t.spec_redeem(amount).backed_one_to_one(),
        t.spec_redeem(amount).total_collateral == t.total_collateral - amount,
{
}

/// Round trip: a permitted deposit of `amount` followed by a redemption of
/// the same amount is itself permitted and returns the ledger record exactly
/// to where it started.
pub proof fn lemma_deposit_then_redeem_round_trip(t: Treasury, amount: u64)
    requires
        t.backed_one_to_one(),
        t.deposit_permitted(amount),
        t.total_collateral + amount <= u64::MAX,
    ensures
        t.spec_deposit(amount).redeem_permitted(amount),
        t.spec_deposit(amount).spec_redeem(amount) == t,
{
}

} // verus!
