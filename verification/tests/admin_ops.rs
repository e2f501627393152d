use brb_treasury::account::AccountId;
use brb_treasury::contexts::{InitializeTreasury, SetPauseStatus, UpdateTreasuryParams};
use brb_treasury::errors::ErrorCode;
use brb_treasury::treasury::{set_pause_status, update_treasury_params, initialize_treasury, Treasury};

fn id(value: u64) -> AccountId {
    AccountId { value }
}

fn fresh_treasury() -> Treasury {
    let ctx = InitializeTreasury {
        admin: id(1),
        brb_mint: id(2),
        usdc_vault: id(3),
        usdc_mint: id(4),
    };
    initialize_treasury(&ctx, 254)
}

#[test]
fn non_admin_cannot_pause() {
    let mut t = fresh_treasury();
    let r = set_pause_status(&mut t, &SetPauseStatus { admin: id(66) }, true);
    assert_eq!(r.unwrap_err(), ErrorCode::Unauthorized);
    assert!(!t.is_paused);
    assert_eq!(t, fresh_treasury());
}

#[test]
fn non_admin_cannot_rotate_admin() {
    let mut t = fresh_treasury();
    let r = update_treasury_params(&mut t, &UpdateTreasuryParams { admin: id(66) }, Some(id(66)));
    assert_eq!(r.unwrap_err(), ErrorCode::Unauthorized);
    assert_eq!(t.admin, id(1));
    assert_eq!(t, fresh_treasury());
}

#[test]
fn admin_rotation_replaces_the_admin() {
    let mut t = fresh_treasury();
    let r = update_treasury_params(&mut t, &UpdateTreasuryParams { admin: id(1) }, Some(id(8)));
    assert!(r.is_ok());
    assert_eq!(t.admin, id(8));
    assert_eq!(t.total_collateral, 0);
    assert_eq!(t.total_brb_supply, 0);
    assert!(!t.is_paused);
    assert_eq!(t.bump, 254);
}

#[test]
fn rotation_without_successor_is_a_no_op_success() {
    let mut t = fresh_treasury();
    let r = update_treasury_params(&mut t, &UpdateTreasuryParams { admin: id(1) }, None);
    assert!(r.is_ok());
    assert_eq!(t, fresh_treasury());
}

#[test]
fn old_admin_loses_authority_after_rotation() {
    let mut t = fresh_treasury();
    update_treasury_params(&mut t, &UpdateTreasuryParams { admin: id(1) }, Some(id(8))).unwrap();
    let stale = set_pause_status(&mut t, &SetPauseStatus { admin: id(1) }, true);
    assert_eq!(stale.unwrap_err(), ErrorCode::Unauthorized);
    let fresh = set_pause_status(&mut t, &SetPauseStatus { admin: id(8) }, true);
    assert!(fresh.is_ok());
    assert!(t.is_paused);
}
