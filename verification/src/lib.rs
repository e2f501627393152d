//! Treasury accounting for a collateral-backed token.
//!
//! The treasury tracks a strict 1:1 backing relationship between a reserve
//! asset held in a custody vault and a representative token minted against it.
//! This crate holds the decision logic: which operations are permitted, what
//! asset movements each one directs, and the accounting invariant that the
//! outstanding token supply always equals the deposited collateral.
//!
//! The surrounding execution substrate — the account store that persists the
//! ledger record, the token engine that physically moves balances, and the
//! signature verification that authenticates callers — is a collaborator that
//! performs the movements this crate directs, atomically per operation.

pub mod account;
pub mod actions;
pub mod contexts;
pub mod errors;
pub mod treasury;
