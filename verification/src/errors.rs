use vstd::prelude::*;

verus! {

/// The failure kinds a treasury operation can report. Every precondition is
/// checked before any state change, so an operation that returns one of these
/// has left the ledger record untouched.
#[derive(Clone, Copy, Debug, PartialEq, Eq, Structural)]
pub enum ErrorCode {
    /// The treasury's pause switch is on; deposits and redemptions are closed.
    TreasuryPaused,
    /// The requested amount is zero.
    InvalidAmount,
    /// A redemption asked for more collateral than the treasury holds.
    InsufficientCollateral,
    /// An admin-only operation was invoked by an identity other than the admin.
    Unauthorized,
}

impl ErrorCode {
    /// A fixed description of the failure, suitable for surfacing to callers.
    pub fn message(self) -> (r: &'static str)
        ensures
            self is TreasuryPaused ==> r@ == "Treasury is currently paused"@,
            self is InvalidAmount ==> r@ == "Invalid amount"@,
            self is InsufficientCollateral ==> r@ == "Insufficient collateral in treasury"@,
            self is Unauthorized ==> r@ == "Unauthorized access"@,
    {
        match self {
            ErrorCode::TreasuryPaused => "Treasury is currently paused",
            ErrorCode::InvalidAmount => "Invalid amount",
            ErrorCode::InsufficientCollateral => "Insufficient collateral in treasury",
            ErrorCode::Unauthorized => "Unauthorized access",
        }
    }
}

} // verus!
