use vstd::prelude::*;

verus! {

/// An on-ledger identity: an account address as the execution substrate
/// assigns it. The treasury's logic never looks inside an address; it only
/// stores addresses and compares them for equality, so the address is carried
/// here as a plain value.
#[derive(Clone, Copy, Debug, Hash, PartialEq, Eq, Structural)]
pub struct AccountId {
    pub value: u64,
}

} // verus!
