//! Plain identifiers shared by the controller and the ledger.

use vstd::prelude::*;

verus! {

/// An already-authenticated principal. Signature checking happens outside
/// this core: every operation receives the caller's identity as a value and
/// only ever compares it for equality.
#[derive(Clone, Copy, PartialEq, Eq, Structural, Debug)]
pub struct Identity {
    pub key: u64,
}

/// Reference to one asset (mint) record held by the ledger.
#[derive(Clone, Copy, PartialEq, Eq, Structural, Debug)]
pub struct AssetRef {
    pub id: usize,
}

/// Reference to one balance-holding account record held by the ledger.
#[derive(Clone, Copy, PartialEq, Eq, Structural, Debug)]
pub struct AccountRef {
    pub id: usize,
}

} // verus!
