//! The failure taxonomy. Every operation returns either success or exactly
//! one of these kinds; ledger-originated failures are surfaced unchanged.

use vstd::prelude::*;

verus! {

#[derive(Clone, Copy, PartialEq, Eq, Structural, Debug)]
pub enum StablecoinError {
    /// An operation was attempted before `initialize`.
    NotInitialized,
    /// `initialize` was attempted twice for the same asset.
    AlreadyInitialized,
    /// mint/burn/transfer was attempted while the contract is paused.
    ContractPaused,
    /// The caller is not the required principal: the authority for mint and
    /// pause/unpause, the account holder for burn and transfer.
    Unauthorized,
    /// A counter update would exceed the representable range.
    MathOverflow,
    /// The ledger could not create the asset record. The in-memory ledger of
    /// this crate never fails creation; the variant exists because the
    /// external collaborator it stands for may.
    AssetCreationFailed,
    /// The ledger rejected a mint: unknown or mismatched destination account,
    /// or a ledger-level overflow.
    LedgerMintFailed,
    /// The ledger rejected a burn: unknown or mismatched source account, or
    /// insufficient balance.
    LedgerBurnFailed,
    /// The ledger rejected a transfer: unknown or mismatched account, or
    /// insufficient balance.
    LedgerTransferFailed,
}

} // verus!
