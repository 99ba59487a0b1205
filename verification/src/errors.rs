//! The reasons for which the engine rejects an operation.
use vstd::prelude::*;

verus! {

/// Why an operation was rejected.
///
/// A rejected operation changes nothing.
#[derive(Clone, Copy, Debug, PartialEq, Eq, Structural)]
pub enum ErrorCode {
    /// The caller is not the identity that may perform the action.
    Unauthorized,
    /// The destination token account does not belong to the intended owner.
    OwnerMismatch,
    /// The entitlement has already been paid out.
    DropAlreadyClaimed,
    /// The Merkle proof does not lead to the epoch's root.
    InvalidProof,
    /// The operation needs the program to be active, and it is paused.
    ShouldNotBePaused,
    /// The operation needs the program to be paused, and it is active.
    ShouldBePaused,
    /// The operation needs a draft epoch, and the epoch is approved.
    EpochShouldNotBeApproved,
    /// The operation needs an approved epoch, and the epoch is a draft.
    EpochShouldBeApproved,
    /// A new epoch cannot be added while the previous one is a draft.
    PreviousEpochIsNotApproved,
    /// The epoch number does not name the epoch the operation is for.
    InvalidEpochNr,
    /// The mint is not the one the epoch distributes.
    InvalidMintAccount,
}

/// Why a ledger refused a claim.
#[derive(Clone, Copy, Debug, PartialEq, Eq, Structural)]
pub enum ClaimError {
    /// A guard of the engine rejected the claim.
    Rejected(ErrorCode),
    /// Every guard passed, but the epoch's escrow holds less than the amount
    /// claimed, so the payout could not be made.
    InsufficientFunds,
}

impl ErrorCode {
    /// The text shown to a caller for each rejection.
    pub open spec fn spec_message(self) -> Seq<char> {
        match self {
            ErrorCode::Unauthorized => "Unauthorized signer"@,
            ErrorCode::OwnerMismatch => "Token account owner did not match intended owner"@,
            ErrorCode::DropAlreadyClaimed => "Drop already claimed"@,
            ErrorCode::InvalidProof => "Invalid proof"@,
            ErrorCode::ShouldNotBePaused => "Operation not allowed: Program is currently paused."@,
            ErrorCode::ShouldBePaused => "Operation requires the program to be paused."@,
            ErrorCode::EpochShouldNotBeApproved => "Operation not allowed: Epoch is already approved."@,
            ErrorCode::EpochShouldBeApproved => "Operation not allowed: Epoch is not approved."@,
            ErrorCode::PreviousEpochIsNotApproved => "Operation not allowed: Previous epoch is not approved."@,
            ErrorCode::InvalidEpochNr => "Operation not allowed: Invalid epoch number."@,
            ErrorCode::InvalidMintAccount => "Operation not allowed: Invalid mint account."@,
        }
    }

    /// The text shown to a caller for this rejection.
    pub fn message(&self) -> (text: &'static str)
        ensures
            text@ == self.spec_message(),
    {
        match self {
            ErrorCode::Unauthorized => "Unauthorized signer",
            ErrorCode::OwnerMismatch => "Token account owner did not match intended owner",
            ErrorCode::DropAlreadyClaimed => "Drop already claimed",
            ErrorCode::InvalidProof => "Invalid proof",
            ErrorCode::ShouldNotBePaused => "Operation not allowed: Program is currently paused.",
            ErrorCode::ShouldBePaused => "Operation requires the program to be paused.",
            ErrorCode::EpochShouldNotBeApproved => "Operation not allowed: Epoch is already approved.",
            ErrorCode::EpochShouldBeApproved => "Operation not allowed: Epoch is not approved.",
            ErrorCode::PreviousEpochIsNotApproved => "Operation not allowed: Previous epoch is not approved.",
            ErrorCode::InvalidEpochNr => "Operation not allowed: Invalid epoch number.",
            ErrorCode::InvalidMintAccount => "Operation not allowed: Invalid mint account.",
        }
    }
}

} // verus!
