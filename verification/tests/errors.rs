use rewards_distributor::errors::{ClaimError, ErrorCode};

#[test]
fn every_rejection_has_its_message() {
    assert_eq!(ErrorCode::Unauthorized.message(), "Unauthorized signer");
    assert_eq!(
        ErrorCode::OwnerMismatch.message(),
        "Token account owner did not match intended owner"
    );
    assert_eq!(ErrorCode::DropAlreadyClaimed.message(), "Drop already claimed");
    assert_eq!(ErrorCode::InvalidProof.message(), "Invalid proof");
    assert_eq!(
        ErrorCode::ShouldNotBePaused.message(),
        "Operation not allowed: Program is currently paused."
    );
    assert_eq!(ErrorCode::ShouldBePaused.message(), "Operation requires the program to be paused.");
    assert_eq!(
        ErrorCode::EpochShouldNotBeApproved.message(),
        "Operation not allowed: Epoch is already approved."
    );
    assert_eq!(
        ErrorCode::EpochShouldBeApproved.message(),
        "Operation not allowed: Epoch is not approved."
    );
    assert_eq!(
        ErrorCode::PreviousEpochIsNotApproved.message(),
        "Operation not allowed: Previous epoch is not approved."
    );
    assert_eq!(ErrorCode::InvalidEpochNr.message(), "Operation not allowed: Invalid epoch number.");
    assert_eq!(
        ErrorCode::InvalidMintAccount.message(),
        "Operation not allowed: Invalid mint account."
    );
}

#[test]
fn rejections_compare_by_variant() {
    assert_eq!(ErrorCode::InvalidProof, ErrorCode::InvalidProof);
    assert_ne!(ErrorCode::ShouldBePaused, ErrorCode::ShouldNotBePaused);
    assert_ne!(ClaimError::Rejected(ErrorCode::InvalidProof), ClaimError::InsufficientFunds);
    assert_eq!(
        ClaimError::Rejected(ErrorCode::InvalidProof),
        ClaimError::Rejected(ErrorCode::InvalidProof)
    );
}
