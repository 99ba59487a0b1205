//! The records the engine keeps: the governance singleton, the epochs and the
//! claim receipts, and the plain values it reads of the custody subsystem.
use vstd::prelude::*;
use crate::errors::ErrorCode;
use crate::pubkey::Pubkey;

verus! {

/// The governance singleton: who may do what, and how far the epochs have come.
#[derive(Clone, Copy, Debug, PartialEq, Eq)]
pub struct RewardsAccount {
    /// The identity that owns the program.
    pub manager: Pubkey,
    /// The identity the manager role has been offered to; zero when none is.
    pub proposed_manager: Pubkey,
    /// The operational delegate, who creates and corrects epochs.
    pub agent: Pubkey,
    /// The number of the newest epoch; zero before the first.
    pub current_epoch_nr: u64,
    /// The number of the newest approved epoch; zero before the first approval.
    pub current_approved_epoch: u64,
    /// The intended cadence of epochs; the engine does not act on it.
    pub epoch_length: u64,
    /// Whether the program is paused.
    pub is_paused: bool,
}

impl RewardsAccount {
    /// At most one epoch is waiting for approval, and none is approved that
    /// was not created.
    pub open spec fn wf(&self) -> bool {
        self.current_approved_epoch <= self.current_epoch_nr
            && self.current_epoch_nr <= self.current_approved_epoch + 1
    }

    /// The record before `initialize` has written to it.
    pub open spec fn spec_default() -> RewardsAccount {
        RewardsAccount {
            manager: Pubkey::spec_zero(),
            proposed_manager: Pubkey::spec_zero(),
            agent: Pubkey::spec_zero(),
            current_epoch_nr: 0,
            current_approved_epoch: 0,
            epoch_length: 0,
            is_paused: false,
        }
    }

    /// `Ok` when `caller` is `authority`, `Unauthorized` otherwise.
    pub open spec fn spec_require_authority(authority: Pubkey, caller: Pubkey) -> Result<
        (),
        ErrorCode,
    > {
        if authority == caller {
            Ok(())
        } else {
            Err(ErrorCode::Unauthorized)
        }
    }

    /// Guard: the caller must be the stored authority.
    pub fn require_authority(authority: &Pubkey, caller: &Pubkey) -> (outcome: Result<
        (),
        ErrorCode,
    >)
        ensures
            outcome == Self::spec_require_authority(*authority, *caller),
    {
        if *authority == *caller {
            Ok(())
        } else {
            Err(ErrorCode::Unauthorized)
        }
    }

    /// Guard: the program must be active.
    pub fn require_not_paused(&self) -> (outcome: Result<(), ErrorCode>)
        ensures
            outcome == (if self.is_paused {
                Err::<(), ErrorCode>(ErrorCode::ShouldNotBePaused)
            } else {
                Ok(())
            }),
    {
        if self.is_paused {
            Err(ErrorCode::ShouldNotBePaused)
        } else {
            Ok(())
        }
    }

    /// Guard: the program must be paused.
    pub fn require_paused(&self) -> (outcome: Result<(), ErrorCode>)
        ensures
            outcome == (if self.is_paused {
                Ok::<(), ErrorCode>(())
            } else {
                Err(ErrorCode::ShouldBePaused)
            }),
    {
        if self.is_paused {
            Ok(())
        } else {
            Err(ErrorCode::ShouldBePaused)
        }
    }
}

impl Default for RewardsAccount {
    fn default() -> (account: RewardsAccount)
        ensures
            account == RewardsAccount::spec_default(),
    {
        RewardsAccount {
            manager: Pubkey::zero(),
            proposed_manager: Pubkey::zero(),
            agent: Pubkey::zero(),
            current_epoch_nr: 0,
            current_approved_epoch: 0,
            epoch_length: 0,
            is_paused: false,
        }
    }
}

/// One epoch: a committed Merkle root, its approval, and what has been claimed.
#[derive(Clone, Copy, Debug, PartialEq, Eq)]
pub struct EpochAccount {
    /// The number of the epoch.
    pub epoch_nr: u64,
    /// Whether the epoch is approved; once true it stays true.
    pub is_approved: bool,
    /// The root of the epoch's Merkle tree.
    pub hash: [u8; 32],
    /// The seed that completes the address the epoch signs payouts with.
    pub bump: u8,
    /// The mint of the token the epoch distributes.
    pub mint: Pubkey,
    /// The sum of the amounts paid out so far.
    pub total_amount_claimed: u64,
    /// The number of entitlements paid out so far.
    pub num_nodes_claimed: u64,
}

impl EpochAccount {
    /// The record before `add_epoch` has written to it.
    pub open spec fn spec_default() -> EpochAccount {
        EpochAccount {
            epoch_nr: 0,
            is_approved: false,
            hash: vstd::array::spec_array_fill_for_copy_type::<u8, 32>(0u8),
            bump: 0,
            mint: Pubkey::spec_zero(),
            total_amount_claimed: 0,
            num_nodes_claimed: 0,
        }
    }
}

impl Default for EpochAccount {
    fn default() -> (account: EpochAccount)
        ensures
            account == EpochAccount::spec_default(),
    {
        EpochAccount {
            epoch_nr: 0,
            is_approved: false,
            hash: [0u8; 32],
            bump: 0,
            mint: Pubkey::zero(),
            total_amount_claimed: 0,
            num_nodes_claimed: 0,
        }
    }
}

/// The receipt of one payout. It exists for an entitlement from its first
/// successful claim on, and is never changed afterwards.
#[derive(Clone, Copy, Debug, PartialEq, Eq)]
pub struct ClaimStatus {
    /// Whether the entitlement has been paid out.
    pub is_claimed: bool,
    /// Who received the payout.
    pub receiver: Pubkey,
    /// When the payout was made.
    pub claimed_at: i64,
    /// The amount paid out.
    pub amount: u64,
}

impl ClaimStatus {
    /// The receipt before a claim has written to it.
    pub open spec fn spec_default() -> ClaimStatus {
        ClaimStatus { is_claimed: false, receiver: Pubkey::spec_zero(), claimed_at: 0, amount: 0 }
    }

    /// Whether the receipt is still blank, so that a claim may fill it.
    pub open spec fn is_blank(&self) -> bool {
        !self.is_claimed && self.claimed_at == 0
    }
}

impl Default for ClaimStatus {
    fn default() -> (status: ClaimStatus)
        ensures
            status == ClaimStatus::spec_default(),
    {
        ClaimStatus { is_claimed: false, receiver: Pubkey::zero(), claimed_at: 0, amount: 0 }
    }
}

/// A single fixed allocation, as the engine kept it before it had epochs.
#[derive(Clone, Copy, Debug, PartialEq, Eq)]
pub struct RewardsDistributor {
    /// The key the distributor's address is derived from.
    pub base: Pubkey,
    /// The seed that completes that address.
    pub bump: u8,
    /// The root of the Merkle tree.
    pub root: [u8; 32],
    /// The mint of the token to distribute.
    pub mint: Pubkey,
    /// The most that may ever be claimed.
    pub max_total_claim: u64,
    /// The most entitlements that may ever be claimed.
    pub max_num_nodes: u64,
    /// The sum of the amounts paid out so far.
    pub total_amount_claimed: u64,
    /// The number of entitlements paid out so far.
    pub num_nodes_claimed: u64,
}

impl RewardsDistributor {
    /// The record before a distributor has been set.
    pub open spec fn spec_default() -> RewardsDistributor {
        RewardsDistributor {
            base: Pubkey::spec_zero(),
            bump: 0,
            root: vstd::array::spec_array_fill_for_copy_type::<u8, 32>(0u8),
            mint: Pubkey::spec_zero(),
            max_total_claim: 0,
            max_num_nodes: 0,
            total_amount_claimed: 0,
            num_nodes_claimed: 0,
        }
    }
}

impl Default for RewardsDistributor {
    fn default() -> (distributor: RewardsDistributor)
        ensures
            distributor == RewardsDistributor::spec_default(),
    {
        RewardsDistributor {
            base: Pubkey::zero(),
            bump: 0,
            root: [0u8; 32],
            mint: Pubkey::zero(),
            max_total_claim: 0,
            max_num_nodes: 0,
            total_amount_claimed: 0,
            num_nodes_claimed: 0,
        }
    }
}

/// What the engine reads of a mint.
#[derive(Clone, Copy, Debug, PartialEq, Eq)]
pub struct Mint {
    /// The address of the mint.
    pub key: Pubkey,
    /// The number of decimal places of the token.
    pub decimals: u8,
}

/// What the engine reads of a token account.
#[derive(Clone, Copy, Debug, PartialEq, Eq)]
pub struct TokenAccount {
    /// The address of the account.
    pub key: Pubkey,
    /// The identity that owns the account.
    pub owner: Pubkey,
    /// The mint of the token the account holds.
    pub mint: Pubkey,
}

impl TokenAccount {
    /// The token account at no address, owned by nobody.
    pub open spec fn spec_default() -> TokenAccount {
        TokenAccount {
            key: Pubkey::spec_zero(),
            owner: Pubkey::spec_zero(),
            mint: Pubkey::spec_zero(),
        }
    }
}

impl Default for TokenAccount {
    fn default() -> (account: TokenAccount)
        ensures
            account == TokenAccount::spec_default(),
    {
        TokenAccount { key: Pubkey::zero(), owner: Pubkey::zero(), mint: Pubkey::zero() }
    }
}

/// Who authorizes a transfer.
#[derive(Clone, Copy, Debug, PartialEq, Eq)]
pub enum Authority {
    /// A human signer.
    Signer { key: Pubkey },
    /// The epoch itself, signing with the address derived from its number
    /// and bump.
    Epoch { epoch_nr: u64, bump: u8 },
}

/// An instruction to the custody subsystem: move `amount` from one token
/// account to another. The engine decides on it; its caller carries it out.
#[derive(Clone, Copy, Debug, PartialEq, Eq)]
pub struct Transfer {
    /// The token account to take from.
    pub from: Pubkey,
    /// The token account to give to.
    pub to: Pubkey,
    /// Who authorizes the transfer.
    pub authority: Authority,
    /// The amount to move, in the token's smallest unit.
    pub amount: u64,
}

} // verus!
