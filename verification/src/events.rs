//! What the engine announces after each successful operation.
use vstd::prelude::*;
use crate::pubkey::Pubkey;

verus! {

/// The program has been initialized.
#[derive(Clone, Copy, Debug, PartialEq, Eq)]
pub struct Initialized {
    /// The manager who initialized the program.
    pub manager: Pubkey,
    /// The agent the manager appointed.
    pub agent: Pubkey,
    /// The current epoch number.
    pub current_epoch_nr: u64,
}

/// The manager role has changed hands.
#[derive(Clone, Copy, Debug, PartialEq, Eq)]
pub struct ManagerUpdated {
    /// The new manager.
    pub new_manager: Pubkey,
}

/// A candidate has been proposed for the manager role.
#[derive(Clone, Copy, Debug, PartialEq, Eq)]
pub struct NewProposedManager {
    /// The proposed manager.
    pub proposed_manager: Pubkey,
}

/// A draft epoch has been created.
#[derive(Clone, Copy, Debug, PartialEq, Eq)]
pub struct EpochCreated {
    /// The number of the new epoch.
    pub epoch_nr: u64,
    /// The root of the epoch's Merkle tree.
    pub hash: [u8; 32],
    /// When the epoch was created.
    pub timestamp: i64,
}

/// An entitlement has been paid out.
#[derive(Clone, Copy, Debug, PartialEq, Eq)]
pub struct ClaimedEvent {
    /// The index of the entitlement in the Merkle tree.
    pub index: u64,
    /// The receiver of the payout.
    pub receiver: Pubkey,
    /// The amount paid out.
    pub amount: u64,
}

/// The agent has been replaced.
#[derive(Clone, Copy, Debug, PartialEq, Eq)]
pub struct AgentChanged {
    /// The new agent.
    pub new_agent: Pubkey,
}

/// The pause switch has been thrown.
#[derive(Clone, Copy, Debug, PartialEq, Eq)]
pub struct Paused {
    /// Whether the program is paused now.
    pub is_paused: bool,
}

/// The root of a draft epoch has been corrected.
#[derive(Clone, Copy, Debug, PartialEq, Eq)]
pub struct EpochCorrected {
    /// The corrected root.
    pub root: [u8; 32],
    /// The number of the corrected epoch.
    pub epoch_nr: u64,
}

/// An epoch has been approved and funded.
#[derive(Clone, Copy, Debug, PartialEq, Eq)]
pub struct EpochApproved {
    /// The number of the approved epoch.
    pub epoch_nr: u64,
}

/// The program has been handed over in one step.
#[derive(Clone, Copy, Debug, PartialEq, Eq)]
pub struct AdminUpdated {
    /// The new manager.
    pub new_admin: Pubkey,
}

/// The root of a fixed allocation has been submitted.
#[derive(Clone, Copy, Debug, PartialEq, Eq)]
pub struct RootHashSubmitted {
    /// The root of the Merkle tree.
    pub hash: [u8; 32],
    /// The most that may ever be claimed.
    pub max_total_claim: u64,
    /// The most entitlements that may ever be claimed.
    pub max_num_nodes: u64,
    /// When the root was submitted.
    pub timestamp: i64,
}

} // verus!
