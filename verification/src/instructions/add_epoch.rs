//! Creating the next draft epoch.
use vstd::prelude::*;
use crate::errors::ErrorCode;
use crate::events::EpochCreated;
use crate::pubkey::Pubkey;
use crate::state::{EpochAccount, Mint, RewardsAccount};

verus! {

/// What the creation of an epoch works on.
#[derive(Clone, Copy, Debug, PartialEq, Eq)]
pub struct AddEpoch {
    /// The governance singleton.
    pub rewards_account: RewardsAccount,
    /// The record the new epoch is written to.
    pub current_epoch_account: EpochAccount,
    /// The mint the new epoch distributes.
    pub mint: Mint,
    /// Who creates the epoch; the caller.
    pub agent: Pubkey,
}

impl AddEpoch {
    /// The guards of the creation, in the order in which they are tried.
    pub open spec fn spec_check(self) -> Result<(), ErrorCode> {
        if self.agent != self.rewards_account.agent {
            Err(ErrorCode::Unauthorized)
        } else if self.rewards_account.is_paused {
            Err(ErrorCode::ShouldNotBePaused)
        } else if self.rewards_account.current_approved_epoch
            != self.rewards_account.current_epoch_nr {
            Err(ErrorCode::PreviousEpochIsNotApproved)
        } else {
            Ok(())
        }
    }

    /// The draft a successful creation writes.
    pub open spec fn spec_draft(self, bump: u8, root: [u8; 32]) -> EpochAccount {
        EpochAccount {
            epoch_nr: (self.rewards_account.current_epoch_nr + 1) as u64,
            is_approved: false,
            hash: root,
            bump,
            mint: self.mint.key,
            total_amount_claimed: 0,
            num_nodes_claimed: 0,
        }
    }

    /// What the creation does: either the rejection, or the state after it
    /// with the announcement.
    pub open spec fn spec_add_epoch(self, bump: u8, root: [u8; 32], now: i64) -> Result<
        (AddEpoch, EpochCreated),
        ErrorCode,
    > {
        match self.spec_check() {
            Err(code) => Err(code),
            Ok(_) => Ok(
                (
                    AddEpoch {
                        rewards_account: RewardsAccount {
                            current_epoch_nr: (self.rewards_account.current_epoch_nr + 1) as u64,
                            ..self.rewards_account
                        },
                        current_epoch_account: self.spec_draft(bump, root),
                        ..self
                    },
                    EpochCreated {
                        epoch_nr: (self.rewards_account.current_epoch_nr + 1) as u64,
                        hash: root,
                        timestamp: now,
                    },
                ),
            ),
        }
    }

    /// Tries the guards of the creation.
    pub fn check(&self) -> (outcome: Result<(), ErrorCode>)
        ensures
            outcome == self.spec_check(),
    {
        RewardsAccount::require_authority(&self.rewards_account.agent, &self.agent)?;
        self.rewards_account.require_not_paused()?;
        if self.rewards_account.current_approved_epoch != self.rewards_account.current_epoch_nr {
            return Err(ErrorCode::PreviousEpochIsNotApproved);
        }
        Ok(())
    }
}

/// Creates the next epoch as a draft with the given root, for the given mint.
///
/// The guards are tried in this order: the caller is the agent; the program is
/// active; no earlier epoch is still a draft. The new epoch takes the next
/// number, is not approved and has nothing claimed. `now` is the time
/// announced. A rejected creation changes nothing.
pub fn add_epoch_handler(ctx: &mut AddEpoch, bump: u8, root: [u8; 32], now: i64) -> (outcome: Result<
    EpochCreated,
    ErrorCode,
>)
    requires
        old(ctx).rewards_account.current_epoch_nr < u64::MAX,
    ensures
        match old(ctx).spec_add_epoch(bump, root, now) {
            Ok((after, event)) => outcome == Ok::<EpochCreated, ErrorCode>(event) && *final(ctx)
                == after,
            Err(code) => outcome == Err::<EpochCreated, ErrorCode>(code) && *final(ctx) == *old(ctx),
        },
{
    ctx.check()?;
    let current_epoch_nr = ctx.rewards_account.current_epoch_nr;
    ctx.rewards_account.current_epoch_nr = ctx.rewards_account.current_approved_epoch + 1;
    ctx.current_epoch_account.epoch_nr = current_epoch_nr + 1;
    ctx.current_epoch_account.is_approved = false;
    ctx.current_epoch_account.hash = root;
    ctx.current_epoch_account.bump = bump;
    ctx.current_epoch_account.mint = ctx.mint.key;
    ctx.current_epoch_account.total_amount_claimed = 0;
    ctx.current_epoch_account.num_nodes_claimed = 0;
    Ok(EpochCreated { epoch_nr: ctx.rewards_account.current_epoch_nr, hash: root, timestamp: now })
}

} // verus!
