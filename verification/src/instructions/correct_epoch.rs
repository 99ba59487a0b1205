//! Correcting the root and the mint of a draft epoch.
use vstd::prelude::*;
use crate::errors::ErrorCode;
use crate::events::EpochCorrected;
use crate::pubkey::Pubkey;
use crate::state::{EpochAccount, Mint, RewardsAccount};

verus! {

/// What a correction works on.
#[derive(Clone, Copy, Debug, PartialEq, Eq)]
pub struct CorrectEpoch {
    /// The governance singleton.
    pub rewards_account: RewardsAccount,
    /// The epoch to correct.
    pub epoch_account: EpochAccount,
    /// The mint the epoch is to distribute.
    pub mint: Mint,
    /// Who corrects; the caller.
    pub agent: Pubkey,
}

impl CorrectEpoch {
    /// The guards of a correction, in the order in which they are tried.
    pub open spec fn spec_check(self, epoch_nr: u64) -> Result<(), ErrorCode> {
        if self.agent != self.rewards_account.agent {
            Err(ErrorCode::Unauthorized)
        } else if self.rewards_account.is_paused {
            Err(ErrorCode::ShouldNotBePaused)
        } else if epoch_nr == 0 || epoch_nr != self.epoch_account.epoch_nr {
            Err(ErrorCode::InvalidEpochNr)
        } else if self.epoch_account.is_approved {
            Err(ErrorCode::EpochShouldNotBeApproved)
        } else {
            Ok(())
        }
    }

    /// What a correction does: either the rejection, or the state after it
    /// with the announcement.
    pub open spec fn spec_correct(self, epoch_nr: u64, root: [u8; 32]) -> Result<
        (CorrectEpoch, EpochCorrected),
        ErrorCode,
    > {
        match self.spec_check(epoch_nr) {
            Err(code) => Err(code),
            Ok(_) => Ok(
                (
                    CorrectEpoch {
                        epoch_account: EpochAccount {
                            hash: root,
                            mint: self.mint.key,
                            ..self.epoch_account
                        },
                        ..self
                    },
                    EpochCorrected { root, epoch_nr },
                ),
            ),
        }
    }

    /// Tries the guards of a correction.
    pub fn check(&self, epoch_nr: u64) -> (outcome: Result<(), ErrorCode>)
        ensures
            outcome == self.spec_check(epoch_nr),
    {
        RewardsAccount::require_authority(&self.rewards_account.agent, &self.agent)?;
        self.rewards_account.require_not_paused()?;
        if epoch_nr == 0 || epoch_nr != self.epoch_account.epoch_nr {
            return Err(ErrorCode::InvalidEpochNr);
        }
        if self.epoch_account.is_approved {
            return Err(ErrorCode::EpochShouldNotBeApproved);
        }
        Ok(())
    }
}

/// Replaces the root and the mint of a draft epoch.
///
/// The guards are tried in this order: the caller is the agent; the program is
/// active; `epoch_nr` is not zero and names the epoch given; the epoch is still
/// a draft. A rejected correction changes nothing.
pub fn correct_epoch_handler(ctx: &mut CorrectEpoch, epoch_nr: u64, root: [u8; 32]) -> (outcome:
    Result<EpochCorrected, ErrorCode>)
    ensures
        match old(ctx).spec_correct(epoch_nr, root) {
            Ok((after, event)) => outcome == Ok::<EpochCorrected, ErrorCode>(event) && *final(ctx)
                == after,
            Err(code) => outcome == Err::<EpochCorrected, ErrorCode>(code) && *final(ctx) == *old(ctx),
        },
{
    ctx.check(epoch_nr)?;
    ctx.epoch_account.hash = root;
    ctx.epoch_account.mint = ctx.mint.key;
    Ok(EpochCorrected { root, epoch_nr })
}

} // verus!
