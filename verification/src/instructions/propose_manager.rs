//! Offering the manager role to a candidate: the first half of a transfer of
//! ownership.
use vstd::prelude::*;
use crate::errors::ErrorCode;
use crate::events::NewProposedManager;
use crate::pubkey::Pubkey;
use crate::state::RewardsAccount;

verus! {

/// What a proposal works on.
#[derive(Clone, Copy, Debug, PartialEq, Eq)]
pub struct ProposeManager {
    /// Who proposes; the caller.
    pub manager: Pubkey,
    /// The governance singleton.
    pub rewards_account: RewardsAccount,
}

impl ProposeManager {
    /// The guards of a proposal, in the order in which they are tried.
    pub open spec fn spec_check(self) -> Result<(), ErrorCode> {
        if self.manager != self.rewards_account.manager {
            Err(ErrorCode::Unauthorized)
        } else if self.rewards_account.is_paused {
            Err(ErrorCode::ShouldNotBePaused)
        } else {
            Ok(())
        }
    }

    /// What a proposal does: either the rejection, or the state after it with
    /// the announcement. The manager stays the manager.
    pub open spec fn spec_propose(self, proposed_manager: Pubkey) -> Result<
        (ProposeManager, NewProposedManager),
        ErrorCode,
    > {
        match self.spec_check() {
            Err(code) => Err(code),
            Ok(_) => Ok(
                (
                    ProposeManager {
                        rewards_account: RewardsAccount { proposed_manager, ..self.rewards_account },
                        ..self
                    },
                    NewProposedManager { proposed_manager },
                ),
            ),
        }
    }
}

/// Records `proposed_manager` as the candidate for the manager role. Authority
/// does not pass until the candidate accepts.
///
/// The guards are tried in this order: the caller is the manager; the program
/// is active. A rejected proposal changes nothing.
pub fn propose_manager_handler(ctx: &mut ProposeManager, proposed_manager: Pubkey) -> (outcome:
    Result<NewProposedManager, ErrorCode>)
    ensures
        match old(ctx).spec_propose(proposed_manager) {
            Ok((after, event)) => outcome == Ok::<NewProposedManager, ErrorCode>(event) && *final(ctx) == after,
            Err(code) => outcome == Err::<NewProposedManager, ErrorCode>(code) && *final(ctx)
                == *old(ctx),
        },
{
    RewardsAccount::require_authority(&ctx.rewards_account.manager, &ctx.manager)?;
    ctx.rewards_account.require_not_paused()?;
    ctx.rewards_account.proposed_manager = proposed_manager;
    Ok(NewProposedManager { proposed_manager })
}

} // verus!
