//! Accepting the manager role: the second half of a transfer of ownership.
use vstd::prelude::*;
use crate::errors::ErrorCode;
use crate::events::ManagerUpdated;
use crate::pubkey::Pubkey;
use crate::state::RewardsAccount;

verus! {

/// What an acceptance works on.
#[derive(Clone, Copy, Debug, PartialEq, Eq)]
pub struct AcceptManager {
    /// Who accepts; the caller.
    pub proposed_manager: Pubkey,
    /// The governance singleton.
    pub rewards_account: RewardsAccount,
}

impl AcceptManager {
    /// The guards of an acceptance, in the order in which they are tried.
    pub open spec fn spec_check(self) -> Result<(), ErrorCode> {
        if self.proposed_manager != self.rewards_account.proposed_manager {
            Err(ErrorCode::Unauthorized)
        } else if self.rewards_account.is_paused {
            Err(ErrorCode::ShouldNotBePaused)
        } else {
            Ok(())
        }
    }

    /// What an acceptance does: either the rejection, or the state after it
    /// with the announcement. The caller manages, and nobody is proposed any
    /// more.
    pub open spec fn spec_accept(self) -> Result<(AcceptManager, ManagerUpdated), ErrorCode> {
        match self.spec_check() {
            Err(code) => Err(code),
            Ok(_) => Ok(
                (
                    AcceptManager {
                        rewards_account: RewardsAccount {
                            manager: self.proposed_manager,
                            proposed_manager: Pubkey::spec_zero(),
                            ..self.rewards_account
                        },
                        ..self
                    },
                    ManagerUpdated { new_manager: self.proposed_manager },
                ),
            ),
        }
    }
}

/// Makes the caller the manager and clears the proposal.
///
/// The guards are tried in this order: the caller is the proposed manager; the
/// program is active. A rejected acceptance changes nothing.
pub fn accept_manager_handler(ctx: &mut AcceptManager) -> (outcome: Result<
    ManagerUpdated,
    ErrorCode,
>)
    ensures
        match old(ctx).spec_accept() {
            Ok((after, event)) => outcome == Ok::<ManagerUpdated, ErrorCode>(event) && *final(ctx)
                == after,
            Err(code) => outcome == Err::<ManagerUpdated, ErrorCode>(code) && *final(ctx) == *old(ctx),
        },
{
    RewardsAccount::require_authority(&ctx.rewards_account.proposed_manager, &ctx.proposed_manager)?;
    ctx.rewards_account.require_not_paused()?;
    let new_manager = ctx.proposed_manager;
    ctx.rewards_account.manager = new_manager;
    ctx.rewards_account.proposed_manager = Pubkey::zero();
    Ok(ManagerUpdated { new_manager })
}

} // verus!
