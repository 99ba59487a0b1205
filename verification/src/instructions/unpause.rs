//! Taking the program out of its pause.
use vstd::prelude::*;
use crate::errors::ErrorCode;
use crate::events::Paused;
use crate::pubkey::Pubkey;
use crate::state::RewardsAccount;

verus! {

/// What unpausing works on.
#[derive(Clone, Copy, Debug, PartialEq, Eq)]
pub struct UnPause {
    /// Who unpauses; the caller.
    pub manager: Pubkey,
    /// The governance singleton.
    pub rewards_account: RewardsAccount,
}

impl UnPause {
    /// The guards of unpausing, in the order in which they are tried.
    pub open spec fn spec_check(self) -> Result<(), ErrorCode> {
        if self.manager != self.rewards_account.manager {
            Err(ErrorCode::Unauthorized)
        } else if !self.rewards_account.is_paused {
            Err(ErrorCode::ShouldBePaused)
        } else {
            Ok(())
        }
    }

    /// What unpausing does: either the rejection, or the state after it with
    /// the announcement.
    pub open spec fn spec_unpause(self) -> Result<(UnPause, Paused), ErrorCode> {
        match self.spec_check() {
            Err(code) => Err(code),
            Ok(_) => Ok(
                (
                    UnPause {
                        rewards_account: RewardsAccount { is_paused: false, ..self.rewards_account },
                        ..self
                    },
                    Paused { is_paused: false },
                ),
            ),
        }
    }
}

/// Takes the program out of its pause.
///
/// The guards are tried in this order: the caller is the manager; the program
/// is paused. A rejected call changes nothing.
pub fn unpause_handler(ctx: &mut UnPause) -> (outcome: Result<Paused, ErrorCode>)
    ensures
        match old(ctx).spec_unpause() {
            Ok((after, event)) => outcome == Ok::<Paused, ErrorCode>(event) && *final(ctx) == after,
            Err(code) => outcome == Err::<Paused, ErrorCode>(code) && *final(ctx) == *old(ctx),
        },
{
    RewardsAccount::require_authority(&ctx.rewards_account.manager, &ctx.manager)?;
    ctx.rewards_account.require_paused()?;
    ctx.rewards_account.is_paused = false;
    Ok(Paused { is_paused: false })
}

} // verus!
