//! Pausing the program.
use vstd::prelude::*;
use crate::errors::ErrorCode;
use crate::events::Paused;
use crate::pubkey::Pubkey;
use crate::state::RewardsAccount;

verus! {

/// What pausing works on.
#[derive(Clone, Copy, Debug, PartialEq, Eq)]
pub struct Pause {
    /// Who pauses; the caller.
    pub manager: Pubkey,
    /// The governance singleton.
    pub rewards_account: RewardsAccount,
}

impl Pause {
    /// The guards of pausing, in the order in which they are tried.
    pub open spec fn spec_check(self) -> Result<(), ErrorCode> {
        if self.manager != self.rewards_account.manager {
            Err(ErrorCode::Unauthorized)
        } else if self.rewards_account.is_paused {
            Err(ErrorCode::ShouldNotBePaused)
        } else {
            Ok(())
        }
    }

    /// What pausing does: either the rejection, or the state after it with the
    /// announcement.
    pub open spec fn spec_pause(self) -> Result<(Pause, Paused), ErrorCode> {
        match self.spec_check() {
            Err(code) => Err(code),
            Ok(_) => Ok(
                (
                    Pause {
                        rewards_account: RewardsAccount { is_paused: true, ..self.rewards_account },
                        ..self
                    },
                    Paused { is_paused: true },
                ),
            ),
        }
    }
}

/// Pauses the program.
///
/// The guards are tried in this order: the caller is the manager; the program
/// is not paused already. A rejected call changes nothing.
pub fn pause_handler(ctx: &mut Pause) -> (outcome: Result<Paused, ErrorCode>)
    ensures
        match old(ctx).spec_pause() {
            Ok((after, event)) => outcome == Ok::<Paused, ErrorCode>(event) && *final(ctx) == after,
            Err(code) => outcome == Err::<Paused, ErrorCode>(code) && *final(ctx) == *old(ctx),
        },
{
    RewardsAccount::require_authority(&ctx.rewards_account.manager, &ctx.manager)?;
    ctx.rewards_account.require_not_paused()?;
    ctx.rewards_account.is_paused = true;
    Ok(Paused { is_paused: true })
}

} // verus!
