//! Replacing the agent.
use vstd::prelude::*;
use crate::errors::ErrorCode;
use crate::events::AgentChanged;
use crate::pubkey::Pubkey;
use crate::state::RewardsAccount;

verus! {

/// What a change of agent works on.
#[derive(Clone, Copy, Debug, PartialEq, Eq)]
pub struct ChangeAgent {
    /// Who changes the agent; the caller.
    pub manager: Pubkey,
    /// The governance singleton.
    pub rewards_account: RewardsAccount,
}

impl ChangeAgent {
    /// The guards of the change, in the order in which they are tried.
    pub open spec fn spec_check(self) -> Result<(), ErrorCode> {
        if self.manager != self.rewards_account.manager {
            Err(ErrorCode::Unauthorized)
        } else if self.rewards_account.is_paused {
            Err(ErrorCode::ShouldNotBePaused)
        } else {
            Ok(())
        }
    }

    /// What the change does: either the rejection, or the state after it with
    /// the announcement.
    pub open spec fn spec_change(self, new_agent: Pubkey) -> Result<
        (ChangeAgent, AgentChanged),
        ErrorCode,
    > {
        match self.spec_check() {
            Err(code) => Err(code),
            Ok(_) => Ok(
                (
                    ChangeAgent {
                        rewards_account: RewardsAccount { agent: new_agent, ..self.rewards_account },
                        ..self
                    },
                    AgentChanged { new_agent },
                ),
            ),
        }
    }
}

/// Makes `new_agent` the agent.
///
/// The guards are tried in this order: the caller is the manager; the program
/// is active. A rejected change changes nothing.
pub fn change_agent_handler(ctx: &mut ChangeAgent, new_agent: Pubkey) -> (outcome: Result<
    AgentChanged,
    ErrorCode,
>)
    ensures
        match old(ctx).spec_change(new_agent) {
            Ok((after, event)) => outcome == Ok::<AgentChanged, ErrorCode>(event) && *final(ctx)
                == after,
            Err(code) => outcome == Err::<AgentChanged, ErrorCode>(code) && *final(ctx) == *old(ctx),
        },
{
    RewardsAccount::require_authority(&ctx.rewards_account.manager, &ctx.manager)?;
    ctx.rewards_account.require_not_paused()?;
    ctx.rewards_account.agent = new_agent;
    Ok(AgentChanged { new_agent })
}

} // verus!
