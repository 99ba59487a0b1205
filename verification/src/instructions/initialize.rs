//! Creating the governance singleton.
use vstd::prelude::*;
use crate::errors::ErrorCode;
use crate::events::Initialized;
use crate::pubkey::Pubkey;
use crate::state::RewardsAccount;

verus! {

/// What the initialization works on.
#[derive(Clone, Copy, Debug, PartialEq, Eq)]
pub struct Initialize {
    /// Who initializes, and becomes the manager; the caller.
    pub manager: Pubkey,
    /// The record the singleton is written to.
    pub rewards_account: RewardsAccount,
}

impl Initialize {
    /// The singleton as the initialization writes it: the caller manages,
    /// nobody has been proposed, no epoch exists, and the program is active.
    pub open spec fn spec_singleton(self, agent: Pubkey) -> RewardsAccount {
        RewardsAccount { manager: self.manager, agent, ..RewardsAccount::spec_default() }
    }
}

/// Writes the governance singleton with the caller as manager and `agent` as
/// agent, and announces it. It never rejects.
pub fn initialize_handler(ctx: &mut Initialize, agent: Pubkey) -> (outcome: Result<
    Initialized,
    ErrorCode,
>)
    ensures
        outcome == Ok::<Initialized, ErrorCode>(
            Initialized { manager: old(ctx).manager, agent, current_epoch_nr: 0 },
        ),
        final(ctx).rewards_account == old(ctx).spec_singleton(agent),
        final(ctx).manager == old(ctx).manager,
{
    let mut rewards_account = RewardsAccount::default();
    rewards_account.manager = ctx.manager;
    rewards_account.agent = agent;
    rewards_account.current_epoch_nr = 0;
    ctx.rewards_account = rewards_account;
    Ok(Initialized { manager: ctx.manager, agent, current_epoch_nr: 0 })
}

} // verus!
