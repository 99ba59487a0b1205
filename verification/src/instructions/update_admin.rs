//! Handing the program over in one step.
use vstd::prelude::*;
use crate::errors::ErrorCode;
use crate::events::AdminUpdated;
use crate::pubkey::Pubkey;
use crate::state::RewardsAccount;

verus! {

/// What a one-step hand-over works on.
#[derive(Clone, Copy, Debug, PartialEq, Eq)]
pub struct UpdateAdmin {
    /// Who hands over; the caller.
    pub admin: Pubkey,
    /// The governance singleton.
    pub rewards_account: RewardsAccount,
}

impl UpdateAdmin {
    /// What the hand-over does: either the rejection, or the state after it
    /// with the announcement.
    pub open spec fn spec_update(self, new_admin: Pubkey) -> Result<
        (UpdateAdmin, AdminUpdated),
        ErrorCode,
    > {
        if self.admin != self.rewards_account.manager {
            Err(ErrorCode::Unauthorized)
        } else {
            Ok(
                (
                    UpdateAdmin {
                        rewards_account: RewardsAccount { manager: new_admin, ..self.rewards_account },
                        ..self
                    },
                    AdminUpdated { new_admin },
                ),
            )
        }
    }
}

/// Makes `new_admin` the manager at once, without a proposal.
///
/// The caller must be the manager. A rejected hand-over changes nothing.
pub fn update_admin_handler(ctx: &mut UpdateAdmin, new_admin: Pubkey) -> (outcome: Result<
    AdminUpdated,
    ErrorCode,
>)
    ensures
        match old(ctx).spec_update(new_admin) {
            Ok((after, event)) => outcome == Ok::<AdminUpdated, ErrorCode>(event) && *final(ctx)
                == after,
            Err(code) => outcome == Err::<AdminUpdated, ErrorCode>(code) && *final(ctx) == *old(ctx),
        },
{
    RewardsAccount::require_authority(&ctx.rewards_account.manager, &ctx.admin)?;
    ctx.rewards_account.manager = new_admin;
    Ok(AdminUpdated { new_admin })
}

} // verus!
