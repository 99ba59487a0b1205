//! Setting up a single fixed allocation.
use vstd::prelude::*;
use crate::errors::ErrorCode;
use crate::events::RootHashSubmitted;
use crate::pubkey::Pubkey;
use crate::state::{Mint, RewardsAccount, RewardsDistributor};

verus! {

/// What the set-up of a distributor works on.
#[derive(Clone, Copy, Debug, PartialEq, Eq)]
pub struct NewDistributor {
    /// The key the distributor's address is derived from.
    pub base: Pubkey,
    /// The record the distributor is written to.
    pub distributor: RewardsDistributor,
    /// The governance singleton.
    pub rewards_account: RewardsAccount,
    /// The mint to distribute.
    pub mint: Mint,
    /// Who sets the distributor up; the caller.
    pub admin: Pubkey,
}

impl NewDistributor {
    /// The distributor a successful set-up writes: nothing claimed yet.
    pub open spec fn spec_distributor(
        self,
        bump: u8,
        root: [u8; 32],
        max_total_claim: u64,
        max_num_nodes: u64,
    ) -> RewardsDistributor {
        RewardsDistributor {
            base: self.base,
            bump,
            root,
            mint: self.mint.key,
            max_total_claim,
            max_num_nodes,
            total_amount_claimed: 0,
            num_nodes_claimed: 0,
        }
    }

    /// What the set-up does: either the rejection, or the state after it with
    /// the announcement.
    pub open spec fn spec_set(
        self,
        bump: u8,
        root: [u8; 32],
        max_total_claim: u64,
        max_num_nodes: u64,
        now: i64,
    ) -> Result<(NewDistributor, RootHashSubmitted), ErrorCode> {
        if self.admin != self.rewards_account.manager {
            Err(ErrorCode::Unauthorized)
        } else {
            Ok(
                (
                    NewDistributor {
                        distributor: self.spec_distributor(
                            bump,
                            root,
                            max_total_claim,
                            max_num_nodes,
                        ),
                        ..self
                    },
                    RootHashSubmitted { hash: root, max_total_claim, max_num_nodes, timestamp: now },
                ),
            )
        }
    }
}

/// Writes a distributor with the given root and limits, and nothing claimed.
///
/// The caller must be the manager. `now` is the time announced. A rejected
/// set-up changes nothing.
pub fn set_merkle_distributor_handler(
    ctx: &mut NewDistributor,
    bump: u8,
    root: [u8; 32],
    max_total_claim: u64,
    max_num_nodes: u64,
    now: i64,
) -> (outcome: Result<RootHashSubmitted, ErrorCode>)
    ensures
        match old(ctx).spec_set(bump, root, max_total_claim, max_num_nodes, now) {
            Ok((after, event)) => outcome == Ok::<RootHashSubmitted, ErrorCode>(event) && *final(ctx)
                == after,
            Err(code) => outcome == Err::<RootHashSubmitted, ErrorCode>(code) && *final(ctx)
                == *old(ctx),
        },
{
    RewardsAccount::require_authority(&ctx.rewards_account.manager, &ctx.admin)?;
    ctx.distributor.base = ctx.base;
    ctx.distributor.bump = bump;
    ctx.distributor.root = root;
    ctx.distributor.mint = ctx.mint.key;
    ctx.distributor.max_total_claim = max_total_claim;
    ctx.distributor.max_num_nodes = max_num_nodes;
    ctx.distributor.total_amount_claimed = 0;
    ctx.distributor.num_nodes_claimed = 0;
    Ok(RootHashSubmitted { hash: root, max_total_claim, max_num_nodes, timestamp: now })
}

} // verus!
