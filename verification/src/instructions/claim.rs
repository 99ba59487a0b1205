//! Paying out one entitlement against a Merkle proof.
use vstd::prelude::*;
use crate::errors::ErrorCode;
use crate::events::ClaimedEvent;
use crate::merkle_proof::{leaf_hash, spec_leaf_hash, spec_verify, verify};
use crate::pubkey::Pubkey;
use crate::state::{Authority, ClaimStatus, EpochAccount, Mint, RewardsAccount, TokenAccount, Transfer};

verus! {

/// What a claim works on.
#[derive(Clone, Copy, Debug, PartialEq, Eq)]
pub struct Claim {
    /// The governance singleton.
    pub rewards_account: RewardsAccount,
    /// The epoch claimed from.
    pub epoch_account: EpochAccount,
    /// The receipt for the entitlement; blank until the claim succeeds.
    pub claim_status: ClaimStatus,
    /// The epoch's escrow, which pays.
    pub from: TokenAccount,
    /// The token account that is paid.
    pub to: TokenAccount,
    /// Who claims; the caller.
    pub receiver: Pubkey,
    /// The mint the caller says the epoch distributes.
    pub mint_account: Mint,
}

impl Claim {
    /// The guards that do not depend on the proof, in the order in which they
    /// are tried.
    pub open spec fn spec_precheck(self) -> Result<(), ErrorCode> {
        if self.rewards_account.is_paused {
            Err(ErrorCode::ShouldNotBePaused)
        } else if !self.epoch_account.is_approved {
            Err(ErrorCode::EpochShouldBeApproved)
        } else if self.epoch_account.mint != self.mint_account.key {
            Err(ErrorCode::InvalidMintAccount)
        } else if !self.claim_status.is_blank() {
            Err(ErrorCode::DropAlreadyClaimed)
        } else if self.from.key == self.to.key {
            Err(ErrorCode::OwnerMismatch)
        } else {
            Ok(())
        }
    }

    /// All guards of a claim, given whether the proof was accepted.
    pub open spec fn spec_check(self, accepted: bool) -> Result<(), ErrorCode> {
        if self.spec_precheck() is Err {
            self.spec_precheck()
        } else if !accepted {
            Err(ErrorCode::InvalidProof)
        } else if self.to.owner != self.receiver {
            Err(ErrorCode::OwnerMismatch)
        } else {
            Ok(())
        }
    }

    /// The receipt a successful claim writes.
    pub open spec fn spec_receipt(self, amount: u64, now: i64) -> ClaimStatus {
        ClaimStatus { is_claimed: true, receiver: self.receiver, claimed_at: now, amount }
    }

    /// The epoch after a successful claim of `amount`.
    pub open spec fn spec_epoch_after(self, amount: u64) -> EpochAccount {
        EpochAccount {
            total_amount_claimed: (self.epoch_account.total_amount_claimed + amount) as u64,
            num_nodes_claimed: (self.epoch_account.num_nodes_claimed + 1) as u64,
            ..self.epoch_account
        }
    }

    /// The payout a successful claim orders: from the escrow to the
    /// destination, signed by the epoch.
    pub open spec fn spec_payout(self, amount: u64) -> Transfer {
        Transfer {
            from: self.from.key,
            to: self.to.key,
            authority: Authority::Epoch {
                epoch_nr: self.epoch_account.epoch_nr,
                bump: self.epoch_account.bump,
            },
            amount,
        }
    }

    /// What a claim does, given whether the proof was accepted: either the
    /// rejection, or the state after it with the payout and the announcement.
    pub open spec fn spec_claim(self, index: u64, amount: u64, accepted: bool, now: i64) -> Result<
        (Claim, Transfer, ClaimedEvent),
        ErrorCode,
    > {
        match self.spec_check(accepted) {
            Err(code) => Err(code),
            Ok(_) => Ok(
                (
                    Claim {
                        claim_status: self.spec_receipt(amount, now),
                        epoch_account: self.spec_epoch_after(amount),
                        ..self
                    },
                    self.spec_payout(amount),
                    ClaimedEvent { index, receiver: self.receiver, amount },
                ),
            ),
        }
    }

    /// Whether the proof leads from the leaf `(index, receiver, amount)` to
    /// the epoch's root.
    pub open spec fn spec_proof_accepted(self, index: u64, amount: u64, proof: Seq<[u8; 32]>) -> bool {
        spec_verify(proof, self.epoch_account.hash, spec_leaf_hash(index, self.receiver, amount))
    }

    /// Tries the guards that do not depend on the proof.
    pub fn precheck(&self) -> (outcome: Result<(), ErrorCode>)
        ensures
            outcome == self.spec_precheck(),
    {
        self.rewards_account.require_not_paused()?;
        if !self.epoch_account.is_approved {
            return Err(ErrorCode::EpochShouldBeApproved);
        }
        if self.epoch_account.mint != self.mint_account.key {
            return Err(ErrorCode::InvalidMintAccount);
        }
        if self.claim_status.is_claimed || self.claim_status.claimed_at != 0 {
            return Err(ErrorCode::DropAlreadyClaimed);
        }
        if self.from.key == self.to.key {
            return Err(ErrorCode::OwnerMismatch);
        }
        Ok(())
    }

    /// Tries all guards of a claim, given whether the proof was accepted.
    pub fn check(&self, accepted: bool) -> (outcome: Result<(), ErrorCode>)
        ensures
            outcome == self.spec_check(accepted),
    {
        self.precheck()?;
        if !accepted {
            return Err(ErrorCode::InvalidProof);
        }
        if self.to.owner != self.receiver {
            return Err(ErrorCode::OwnerMismatch);
        }
        Ok(())
    }
}

/// Settles a claim whose proof has been judged: tries the guards and, if all
/// pass, writes the receipt, counts the payout in the epoch and returns the
/// transfer to carry out with the announcement. A rejected claim changes
/// nothing.
pub fn process_claim(ctx: &mut Claim, index: u64, amount: u64, accepted: bool, now: i64) -> (outcome:
    Result<(Transfer, ClaimedEvent), ErrorCode>)
    requires
        old(ctx).epoch_account.total_amount_claimed + amount <= u64::MAX,
        old(ctx).epoch_account.num_nodes_claimed < u64::MAX,
    ensures
        match old(ctx).spec_claim(index, amount, accepted, now) {
            Ok((after, payout, event)) => outcome == Ok::<(Transfer, ClaimedEvent), ErrorCode>(
                (payout, event),
            ) && *final(ctx) == after,
            Err(code) => outcome == Err::<(Transfer, ClaimedEvent), ErrorCode>(code) && *final(ctx)
                == *old(ctx),
        },
{
    ctx.check(accepted)?;
    ctx.claim_status.amount = amount;
    ctx.claim_status.is_claimed = true;
    ctx.claim_status.claimed_at = now;
    ctx.claim_status.receiver = ctx.receiver;
    let payout = Transfer {
        from: ctx.from.key,
        to: ctx.to.key,
        authority: Authority::Epoch {
            epoch_nr: ctx.epoch_account.epoch_nr,
            bump: ctx.epoch_account.bump,
        },
        amount,
    };
    ctx.epoch_account.total_amount_claimed = ctx.epoch_account.total_amount_claimed + amount;
    ctx.epoch_account.num_nodes_claimed = ctx.epoch_account.num_nodes_claimed + 1;
    Ok((payout, ClaimedEvent { index, receiver: ctx.receiver, amount }))
}

/// Pays out the entitlement `(index, receiver, amount)` of the epoch if
/// `proof` leads from it to the epoch's root and every guard passes.
///
/// The guards are tried in this order: the program is active; the epoch is
/// approved; the mint is the epoch's; the receipt is blank; source and
/// destination differ; the proof is accepted; the destination belongs to the
/// receiver. `now` is the time written into the receipt.
pub fn claim_handler(ctx: &mut Claim, index: u64, amount: u64, proof: Vec<[u8; 32]>, now: i64) -> (outcome:
    Result<(Transfer, ClaimedEvent), ErrorCode>)
    requires
        old(ctx).epoch_account.total_amount_claimed + amount <= u64::MAX,
        old(ctx).epoch_account.num_nodes_claimed < u64::MAX,
    ensures
        match old(ctx).spec_claim(
            index,
            amount,
            old(ctx).spec_proof_accepted(index, amount, proof@),
            now,
        ) {
            Ok((after, payout, event)) => outcome == Ok::<(Transfer, ClaimedEvent), ErrorCode>(
                (payout, event),
            ) && *final(ctx) == after,
            Err(code) => outcome == Err::<(Transfer, ClaimedEvent), ErrorCode>(code) && *final(ctx)
                == *old(ctx),
        },
{
    let accepted = match ctx.precheck() {
        Ok(_) => {
            let node = leaf_hash(index, &ctx.receiver, amount);
            verify(proof, ctx.epoch_account.hash, node)
        },
        Err(_) => false,
    };
    process_claim(ctx, index, amount, accepted, now)
}

} // verus!
