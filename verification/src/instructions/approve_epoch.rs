//! Approving and funding the current draft epoch: the one step that cannot
//! be undone.
use vstd::prelude::*;
use vstd::arithmetic::power::{lemma_pow_increases, pow};
use crate::errors::ErrorCode;
use crate::events::EpochApproved;
use crate::pubkey::Pubkey;
use crate::state::{Authority, EpochAccount, Mint, RewardsAccount, TokenAccount, Transfer};

verus! {

/// What an approval works on.
#[derive(Clone, Copy, Debug, PartialEq, Eq)]
pub struct ApproveEpoch {
    /// The governance singleton.
    pub rewards_account: RewardsAccount,
    /// The epoch to approve.
    pub epoch_account: EpochAccount,
    /// Who approves; the caller.
    pub manager: Pubkey,
    /// The epoch's escrow, which receives the funding.
    pub epoch_token_account: TokenAccount,
    /// The manager's token account, which pays the funding.
    pub manager_token_account: TokenAccount,
    /// The mint the caller funds the epoch in.
    pub mint_account: Mint,
}

/// `amount` whole tokens in the smallest unit of a token with `decimals`
/// decimal places.
pub open spec fn spec_scale(amount: u64, decimals: u8) -> int {
    amount * pow(10, decimals as nat)
}

/// Whether `amount` whole tokens of a token with `decimals` decimal places can
/// be written in its smallest unit.
pub open spec fn spec_scalable(amount: u64, decimals: u8) -> bool {
    pow(10, decimals as nat) <= u64::MAX && spec_scale(amount, decimals) <= u64::MAX
}

impl ApproveEpoch {
    /// The guards of an approval, in the order in which they are tried.
    pub open spec fn spec_check(self, epoch_nr: u64) -> Result<(), ErrorCode> {
        if self.manager != self.rewards_account.manager {
            Err(ErrorCode::Unauthorized)
        } else if self.rewards_account.is_paused {
            Err(ErrorCode::ShouldNotBePaused)
        } else if epoch_nr == 0 || epoch_nr != self.rewards_account.current_epoch_nr
            || epoch_nr != self.epoch_account.epoch_nr {
            Err(ErrorCode::InvalidEpochNr)
        } else if self.epoch_account.is_approved {
            Err(ErrorCode::EpochShouldNotBeApproved)
        } else if self.epoch_account.mint != self.mint_account.key {
            Err(ErrorCode::InvalidMintAccount)
        } else {
            Ok(())
        }
    }

    /// The funding a successful approval orders: from the manager to the
    /// escrow, signed by the manager.
    pub open spec fn spec_funding(self, amount: u64) -> Transfer {
        Transfer {
            from: self.manager_token_account.key,
            to: self.epoch_token_account.key,
            authority: Authority::Signer { key: self.manager },
            amount: spec_scale(amount, self.mint_account.decimals) as u64,
        }
    }

    /// What an approval does: either the rejection, or the state after it with
    /// the funding and the announcement.
    pub open spec fn spec_approve(self, epoch_nr: u64, amount: u64) -> Result<
        (ApproveEpoch, Transfer, EpochApproved),
        ErrorCode,
    > {
        match self.spec_check(epoch_nr) {
            Err(code) => Err(code),
            Ok(_) => Ok(
                (
                    ApproveEpoch {
                        rewards_account: RewardsAccount {
                            current_approved_epoch: epoch_nr,
                            ..self.rewards_account
                        },
                        epoch_account: EpochAccount { is_approved: true, ..self.epoch_account },
                        ..self
                    },
                    self.spec_funding(amount),
                    EpochApproved { epoch_nr },
                ),
            ),
        }
    }

    /// Tries the guards of an approval.
    pub fn check(&self, epoch_nr: u64) -> (outcome: Result<(), ErrorCode>)
        ensures
            outcome == self.spec_check(epoch_nr),
    {
        RewardsAccount::require_authority(&self.rewards_account.manager, &self.manager)?;
        self.rewards_account.require_not_paused()?;
        if epoch_nr == 0 || epoch_nr != self.rewards_account.current_epoch_nr || epoch_nr
            != self.epoch_account.epoch_nr {
            return Err(ErrorCode::InvalidEpochNr);
        }
        if self.epoch_account.is_approved {
            return Err(ErrorCode::EpochShouldNotBeApproved);
        }
        if self.epoch_account.mint != self.mint_account.key {
            return Err(ErrorCode::InvalidMintAccount);
        }
        Ok(())
    }
}

/// Ten to the power `decimals`.
pub fn pow10(decimals: u8) -> (unit: u64)
    requires
        pow(10, decimals as nat) <= u64::MAX,
    ensures
        unit == pow(10, decimals as nat),
{
    let mut unit: u64 = 1;
    let mut i: u8 = 0;
    assert(pow(10, 0) == 1) by {
        reveal(pow);
    }
    while i < decimals
        invariant
            i <= decimals,
            unit == pow(10, i as nat),
            pow(10, decimals as nat) <= u64::MAX,
        decreases decimals - i,
    {
        proof {
            lemma_pow_increases(10, (i + 1) as nat, decimals as nat);
            assert(pow(10, (i + 1) as nat) == 10 * pow(10, i as nat)) by {
                reveal(pow);
            }
        }
        unit = unit * 10;
        i += 1;
    }
    unit
}

/// `amount` whole tokens in the smallest unit of a token with `decimals`
/// decimal places.
pub fn scale_amount(amount: u64, decimals: u8) -> (scaled: u64)
    requires
        spec_scalable(amount, decimals),
    ensures
        scaled == spec_scale(amount, decimals),
{
    amount * pow10(decimals)
}

/// Whether `amount` whole tokens of a token with `decimals` decimal places can
/// be written in its smallest unit.
pub fn scalable(amount: u64, decimals: u8) -> (fits: bool)
    ensures
        fits == spec_scalable(amount, decimals),
{
    if decimals > 19 {
        proof {
            lemma_pow_increases(10, 20, decimals as nat);
            lemma_pow10_20();
        }
        return false;
    }
    proof {
        lemma_pow_increases(10, decimals as nat, 19);
        lemma_pow10_19();
    }
    let unit = pow10(decimals);
    match amount.checked_mul(unit) {
        Some(_) => true,
        None => false,
    }
}

/// Ten to the nineteenth still fits in sixty-four bits.
proof fn lemma_pow10_19()
    ensures
        pow(10, 19) == 10_000_000_000_000_000_000int,
{
    reveal_with_fuel(pow, 20);
}

/// Ten to the twentieth no longer fits in sixty-four bits.
proof fn lemma_pow10_20()
    ensures
        pow(10, 20) > u64::MAX,
{
    lemma_pow10_19();
    assert(pow(10, 20) == 10 * pow(10, 19)) by {
        reveal(pow);
    }
}

/// Approves the current draft epoch and orders its funding: `amount` whole
/// tokens, scaled by the mint's decimals, from the manager to the epoch's
/// escrow.
///
/// The guards are tried in this order: the caller is the manager; the program
/// is active; `epoch_nr` names the current epoch and the epoch given; the
/// epoch is still a draft; the mint is the epoch's. A rejected approval
/// changes nothing.
pub fn approve_epoch_handler(ctx: &mut ApproveEpoch, epoch_nr: u64, amount: u64) -> (outcome: Result<
    (Transfer, EpochApproved),
    ErrorCode,
>)
    requires
        spec_scalable(amount, old(ctx).mint_account.decimals),
    ensures
        match old(ctx).spec_approve(epoch_nr, amount) {
            Ok((after, funding, event)) => outcome == Ok::<(Transfer, EpochApproved), ErrorCode>(
                (funding, event),
            ) && *final(ctx) == after,
            Err(code) => outcome == Err::<(Transfer, EpochApproved), ErrorCode>(code) && *final(ctx)
                == *old(ctx),
        },
{
    ctx.check(epoch_nr)?;
    ctx.rewards_account.current_approved_epoch = epoch_nr;
    ctx.epoch_account.is_approved = true;
    let funding = Transfer {
        from: ctx.manager_token_account.key,
        to: ctx.epoch_token_account.key,
        authority: Authority::Signer { key: ctx.manager },
        amount: scale_amount(amount, ctx.mint_account.decimals),
    };
    Ok((funding, EpochApproved { epoch_nr }))
}

} // verus!
