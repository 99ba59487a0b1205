//! The engine as a whole, as a mathematical state: the governance singleton,
//! the epochs in order, and for each epoch its escrow and its receipts. Each
//! operation is a function from the state before to the outcome: a rejection,
//! which leaves the state as it was, or the state after with what the
//! operation returns.
use vstd::prelude::*;
use vstd::set::fold::{is_fun_commutative, lemma_fold_empty, lemma_fold_insert};
use crate::errors::{ClaimError, ErrorCode};
use crate::events::{
    AgentChanged, ClaimedEvent, EpochApproved, EpochCorrected, EpochCreated, Initialized,
    ManagerUpdated, NewProposedManager, Paused,
};
use crate::instructions::accept_manager::AcceptManager;
use crate::instructions::add_epoch::AddEpoch;
use crate::instructions::approve_epoch::ApproveEpoch;
use crate::instructions::change_agent::ChangeAgent;
use crate::instructions::claim::Claim;
use crate::instructions::correct_epoch::CorrectEpoch;
use crate::instructions::initialize::Initialize;
use crate::instructions::pause::Pause;
use crate::instructions::propose_manager::ProposeManager;
use crate::instructions::unpause::UnPause;
use crate::pubkey::Pubkey;
use crate::state::{ClaimStatus, EpochAccount, Mint, RewardsAccount, TokenAccount, Transfer};

verus! {

/// The function that adds the amount of the receipt at an index to a sum.
pub open spec fn add_receipt(claims: Map<u64, ClaimStatus>) -> spec_fn(nat, u64) -> nat {
    |sum: nat, index: u64| (sum + claims[index].amount) as nat
}

/// The sum of the amounts of all receipts.
pub open spec fn receipts_total(claims: Map<u64, ClaimStatus>) -> nat {
    claims.dom().fold(0nat, add_receipt(claims))
}

/// The sum over a set of indices depends only on the receipts at those
/// indices.
proof fn lemma_total_agrees(
    indices: Set<u64>,
    claims: Map<u64, ClaimStatus>,
    others: Map<u64, ClaimStatus>,
)
    requires
        indices.finite(),
        forall|index: u64| indices.contains(index) ==> claims[index].amount == others[index].amount,
    ensures
        indices.fold(0nat, add_receipt(claims)) == indices.fold(0nat, add_receipt(others)),
    decreases indices.len(),
{
    if indices.is_empty() {
        lemma_fold_empty(0nat, add_receipt(claims));
        lemma_fold_empty(0nat, add_receipt(others));
    } else {
        let index = indices.choose();
        let rest = indices.remove(index);
        lemma_total_agrees(rest, claims, others);
        lemma_fold_insert(rest, 0nat, add_receipt(claims), index);
        lemma_fold_insert(rest, 0nat, add_receipt(others), index);
    }
}

/// Without receipts nothing has been paid out.
pub proof fn lemma_receipts_total_empty()
    ensures
        receipts_total(Map::<u64, ClaimStatus>::empty()) == 0,
{
    let empty = Map::<u64, ClaimStatus>::empty();
    lemma_fold_empty(0nat, add_receipt(empty));
}

/// A new receipt adds its amount to the sum.
pub proof fn lemma_receipts_total_insert(
    claims: Map<u64, ClaimStatus>,
    index: u64,
    receipt: ClaimStatus,
)
    requires
        claims.dom().finite(),
        !claims.contains_key(index),
    ensures
        receipts_total(claims.insert(index, receipt)) == receipts_total(claims) + receipt.amount,
{
    let after = claims.insert(index, receipt);
    lemma_fold_insert(claims.dom(), 0nat, add_receipt(after), index);
    lemma_total_agrees(claims.dom(), after, claims);
}

/// One epoch of the ledger.
pub struct EpochState {
    /// The epoch's record.
    pub account: EpochAccount,
    /// The epoch's escrow; the default account while the epoch is a draft.
    pub escrow: TokenAccount,
    /// What approval moved into the escrow; zero while the epoch is a draft.
    pub funded: u64,
    /// The receipts of the epoch, by leaf index.
    pub claims: Map<u64, ClaimStatus>,
}

impl EpochState {
    /// A draft epoch: not funded, nothing claimed.
    pub open spec fn draft(account: EpochAccount) -> EpochState {
        EpochState {
            account,
            escrow: TokenAccount::spec_default(),
            funded: 0,
            claims: Map::empty(),
        }
    }

    /// What the escrow still holds: the funding less what has been paid out.
    pub open spec fn remaining(self) -> int {
        self.funded - self.account.total_amount_claimed
    }

    /// The receipt found at `index`, blank if there is none.
    pub open spec fn receipt(self, index: u64) -> ClaimStatus {
        if self.claims.contains_key(index) {
            self.claims[index]
        } else {
            ClaimStatus::spec_default()
        }
    }

    /// What always holds of the epoch with number `epoch_nr` in a ledger whose
    /// newest approved epoch is `approved`.
    pub open spec fn wf(self, epoch_nr: int, approved: u64) -> bool {
        &&& self.account.epoch_nr == epoch_nr
        &&& self.account.is_approved == (epoch_nr <= approved)
        &&& self.account.total_amount_claimed <= self.funded
        &&& self.claims.dom().finite()
        &&& self.account.total_amount_claimed == receipts_total(self.claims)
        &&& self.account.num_nodes_claimed == self.claims.dom().len()
        &&& forall|index: u64| #[trigger]
            self.claims.contains_key(index) ==> self.claims[index].is_claimed
        &&& !self.account.is_approved ==> self.funded == 0 && self.claims == Map::<
            u64,
            ClaimStatus,
        >::empty()
    }
}

/// The whole ledger.
pub struct LedgerState {
    /// The governance singleton.
    pub rewards_account: RewardsAccount,
    /// The epochs; the epoch with number `n` stands at position `n - 1`.
    pub epochs: Seq<EpochState>,
}

impl LedgerState {
    /// What always holds of a ledger: the epochs are numbered from one without
    /// gaps up to the current epoch, exactly those up to the newest approved
    /// one are approved, and each epoch has paid out the sum of its receipts,
    /// which is no more than it was funded with.
    pub open spec fn wf(self) -> bool {
        &&& self.rewards_account.wf()
        &&& self.epochs.len() == self.rewards_account.current_epoch_nr
        &&& forall|i: int|
            0 <= i < self.epochs.len() ==> (#[trigger] self.epochs[i]).wf(
                i + 1,
                self.rewards_account.current_approved_epoch,
            )
    }

    /// Whether the ledger has an epoch with this number.
    pub open spec fn has_epoch(self, epoch_nr: u64) -> bool {
        1 <= epoch_nr <= self.epochs.len()
    }

    /// The epoch with this number.
    pub open spec fn epoch(self, epoch_nr: u64) -> EpochState
        recommends
            self.has_epoch(epoch_nr),
    {
        self.epochs[epoch_nr - 1]
    }

    /// The record of the epoch with this number, the default record if there
    /// is no such epoch.
    pub open spec fn epoch_account(self, epoch_nr: u64) -> EpochAccount {
        if self.has_epoch(epoch_nr) {
            self.epoch(epoch_nr).account
        } else {
            EpochAccount::spec_default()
        }
    }

    /// Whether the entitlement `index` of the epoch `epoch_nr` has a receipt.
    pub open spec fn is_claimed(self, epoch_nr: u64, index: u64) -> bool {
        self.has_epoch(epoch_nr) && self.epoch(epoch_nr).claims.contains_key(index)
    }

    /// The ledger with another governance singleton.
    pub open spec fn with_rewards_account(self, rewards_account: RewardsAccount) -> LedgerState {
        LedgerState { rewards_account, ..self }
    }

    /// The ledger with the epoch `epoch_nr` replaced.
    pub open spec fn with_epoch(self, epoch_nr: u64, epoch: EpochState) -> LedgerState {
        LedgerState { epochs: self.epochs.update(epoch_nr - 1, epoch), ..self }
    }

    /// The ledger right after initialization by `manager` with `agent`.
    pub open spec fn spec_initialize(manager: Pubkey, agent: Pubkey) -> (LedgerState, Initialized) {
        (
            LedgerState {
                rewards_account: (Initialize {
                    manager,
                    rewards_account: RewardsAccount::spec_default(),
                }).spec_singleton(agent),
                epochs: Seq::empty(),
            },
            Initialized { manager, agent, current_epoch_nr: 0 },
        )
    }

    /// `caller` proposes `proposed_manager` for the manager role.
    pub open spec fn spec_propose_manager(self, caller: Pubkey, proposed_manager: Pubkey) -> Result<
        (LedgerState, NewProposedManager),
        ErrorCode,
    > {
        match (ProposeManager { manager: caller, rewards_account: self.rewards_account }).spec_propose(
            proposed_manager,
        ) {
            Ok((after, event)) => Ok((self.with_rewards_account(after.rewards_account), event)),
            Err(code) => Err(code),
        }
    }

    /// `caller` accepts the manager role.
    pub open spec fn spec_accept_manager(self, caller: Pubkey) -> Result<
        (LedgerState, ManagerUpdated),
        ErrorCode,
    > {
        match (AcceptManager {
            proposed_manager: caller,
            rewards_account: self.rewards_account,
        }).spec_accept() {
            Ok((after, event)) => Ok((self.with_rewards_account(after.rewards_account), event)),
            Err(code) => Err(code),
        }
    }

    /// `caller` makes `new_agent` the agent.
    pub open spec fn spec_change_agent(self, caller: Pubkey, new_agent: Pubkey) -> Result<
        (LedgerState, AgentChanged),
        ErrorCode,
    > {
        match (ChangeAgent { manager: caller, rewards_account: self.rewards_account }).spec_change(
            new_agent,
        ) {
            Ok((after, event)) => Ok((self.with_rewards_account(after.rewards_account), event)),
            Err(code) => Err(code),
        }
    }

    /// `caller` pauses the program.
    pub open spec fn spec_pause(self, caller: Pubkey) -> Result<(LedgerState, Paused), ErrorCode> {
        match (Pause { manager: caller, rewards_account: self.rewards_account }).spec_pause() {
            Ok((after, event)) => Ok((self.with_rewards_account(after.rewards_account), event)),
            Err(code) => Err(code),
        }
    }

    /// `caller` takes the program out of its pause.
    pub open spec fn spec_unpause(self, caller: Pubkey) -> Result<(LedgerState, Paused), ErrorCode> {
        match (UnPause { manager: caller, rewards_account: self.rewards_account }).spec_unpause() {
            Ok((after, event)) => Ok((self.with_rewards_account(after.rewards_account), event)),
            Err(code) => Err(code),
        }
    }

    /// `caller` creates the next epoch as a draft.
    pub open spec fn spec_add_epoch(
        self,
        caller: Pubkey,
        mint: Mint,
        bump: u8,
        root: [u8; 32],
        now: i64,
    ) -> Result<(LedgerState, EpochCreated), ErrorCode> {
        match (AddEpoch {
            rewards_account: self.rewards_account,
            current_epoch_account: EpochAccount::spec_default(),
            mint,
            agent: caller,
        }).spec_add_epoch(bump, root, now) {
            Ok((after, event)) => Ok(
                (
                    LedgerState {
                        rewards_account: after.rewards_account,
                        epochs: self.epochs.push(EpochState::draft(after.current_epoch_account)),
                    },
                    event,
                ),
            ),
            Err(code) => Err(code),
        }
    }

    /// `caller` corrects the root and the mint of the draft epoch `epoch_nr`.
    pub open spec fn spec_correct_epoch(
        self,
        caller: Pubkey,
        mint: Mint,
        epoch_nr: u64,
        root: [u8; 32],
    ) -> Result<(LedgerState, EpochCorrected), ErrorCode> {
        match (CorrectEpoch {
            rewards_account: self.rewards_account,
            epoch_account: self.epoch_account(epoch_nr),
            mint,
            agent: caller,
        }).spec_correct(epoch_nr, root) {
            Ok((after, event)) => Ok(
                (
                    self.with_epoch(
                        epoch_nr,
                        EpochState { account: after.epoch_account, ..self.epoch(epoch_nr) },
                    ),
                    event,
                ),
            ),
            Err(code) => Err(code),
        }
    }

    /// `caller` approves the epoch `epoch_nr` and funds its escrow
    /// `epoch_token_account` with `amount` whole tokens from
    /// `manager_token_account`.
    pub open spec fn spec_approve_epoch(
        self,
        caller: Pubkey,
        mint_account: Mint,
        manager_token_account: TokenAccount,
        epoch_token_account: TokenAccount,
        epoch_nr: u64,
        amount: u64,
    ) -> Result<(LedgerState, Transfer, EpochApproved), ErrorCode> {
        match (ApproveEpoch {
            rewards_account: self.rewards_account,
            epoch_account: self.epoch_account(epoch_nr),
            manager: caller,
            epoch_token_account,
            manager_token_account,
            mint_account,
        }).spec_approve(epoch_nr, amount) {
            Ok((after, funding, event)) => Ok(
                (
                    self.with_rewards_account(after.rewards_account).with_epoch(
                        epoch_nr,
                        EpochState {
                            account: after.epoch_account,
                            escrow: epoch_token_account,
                            funded: funding.amount,
                            ..self.epoch(epoch_nr)
                        },
                    ),
                    funding,
                    event,
                ),
            ),
            Err(code) => Err(code),
        }
    }

    /// The records a claim of the entitlement `index` of the epoch `epoch_nr`
    /// works on.
    pub open spec fn claim_context(
        self,
        receiver: Pubkey,
        to: TokenAccount,
        mint_account: Mint,
        epoch_nr: u64,
        index: u64,
    ) -> Claim {
        Claim {
            rewards_account: self.rewards_account,
            epoch_account: self.epoch(epoch_nr).account,
            claim_status: self.epoch(epoch_nr).receipt(index),
            from: self.epoch(epoch_nr).escrow,
            to,
            receiver,
            mint_account,
        }
    }

    /// `receiver` claims `amount` for the entitlement `index` of the epoch
    /// `epoch_nr`, to be paid to `to`, and the proof was judged `accepted`.
    ///
    /// The program must be active and the epoch must exist; then the guards
    /// of a claim are tried; at last the escrow must hold the amount.
    pub open spec fn spec_settle_claim(
        self,
        receiver: Pubkey,
        to: TokenAccount,
        mint_account: Mint,
        epoch_nr: u64,
        index: u64,
        amount: u64,
        accepted: bool,
        now: i64,
    ) -> Result<(LedgerState, Transfer, ClaimedEvent), ClaimError> {
        let ctx = self.claim_context(receiver, to, mint_account, epoch_nr, index);
        if self.rewards_account.is_paused {
            Err(ClaimError::Rejected(ErrorCode::ShouldNotBePaused))
        } else if !self.has_epoch(epoch_nr) {
            Err(ClaimError::Rejected(ErrorCode::InvalidEpochNr))
        } else {
            match ctx.spec_check(accepted) {
                Err(code) => Err(ClaimError::Rejected(code)),
                Ok(_) => if amount > self.epoch(epoch_nr).remaining() {
                    Err(ClaimError::InsufficientFunds)
                } else {
                    Ok(
                        (
                            self.with_epoch(
                                epoch_nr,
                                EpochState {
                                    account: ctx.spec_epoch_after(amount),
                                    claims: self.epoch(epoch_nr).claims.insert(
                                        index,
                                        ctx.spec_receipt(amount, now),
                                    ),
                                    ..self.epoch(epoch_nr)
                                },
                            ),
                            ctx.spec_payout(amount),
                            ClaimedEvent { index, receiver, amount },
                        ),
                    )
                },
            }
        }
    }

    /// `receiver` claims `amount` for the entitlement `index` of the epoch
    /// `epoch_nr` with `proof`, to be paid to `to`.
    pub open spec fn spec_claim(
        self,
        receiver: Pubkey,
        to: TokenAccount,
        mint_account: Mint,
        epoch_nr: u64,
        index: u64,
        amount: u64,
        proof: Seq<[u8; 32]>,
        now: i64,
    ) -> Result<(LedgerState, Transfer, ClaimedEvent), ClaimError> {
        self.spec_settle_claim(
            receiver,
            to,
            mint_account,
            epoch_nr,
            index,
            amount,
            self.claim_context(receiver, to, mint_account, epoch_nr, index).spec_proof_accepted(
                index,
                amount,
                proof,
            ),
            now,
        )
    }
}

} // verus!
