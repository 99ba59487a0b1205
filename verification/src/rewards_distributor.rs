//! The engine as one object. A ledger is created once by `initialize`, holds the
//! governance singleton, the epochs and their receipts, and changes only
//! through the operations of this module. Each operation finds the records it
//! concerns, runs the instruction on them and stores what it wrote.
use std::collections::HashMap;
use vstd::prelude::*;
use crate::errors::{ClaimError, ErrorCode};
use crate::events::{
    AgentChanged, ClaimedEvent, EpochApproved, EpochCorrected, EpochCreated, Initialized,
    ManagerUpdated, NewProposedManager, Paused,
};
use crate::instructions::accept_manager::{accept_manager_handler, AcceptManager};
use crate::instructions::add_epoch::{add_epoch_handler, AddEpoch};
use crate::instructions::approve_epoch::{approve_epoch_handler, spec_scalable, ApproveEpoch};
use crate::instructions::change_agent::{change_agent_handler, ChangeAgent};
use crate::instructions::claim::{process_claim, Claim};
use crate::instructions::correct_epoch::{correct_epoch_handler, CorrectEpoch};
use crate::instructions::initialize::{initialize_handler, Initialize};
use crate::instructions::pause::{pause_handler, Pause};
use crate::instructions::propose_manager::{propose_manager_handler, ProposeManager};
use crate::instructions::unpause::{unpause_handler, UnPause};
use crate::ledger::{
    lemma_receipts_total_empty, lemma_receipts_total_insert, EpochState, LedgerState,
};
use crate::merkle_proof::{leaf_hash, verify};
use crate::pubkey::Pubkey;
use crate::state::{ClaimStatus, EpochAccount, Mint, RewardsAccount, TokenAccount, Transfer};

verus! {

/// One epoch as the ledger stores it.
struct EpochEntry {
    account: EpochAccount,
    escrow: TokenAccount,
    funded: u64,
    claims: HashMap<u64, ClaimStatus>,
}

impl View for EpochEntry {
    type V = EpochState;

    closed spec fn view(&self) -> EpochState {
        EpochState {
            account: self.account,
            escrow: self.escrow,
            funded: self.funded,
            claims: self.claims@,
        }
    }
}

/// The engine's state: the governance singleton and the epochs with their
/// escrows and receipts.
pub struct Ledger {
    rewards_account: RewardsAccount,
    epochs: Vec<EpochEntry>,
}

impl View for Ledger {
    type V = LedgerState;

    closed spec fn view(&self) -> LedgerState {
        LedgerState {
            rewards_account: self.rewards_account,
            epochs: self.epochs@.map_values(|entry: EpochEntry| entry@),
        }
    }
}

impl Ledger {
    /// What always holds of a ledger; see `LedgerState::wf`.
    pub open spec fn wf(&self) -> bool {
        self@.wf()
    }

    /// The governance singleton.
    pub fn rewards_account(&self) -> (account: RewardsAccount)
        ensures
            account == self@.rewards_account,
    {
        self.rewards_account
    }

    /// The position of the epoch `epoch_nr`, if the ledger has it.
    fn position(&self, epoch_nr: u64) -> (position: Option<usize>)
        ensures
            match position {
                Some(i) => self@.has_epoch(epoch_nr) && i == epoch_nr - 1 && i < self.epochs.len(),
                None => !self@.has_epoch(epoch_nr),
            },
    {
        if epoch_nr == 0 || epoch_nr > self.epochs.len() as u64 {
            None
        } else {
            Some((epoch_nr - 1) as usize)
        }
    }

    /// The record of the epoch `epoch_nr`, if the ledger has it.
    pub fn epoch_account(&self, epoch_nr: u64) -> (account: Option<EpochAccount>)
        ensures
            account == (if self@.has_epoch(epoch_nr) {
                Some(self@.epoch(epoch_nr).account)
            } else {
                None
            }),
    {
        match self.position(epoch_nr) {
            Some(i) => Some(self.epochs[i].account),
            None => None,
        }
    }

    /// What approval moved into the escrow of the epoch `epoch_nr`, if the
    /// ledger has it.
    pub fn funded(&self, epoch_nr: u64) -> (funded: Option<u64>)
        ensures
            funded == (if self@.has_epoch(epoch_nr) {
                Some(self@.epoch(epoch_nr).funded)
            } else {
                None
            }),
    {
        match self.position(epoch_nr) {
            Some(i) => Some(self.epochs[i].funded),
            None => None,
        }
    }

    /// What the escrow of the epoch `epoch_nr` still holds, if the ledger has
    /// it.
    pub fn escrow_balance(&self, epoch_nr: u64) -> (balance: Option<u64>)
        requires
            self.wf(),
        ensures
            match balance {
                Some(amount) => self@.has_epoch(epoch_nr) && amount == self@.epoch(
                    epoch_nr,
                ).remaining(),
                None => !self@.has_epoch(epoch_nr),
            },
    {
        match self.position(epoch_nr) {
            Some(i) => {
                assert(self@.epochs[i as int].wf(
                    i + 1,
                    self@.rewards_account.current_approved_epoch,
                ));
                Some(self.epochs[i].funded - self.epochs[i].account.total_amount_claimed)
            },
            None => None,
        }
    }

    /// The receipt of the entitlement `index` of the epoch `epoch_nr`, if it
    /// has been claimed.
    pub fn claim_status(&self, epoch_nr: u64, index: u64) -> (status: Option<ClaimStatus>)
        ensures
            status == (if self@.is_claimed(epoch_nr, index) {
                Some(self@.epoch(epoch_nr).claims[index])
            } else {
                None
            }),
    {
        match self.position(epoch_nr) {
            Some(i) => match self.epochs[i].claims.get(&index) {
                Some(status) => Some(*status),
                None => None,
            },
            None => None,
        }
    }
}

/// Creates the ledger in an empty deployment: `manager` manages, `agent` is
/// the agent, no epoch exists and the program is active.
///
/// A deployment holds at most one ledger. If it holds one already, nothing is
/// created, the deployment stays as it is, and the answer is `None`.
pub fn initialize(deployment: &mut Option<Ledger>, manager: Pubkey, agent: Pubkey) -> (outcome:
    Option<Initialized>)
    ensures
        match *old(deployment) {
            Some(_) => outcome is None && *final(deployment) == *old(deployment),
            None => {
                &&& outcome == Some(LedgerState::spec_initialize(manager, agent).1)
                &&& *final(deployment) matches Some(ledger)
                &&& ledger.wf()
                &&& ledger@ == LedgerState::spec_initialize(manager, agent).0
            },
        },
{
    if deployment.is_some() {
        return None;
    }
    let mut ctx = Initialize { manager, rewards_account: RewardsAccount::default() };
    let event = match initialize_handler(&mut ctx, agent) {
        Ok(event) => event,
        Err(_) => Initialized { manager, agent, current_epoch_nr: 0 },
    };
    let ledger = Ledger { rewards_account: ctx.rewards_account, epochs: Vec::new() };
    assert(ledger@.epochs =~= Seq::empty());
    *deployment = Some(ledger);
    Some(event)
}

/// `caller` proposes `proposed_manager` for the manager role.
///
/// Rejected with `Unauthorized` unless the caller is the manager, then with
/// `ShouldNotBePaused` if the program is paused.
pub fn propose_manager(ledger: &mut Ledger, caller: Pubkey, proposed_manager: Pubkey) -> (outcome:
    Result<NewProposedManager, ErrorCode>)
    requires
        old(ledger).wf(),
    ensures
        final(ledger).wf(),
        match old(ledger)@.spec_propose_manager(caller, proposed_manager) {
            Ok((after, event)) => outcome == Ok::<NewProposedManager, ErrorCode>(event) && final(ledger)@ == after,
            Err(code) => outcome == Err::<NewProposedManager, ErrorCode>(code) && final(ledger)@
                == old(ledger)@,
        },
{
    let mut ctx = ProposeManager { manager: caller, rewards_account: ledger.rewards_account };
    let event = propose_manager_handler(&mut ctx, proposed_manager)?;
    ledger.rewards_account = ctx.rewards_account;
    Ok(event)
}

/// `caller` accepts the manager role.
///
/// Rejected with `Unauthorized` unless the caller is the proposed manager,
/// then with `ShouldNotBePaused` if the program is paused.
pub fn accept_manager(ledger: &mut Ledger, caller: Pubkey) -> (outcome: Result<
    ManagerUpdated,
    ErrorCode,
>)
    requires
        old(ledger).wf(),
    ensures
        final(ledger).wf(),
        match old(ledger)@.spec_accept_manager(caller) {
            Ok((after, event)) => outcome == Ok::<ManagerUpdated, ErrorCode>(event) && final(ledger)@ == after,
            Err(code) => outcome == Err::<ManagerUpdated, ErrorCode>(code) && final(ledger)@
                == old(ledger)@,
        },
{
    let mut ctx = AcceptManager { proposed_manager: caller, rewards_account: ledger.rewards_account };
    let event = accept_manager_handler(&mut ctx)?;
    ledger.rewards_account = ctx.rewards_account;
    Ok(event)
}

/// `caller` makes `new_agent` the agent.
///
/// Rejected with `Unauthorized` unless the caller is the manager, then with
/// `ShouldNotBePaused` if the program is paused.
pub fn change_agent(ledger: &mut Ledger, caller: Pubkey, new_agent: Pubkey) -> (outcome: Result<
    AgentChanged,
    ErrorCode,
>)
    requires
        old(ledger).wf(),
    ensures
        final(ledger).wf(),
        match old(ledger)@.spec_change_agent(caller, new_agent) {
            Ok((after, event)) => outcome == Ok::<AgentChanged, ErrorCode>(event) && final(ledger)@
                == after,
            Err(code) => outcome == Err::<AgentChanged, ErrorCode>(code) && final(ledger)@ == old(ledger)@,
        },
{
    let mut ctx = ChangeAgent { manager: caller, rewards_account: ledger.rewards_account };
    let event = change_agent_handler(&mut ctx, new_agent)?;
    ledger.rewards_account = ctx.rewards_account;
    Ok(event)
}

/// `caller` pauses the program.
///
/// Rejected with `Unauthorized` unless the caller is the manager, then with
/// `ShouldNotBePaused` if the program is paused already.
pub fn pause(ledger: &mut Ledger, caller: Pubkey) -> (outcome: Result<Paused, ErrorCode>)
    requires
        old(ledger).wf(),
    ensures
        final(ledger).wf(),
        match old(ledger)@.spec_pause(caller) {
            Ok((after, event)) => outcome == Ok::<Paused, ErrorCode>(event) && final(ledger)@
                == after,
            Err(code) => outcome == Err::<Paused, ErrorCode>(code) && final(ledger)@ == old(ledger)@,
        },
{
    let mut ctx = Pause { manager: caller, rewards_account: ledger.rewards_account };
    let event = pause_handler(&mut ctx)?;
    ledger.rewards_account = ctx.rewards_account;
    Ok(event)
}

/// `caller` takes the program out of its pause.
///
/// Rejected with `Unauthorized` unless the caller is the manager, then with
/// `ShouldBePaused` if the program is not paused.
pub fn unpause(ledger: &mut Ledger, caller: Pubkey) -> (outcome: Result<Paused, ErrorCode>)
    requires
        old(ledger).wf(),
    ensures
        final(ledger).wf(),
        match old(ledger)@.spec_unpause(caller) {
            Ok((after, event)) => outcome == Ok::<Paused, ErrorCode>(event) && final(ledger)@
                == after,
            Err(code) => outcome == Err::<Paused, ErrorCode>(code) && final(ledger)@ == old(ledger)@,
        },
{
    let mut ctx = UnPause { manager: caller, rewards_account: ledger.rewards_account };
    let event = unpause_handler(&mut ctx)?;
    ledger.rewards_account = ctx.rewards_account;
    Ok(event)
}

/// `caller` creates the next epoch as a draft with the given root, for the
/// given mint. `now` is the time announced.
///
/// Rejected with `Unauthorized` unless the caller is the agent, then with
/// `ShouldNotBePaused` if the program is paused, then with
/// `PreviousEpochIsNotApproved` if the current epoch is still a draft.
pub fn add_epoch(
    ledger: &mut Ledger,
    caller: Pubkey,
    mint: Mint,
    bump: u8,
    root: [u8; 32],
    now: i64,
) -> (outcome: Result<EpochCreated, ErrorCode>)
    requires
        old(ledger).wf(),
    ensures
        final(ledger).wf(),
        match old(ledger)@.spec_add_epoch(caller, mint, bump, root, now) {
            Ok((after, event)) => outcome == Ok::<EpochCreated, ErrorCode>(event) && final(ledger)@
                == after,
            Err(code) => outcome == Err::<EpochCreated, ErrorCode>(code) && final(ledger)@ == old(ledger)@,
        },
{
    let mut ctx = AddEpoch {
        rewards_account: ledger.rewards_account,
        current_epoch_account: EpochAccount::default(),
        mint,
        agent: caller,
    };
    ctx.check()?;
    ledger.epochs.push(
        EpochEntry {
            account: ctx.current_epoch_account,
            escrow: TokenAccount::default(),
            funded: 0,
            claims: HashMap::new(),
        },
    );
    let count = ledger.epochs.len();
    let last = count - 1;
    match add_epoch_handler(&mut ctx, bump, root, now) {
        Ok(event) => {
            ledger.epochs[last].account = ctx.current_epoch_account;
            ledger.rewards_account = ctx.rewards_account;
            proof {
                lemma_receipts_total_empty();
                let after = old(ledger)@.spec_add_epoch(caller, mint, bump, root, now)->Ok_0.0;
                assert(ledger@.epochs =~= after.epochs);
                assert forall|i: int| 0 <= i < ledger@.epochs.len() implies (
                #[trigger] ledger@.epochs[i]).wf(
                    i + 1,
                    ledger@.rewards_account.current_approved_epoch,
                ) by {
                    if i < last {
                        assert(ledger@.epochs[i] == old(ledger)@.epochs[i]);
                    }
                }
            }
            Ok(event)
        },
        Err(code) => Err(code),
    }
}

/// `caller` replaces the root and the mint of the draft epoch `epoch_nr`.
///
/// Rejected with `Unauthorized` unless the caller is the agent, then with
/// `ShouldNotBePaused` if the program is paused, then with `InvalidEpochNr` if
/// there is no such epoch, then with `EpochShouldNotBeApproved` if the epoch
/// is approved.
pub fn correct_epoch(
    ledger: &mut Ledger,
    caller: Pubkey,
    mint: Mint,
    epoch_nr: u64,
    root: [u8; 32],
) -> (outcome: Result<EpochCorrected, ErrorCode>)
    requires
        old(ledger).wf(),
    ensures
        final(ledger).wf(),
        match old(ledger)@.spec_correct_epoch(caller, mint, epoch_nr, root) {
            Ok((after, event)) => outcome == Ok::<EpochCorrected, ErrorCode>(event) && final(ledger)@ == after,
            Err(code) => outcome == Err::<EpochCorrected, ErrorCode>(code) && final(ledger)@
                == old(ledger)@,
        },
{
    let position = ledger.position(epoch_nr);
    let epoch_account = match position {
        Some(i) => ledger.epochs[i].account,
        None => EpochAccount::default(),
    };
    let mut ctx = CorrectEpoch {
        rewards_account: ledger.rewards_account,
        epoch_account,
        mint,
        agent: caller,
    };
    let event = correct_epoch_handler(&mut ctx, epoch_nr, root)?;
    match position {
        Some(i) => {
            assert(old(ledger)@.epochs[i as int].wf(
                i + 1,
                old(ledger)@.rewards_account.current_approved_epoch,
            ));
            ledger.epochs[i].account = ctx.epoch_account;
            proof {
                let after = old(ledger)@.spec_correct_epoch(caller, mint, epoch_nr, root)->Ok_0.0;
                assert(ledger@.epochs =~= after.epochs);
                assert forall|j: int| 0 <= j < ledger@.epochs.len() implies (
                #[trigger] ledger@.epochs[j]).wf(
                    j + 1,
                    ledger@.rewards_account.current_approved_epoch,
                ) by {
                    assert(old(ledger)@.epochs[j].wf(
                        j + 1,
                        old(ledger)@.rewards_account.current_approved_epoch,
                    ));
                }
            }
            Ok(event)
        },
        None => Err(ErrorCode::InvalidEpochNr),
    }
}

/// `caller` approves the current draft epoch `epoch_nr` and funds its escrow
/// `epoch_token_account` with `amount` whole tokens of `mint_account` from
/// `manager_token_account`. The funding is returned for the custody subsystem
/// to carry out; the ledger counts it as the escrow's balance.
///
/// Rejected with `Unauthorized` unless the caller is the manager, then with
/// `ShouldNotBePaused` if the program is paused, then with `InvalidEpochNr` if
/// `epoch_nr` is not the current epoch, then with `EpochShouldNotBeApproved`
/// if the epoch is approved already, then with `InvalidMintAccount` if the
/// mint is not the epoch's.
pub fn approve_epoch(
    ledger: &mut Ledger,
    caller: Pubkey,
    mint_account: Mint,
    manager_token_account: TokenAccount,
    epoch_token_account: TokenAccount,
    epoch_nr: u64,
    amount: u64,
) -> (outcome: Result<(Transfer, EpochApproved), ErrorCode>)
    requires
        old(ledger).wf(),
        spec_scalable(amount, mint_account.decimals),
    ensures
        final(ledger).wf(),
        match old(ledger)@.spec_approve_epoch(
            caller,
            mint_account,
            manager_token_account,
            epoch_token_account,
            epoch_nr,
            amount,
        ) {
            Ok((after, funding, event)) => outcome == Ok::<(Transfer, EpochApproved), ErrorCode>(
                (funding, event),
            ) && final(ledger)@ == after,
            Err(code) => outcome == Err::<(Transfer, EpochApproved), ErrorCode>(code) && final(ledger)@ == old(ledger)@,
        },
{
    let position = ledger.position(epoch_nr);
    let epoch_account = match position {
        Some(i) => ledger.epochs[i].account,
        None => EpochAccount::default(),
    };
    let mut ctx = ApproveEpoch {
        rewards_account: ledger.rewards_account,
        epoch_account,
        manager: caller,
        epoch_token_account,
        manager_token_account,
        mint_account,
    };
    let (funding, event) = approve_epoch_handler(&mut ctx, epoch_nr, amount)?;
    match position {
        Some(i) => {
            assert(old(ledger)@.epochs[i as int].wf(
                i + 1,
                old(ledger)@.rewards_account.current_approved_epoch,
            ));
            ledger.epochs[i].account = ctx.epoch_account;
            ledger.epochs[i].escrow = epoch_token_account;
            ledger.epochs[i].funded = funding.amount;
            ledger.rewards_account = ctx.rewards_account;
            proof {
                let after = old(ledger)@.spec_approve_epoch(
                    caller,
                    mint_account,
                    manager_token_account,
                    epoch_token_account,
                    epoch_nr,
                    amount,
                )->Ok_0.0;
                assert(ledger@.epochs =~= after.epochs);
                assert forall|j: int| 0 <= j < ledger@.epochs.len() implies (
                #[trigger] ledger@.epochs[j]).wf(
                    j + 1,
                    ledger@.rewards_account.current_approved_epoch,
                ) by {
                    assert(old(ledger)@.epochs[j].wf(
                        j + 1,
                        old(ledger)@.rewards_account.current_approved_epoch,
                    ));
                }
            }
            Ok((funding, event))
        },
        None => Err(ErrorCode::InvalidEpochNr),
    }
}

/// Settles a claim whose proof has been judged: `receiver` claims `amount`
/// for the entitlement `index` of the epoch `epoch_nr`, to be paid to `to`.
/// On success the receipt is stored, the epoch counts the payout, and the
/// payout is returned for the custody subsystem to carry out.
///
/// Rejected with `ShouldNotBePaused` if the program is paused, then with
/// `InvalidEpochNr` if there is no such epoch, then as the guards of a claim
/// say, `DropAlreadyClaimed` among them if the entitlement has a receipt; at
/// last refused with `InsufficientFunds` if the escrow holds less than
/// `amount`. A claim that is not settled changes nothing.
pub fn settle_claim(
    ledger: &mut Ledger,
    receiver: Pubkey,
    to: TokenAccount,
    mint_account: Mint,
    epoch_nr: u64,
    index: u64,
    amount: u64,
    accepted: bool,
    now: i64,
) -> (outcome: Result<(Transfer, ClaimedEvent), ClaimError>)
    requires
        old(ledger).wf(),
    ensures
        final(ledger).wf(),
        match old(ledger)@.spec_settle_claim(
            receiver,
            to,
            mint_account,
            epoch_nr,
            index,
            amount,
            accepted,
            now,
        ) {
            Ok((after, payout, event)) => outcome == Ok::<(Transfer, ClaimedEvent), ClaimError>(
                (payout, event),
            ) && final(ledger)@ == after,
            Err(error) => outcome == Err::<(Transfer, ClaimedEvent), ClaimError>(error) && final(ledger)@ == old(ledger)@,
        },
{
    if ledger.rewards_account.is_paused {
        return Err(ClaimError::Rejected(ErrorCode::ShouldNotBePaused));
    }
    let i = match ledger.position(epoch_nr) {
        Some(i) => i,
        None => {
            return Err(ClaimError::Rejected(ErrorCode::InvalidEpochNr));
        },
    };
    assert(old(ledger)@.epochs[i as int].wf(
        i + 1,
        old(ledger)@.rewards_account.current_approved_epoch,
    ));
    let claim_status = match ledger.epochs[i].claims.get(&index) {
        Some(status) => *status,
        None => ClaimStatus::default(),
    };
    let mut ctx = Claim {
        rewards_account: ledger.rewards_account,
        epoch_account: ledger.epochs[i].account,
        claim_status,
        from: ledger.epochs[i].escrow,
        to,
        receiver,
        mint_account,
    };
    match ctx.check(accepted) {
        Err(code) => {
            return Err(ClaimError::Rejected(code));
        },
        Ok(_) => {},
    }
    if amount > ledger.epochs[i].funded - ctx.epoch_account.total_amount_claimed {
        return Err(ClaimError::InsufficientFunds);
    }
    let receipt = ClaimStatus { is_claimed: true, receiver, claimed_at: now, amount };
    ledger.epochs[i].claims.insert(index, receipt);
    let count = ledger.epochs[i].claims.len();
    match process_claim(&mut ctx, index, amount, accepted, now) {
        Ok((payout, event)) => {
            ledger.epochs[i].account = ctx.epoch_account;
            proof {
                lemma_receipts_total_insert(old(ledger)@.epochs[i as int].claims, index, receipt);
                let after = old(ledger)@.spec_settle_claim(
                    receiver,
                    to,
                    mint_account,
                    epoch_nr,
                    index,
                    amount,
                    accepted,
                    now,
                )->Ok_0.0;
                assert(ledger@.epochs =~= after.epochs);
                assert forall|j: int| 0 <= j < ledger@.epochs.len() implies (
                #[trigger] ledger@.epochs[j]).wf(
                    j + 1,
                    ledger@.rewards_account.current_approved_epoch,
                ) by {
                    assert(old(ledger)@.epochs[j].wf(
                        j + 1,
                        old(ledger)@.rewards_account.current_approved_epoch,
                    ));
                }
            }
            Ok((payout, event))
        },
        Err(code) => Err(ClaimError::Rejected(code)),
    }
}

/// `receiver` claims `amount` for the entitlement `index` of the epoch
/// `epoch_nr` with `proof`, to be paid to `to`. `now` is the time written
/// into the receipt.
///
/// The proof is accepted if it leads from the leaf `(index, receiver,
/// amount)` to the epoch's root; the claim is then settled as `settle_claim`
/// says.
pub fn claim(
    ledger: &mut Ledger,
    receiver: Pubkey,
    to: TokenAccount,
    mint_account: Mint,
    epoch_nr: u64,
    index: u64,
    amount: u64,
    proof: Vec<[u8; 32]>,
    now: i64,
) -> (outcome: Result<(Transfer, ClaimedEvent), ClaimError>)
    requires
        old(ledger).wf(),
    ensures
        final(ledger).wf(),
        match old(ledger)@.spec_claim(
            receiver,
            to,
            mint_account,
            epoch_nr,
            index,
            amount,
            proof@,
            now,
        ) {
            Ok((after, payout, event)) => outcome == Ok::<(Transfer, ClaimedEvent), ClaimError>(
                (payout, event),
            ) && final(ledger)@ == after,
            Err(error) => outcome == Err::<(Transfer, ClaimedEvent), ClaimError>(error) && final(ledger)@ == old(ledger)@,
        },
{
    let accepted = match ledger.position(epoch_nr) {
        Some(i) => {
            let node = leaf_hash(index, &receiver, amount);
            verify(proof, ledger.epochs[i].account.hash, node)
        },
        None => false,
    };
    settle_claim(ledger, receiver, to, mint_account, epoch_nr, index, amount, accepted, now)
}

} // verus!
