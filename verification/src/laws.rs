//! What holds of the engine over whole histories: a ledger taken through any
//! sequence of operations keeps its shape, never forgets a receipt or an
//! approval, and never pays out more than an epoch was funded with.
use vstd::prelude::*;
use vstd::arithmetic::power::{lemma_pow_positive, pow};
use crate::errors::{ClaimError, ErrorCode};
use crate::events::{
    AgentChanged, ClaimedEvent, EpochApproved, EpochCorrected, EpochCreated, ManagerUpdated,
    NewProposedManager, Paused,
};
use crate::instructions::approve_epoch::{spec_scalable, spec_scale};
use crate::ledger::{
    lemma_receipts_total_empty, lemma_receipts_total_insert, receipts_total, EpochState,
    LedgerState,
};
use crate::pubkey::Pubkey;
use crate::state::{Mint, TokenAccount, Transfer};

verus! {

/// One call of an operation of the ledger, with its arguments.
pub enum Operation {
    /// `caller` proposes a candidate for the manager role.
    ProposeManager { caller: Pubkey, proposed_manager: Pubkey },
    /// `caller` accepts the manager role.
    AcceptManager { caller: Pubkey },
    /// `caller` replaces the agent.
    ChangeAgent { caller: Pubkey, new_agent: Pubkey },
    /// `caller` pauses the program.
    Pause { caller: Pubkey },
    /// `caller` takes the program out of its pause.
    Unpause { caller: Pubkey },
    /// `caller` creates the next epoch as a draft.
    AddEpoch { caller: Pubkey, mint: Mint, bump: u8, root: [u8; 32], now: i64 },
    /// `caller` corrects a draft epoch.
    CorrectEpoch { caller: Pubkey, mint: Mint, epoch_nr: u64, root: [u8; 32] },
    /// `caller` approves and funds the current draft epoch.
    ApproveEpoch {
        caller: Pubkey,
        mint_account: Mint,
        manager_token_account: TokenAccount,
        epoch_token_account: TokenAccount,
        epoch_nr: u64,
        amount: u64,
    },
    /// `receiver` claims an entitlement with a proof.
    Claim {
        receiver: Pubkey,
        to: TokenAccount,
        mint_account: Mint,
        epoch_nr: u64,
        index: u64,
        amount: u64,
        proof: Seq<[u8; 32]>,
        now: i64,
    },
}

impl EpochState {
    /// Whether this epoch can be a later state of `earlier`: same number and
    /// bump; once approved, still approved with the same root, mint, escrow
    /// and funding; no counter smaller; every receipt still there, unchanged.
    pub open spec fn continues(self, earlier: EpochState) -> bool {
        &&& self.account.epoch_nr == earlier.account.epoch_nr
        &&& self.account.bump == earlier.account.bump
        &&& earlier.account.is_approved ==> {
            &&& self.account.is_approved
            &&& self.account.hash == earlier.account.hash
            &&& self.account.mint == earlier.account.mint
            &&& self.escrow == earlier.escrow
            &&& self.funded == earlier.funded
        }
        &&& earlier.account.total_amount_claimed <= self.account.total_amount_claimed
        &&& earlier.account.num_nodes_claimed <= self.account.num_nodes_claimed
        &&& forall|index: u64| #[trigger]
            earlier.claims.contains_key(index) ==> self.claims.contains_key(index)
                && self.claims[index] == earlier.claims[index]
    }
}

impl LedgerState {
    /// Whether this ledger can be a later state of `earlier`: no epoch has
    /// gone, and each continues what it was.
    pub open spec fn extends(self, earlier: LedgerState) -> bool {
        &&& earlier.rewards_account.current_epoch_nr <= self.rewards_account.current_epoch_nr
        &&& earlier.rewards_account.current_approved_epoch
            <= self.rewards_account.current_approved_epoch
        &&& earlier.epochs.len() <= self.epochs.len()
        &&& forall|i: int|
            0 <= i < earlier.epochs.len() ==> (#[trigger] self.epochs[i]).continues(
                earlier.epochs[i],
            )
    }

    /// Whether the operation can be called on this ledger at all: the numbers
    /// it would write fit in sixty-four bits.
    pub open spec fn admits(self, op: Operation) -> bool {
        match op {
            Operation::AddEpoch { .. } => self.rewards_account.current_epoch_nr < u64::MAX,
            Operation::ApproveEpoch { mint_account, amount, .. } => spec_scalable(
                amount,
                mint_account.decimals,
            ),
            Operation::Claim { epoch_nr, .. } => self.has_epoch(epoch_nr) ==> self.epoch(
                epoch_nr,
            ).account.num_nodes_claimed < u64::MAX,
            _ => true,
        }
    }

    /// The ledger after the operation if it succeeds, `None` if it fails.
    pub open spec fn apply(self, op: Operation) -> Option<LedgerState> {
        match op {
            Operation::ProposeManager { caller, proposed_manager } => match self.spec_propose_manager(
                caller,
                proposed_manager,
            ) {
                Ok((after, _)) => Some(after),
                Err(_) => None,
            },
            Operation::AcceptManager { caller } => match self.spec_accept_manager(caller) {
                Ok((after, _)) => Some(after),
                Err(_) => None,
            },
            Operation::ChangeAgent { caller, new_agent } => match self.spec_change_agent(
                caller,
                new_agent,
            ) {
                Ok((after, _)) => Some(after),
                Err(_) => None,
            },
            Operation::Pause { caller } => match self.spec_pause(caller) {
                Ok((after, _)) => Some(after),
                Err(_) => None,
            },
            Operation::Unpause { caller } => match self.spec_unpause(caller) {
                Ok((after, _)) => Some(after),
                Err(_) => None,
            },
            Operation::AddEpoch { caller, mint, bump, root, now } => match self.spec_add_epoch(
                caller,
                mint,
                bump,
                root,
                now,
            ) {
                Ok((after, _)) => Some(after),
                Err(_) => None,
            },
            Operation::CorrectEpoch { caller, mint, epoch_nr, root } => match self.spec_correct_epoch(
                caller,
                mint,
                epoch_nr,
                root,
            ) {
                Ok((after, _)) => Some(after),
                Err(_) => None,
            },
            Operation::ApproveEpoch {
                caller,
                mint_account,
                manager_token_account,
                epoch_token_account,
                epoch_nr,
                amount,
            } => match self.spec_approve_epoch(
                caller,
                mint_account,
                manager_token_account,
                epoch_token_account,
                epoch_nr,
                amount,
            ) {
                Ok((after, _, _)) => Some(after),
                Err(_) => None,
            },
            Operation::Claim {
                receiver,
                to,
                mint_account,
                epoch_nr,
                index,
                amount,
                proof,
                now,
            } => match self.spec_claim(
                receiver,
                to,
                mint_account,
                epoch_nr,
                index,
                amount,
                proof,
                now,
            ) {
                Ok((after, _, _)) => Some(after),
                Err(_) => None,
            },
        }
    }

    /// The ledger after the operation has been tried: changed if it was
    /// admitted and succeeded, as before otherwise.
    pub open spec fn step(self, op: Operation) -> LedgerState {
        if self.admits(op) && self.apply(op) is Some {
            self.apply(op)->Some_0
        } else {
            self
        }
    }

    /// The ledger after the operations have been tried one after the other.
    pub open spec fn run(self, ops: Seq<Operation>) -> LedgerState
        decreases ops.len(),
    {
        if ops.len() == 0 {
            self
        } else {
            self.run(ops.drop_last()).step(ops.last())
        }
    }
}

/// Every operation keeps a well-formed ledger well-formed, and its result
/// continues what was there.
pub proof fn law_step_preserves(s: LedgerState, op: Operation)
    requires
        s.wf(),
    ensures
        s.step(op).wf(),
        s.step(op).extends(s),
{
    let t = s.step(op);
    let approved = s.rewards_account.current_approved_epoch;
    if s.admits(op) && s.apply(op) is Some {
        match op {
            Operation::AddEpoch { .. } => {
                lemma_receipts_total_empty();
            },
            Operation::Claim { epoch_nr, index, .. } => {
                assert(s.epoch(epoch_nr).wf(epoch_nr as int, approved));
                lemma_receipts_total_insert(
                    s.epoch(epoch_nr).claims,
                    index,
                    t.epoch(epoch_nr).claims[index],
                );
            },
            _ => {},
        }
    }
    assert forall|i: int| 0 <= i < t.epochs.len() implies (#[trigger] t.epochs[i]).wf(
        i + 1,
        t.rewards_account.current_approved_epoch,
    ) by {
        if i < s.epochs.len() {
            assert(s.epochs[i].wf(i + 1, approved));
        }
    }
    assert forall|i: int| 0 <= i < s.epochs.len() implies (#[trigger] t.epochs[i]).continues(
        s.epochs[i],
    ) by {
        assert(s.epochs[i].wf(i + 1, approved));
    }
}

/// To continue is transitive.
pub proof fn law_extends_transitive(a: LedgerState, b: LedgerState, c: LedgerState)
    requires
        b.extends(a),
        c.extends(b),
    ensures
        c.extends(a),
{
    assert forall|i: int| 0 <= i < a.epochs.len() implies (#[trigger] c.epochs[i]).continues(
        a.epochs[i],
    ) by {
        assert(b.epochs[i].continues(a.epochs[i]));
        assert(c.epochs[i].continues(b.epochs[i]));
    }
}

/// Every history keeps a well-formed ledger well-formed, and its result
/// continues what was there: no epoch, approval or receipt is ever lost or
/// changed.
pub proof fn law_run_preserves(s: LedgerState, ops: Seq<Operation>)
    requires
        s.wf(),
    ensures
        s.run(ops).wf(),
        s.run(ops).extends(s),
    decreases ops.len(),
{
    if ops.len() == 0 {
        assert forall|i: int| 0 <= i < s.epochs.len() implies (#[trigger] s.epochs[i]).continues(
            s.epochs[i],
        ) by {}
    } else {
        let middle = s.run(ops.drop_last());
        law_run_preserves(s, ops.drop_last());
        law_step_preserves(middle, ops.last());
        law_extends_transitive(s, middle, middle.step(ops.last()));
    }
}

/// An entitlement is paid out at most once. After a successful claim for the
/// entitlement `index` of the epoch `epoch_nr`, and whatever operations follow,
/// every further claim for it fails, whoever makes it and whatever amount and
/// proof it brings; it fails with `DropAlreadyClaimed` unless the program is
/// paused or the claim names a mint that is not the epoch's.
pub proof fn law_claim_at_most_once(
    s: LedgerState,
    epoch_nr: u64,
    index: u64,
    first: Operation,
    between: Seq<Operation>,
    second: Operation,
)
    requires
        s.wf(),
        first is Claim,
        second is Claim,
        first->Claim_epoch_nr == epoch_nr,
        second->Claim_epoch_nr == epoch_nr,
        first->Claim_index == index,
        second->Claim_index == index,
        s.admits(first),
        s.apply(first) is Some,
    ensures
        s.step(first).is_claimed(epoch_nr, index),
        s.step(first).run(between).is_claimed(epoch_nr, index),
        s.step(first).run(between).epoch(epoch_nr).claims[index] == s.step(first).epoch(
            epoch_nr,
        ).claims[index],
        s.step(first).run(between).apply(second) is None,
        !s.step(first).run(between).rewards_account.is_paused && second->Claim_mint_account.key
            == s.step(first).run(between).epoch(epoch_nr).account.mint ==> s.step(first).run(
            between,
        ).spec_claim(
            second->Claim_receiver,
            second->Claim_to,
            second->Claim_mint_account,
            epoch_nr,
            index,
            second->Claim_amount,
            second->Claim_proof,
            second->Claim_now,
        ) == Err::<(LedgerState, Transfer, ClaimedEvent), ClaimError>(ClaimError::Rejected(ErrorCode::DropAlreadyClaimed)),
{
    let t = s.step(first);
    let later = t.run(between);
    law_step_preserves(s, first);
    law_run_preserves(t, between);
    assert(t.epochs[epoch_nr - 1].claims.contains_key(index));
    assert(later.epochs[epoch_nr - 1].wf(
        epoch_nr as int,
        later.rewards_account.current_approved_epoch,
    ));
}

/// A claimed entitlement stays claimed: if the entitlement `index` of the
/// epoch `epoch_nr` has a receipt, then after any operations it has the same
/// receipt, and a claim for it is never settled.
pub proof fn law_receipt_is_final(
    s: LedgerState,
    epoch_nr: u64,
    index: u64,
    ops: Seq<Operation>,
    receiver: Pubkey,
    to: TokenAccount,
    mint_account: Mint,
    amount: u64,
    accepted: bool,
    now: i64,
)
    requires
        s.wf(),
        s.is_claimed(epoch_nr, index),
    ensures
        s.run(ops).is_claimed(epoch_nr, index),
        s.run(ops).epoch(epoch_nr).claims[index] == s.epoch(epoch_nr).claims[index],
        s.run(ops).spec_settle_claim(
            receiver,
            to,
            mint_account,
            epoch_nr,
            index,
            amount,
            accepted,
            now,
        ) is Err,
{
    let later = s.run(ops);
    law_run_preserves(s, ops);
    assert(later.epochs[epoch_nr - 1].wf(
        epoch_nr as int,
        later.rewards_account.current_approved_epoch,
    ));
}

/// At most one epoch is a draft at a time. While the current epoch is a
/// draft, no epoch can be added: the agent, with the program active, is told
/// `PreviousEpochIsNotApproved`. When there is no epoch yet, or the current
/// one is approved, the agent can add one with the program active, and the
/// new epoch takes the next number as a draft.
pub proof fn law_one_draft_at_a_time(
    s: LedgerState,
    caller: Pubkey,
    mint: Mint,
    bump: u8,
    root: [u8; 32],
    now: i64,
)
    requires
        s.wf(),
    ensures
        s.has_epoch(s.rewards_account.current_epoch_nr) && !s.epoch(
            s.rewards_account.current_epoch_nr,
        ).account.is_approved ==> s.spec_add_epoch(caller, mint, bump, root, now) is Err,
        s.has_epoch(s.rewards_account.current_epoch_nr) && !s.epoch(
            s.rewards_account.current_epoch_nr,
        ).account.is_approved && caller == s.rewards_account.agent && !s.rewards_account.is_paused
            ==> s.spec_add_epoch(caller, mint, bump, root, now) == Err::<(LedgerState, EpochCreated), ErrorCode>(
            ErrorCode::PreviousEpochIsNotApproved,
        ),
        (s.rewards_account.current_epoch_nr == 0 || s.epoch(
            s.rewards_account.current_epoch_nr,
        ).account.is_approved) && caller == s.rewards_account.agent && !s.rewards_account.is_paused
            ==> s.spec_add_epoch(caller, mint, bump, root, now) is Ok,
        s.spec_add_epoch(caller, mint, bump, root, now) is Ok && s.rewards_account.current_epoch_nr
            < u64::MAX ==> {
            let after = s.spec_add_epoch(caller, mint, bump, root, now)->Ok_0.0;
            &&& after.rewards_account.current_epoch_nr == s.rewards_account.current_epoch_nr + 1
            &&& after.has_epoch(after.rewards_account.current_epoch_nr)
            &&& !after.epoch(after.rewards_account.current_epoch_nr).account.is_approved
            &&& after.epoch(after.rewards_account.current_epoch_nr).account.hash == root
        },
{
    let current = s.rewards_account.current_epoch_nr;
    if s.has_epoch(current) {
        assert(s.epochs[current - 1].wf(
            current as int,
            s.rewards_account.current_approved_epoch,
        ));
    }
}

/// An epoch can be corrected only while it is a draft. A correction that
/// succeeds found the epoch unapproved; once an epoch is approved, and
/// whatever operations follow, every correction of it fails, with
/// `EpochShouldNotBeApproved` when the agent makes it with the program
/// active.
pub proof fn law_correction_window(
    s: LedgerState,
    ops: Seq<Operation>,
    caller: Pubkey,
    mint: Mint,
    epoch_nr: u64,
    root: [u8; 32],
)
    requires
        s.wf(),
    ensures
        s.spec_correct_epoch(caller, mint, epoch_nr, root) is Ok ==> s.has_epoch(epoch_nr)
            && !s.epoch(epoch_nr).account.is_approved,
        s.has_epoch(epoch_nr) && s.epoch(epoch_nr).account.is_approved ==> s.run(
            ops,
        ).spec_correct_epoch(caller, mint, epoch_nr, root) is Err,
        s.has_epoch(epoch_nr) && s.epoch(epoch_nr).account.is_approved && caller == s.run(
            ops,
        ).rewards_account.agent && !s.run(ops).rewards_account.is_paused ==> s.run(
            ops,
        ).spec_correct_epoch(caller, mint, epoch_nr, root) == Err::<(LedgerState, EpochCorrected), ErrorCode>(
            ErrorCode::EpochShouldNotBeApproved,
        ),
{
    let later = s.run(ops);
    law_run_preserves(s, ops);
    if s.has_epoch(epoch_nr) {
        assert(s.epochs[epoch_nr - 1].wf(
            epoch_nr as int,
            s.rewards_account.current_approved_epoch,
        ));
        assert(later.epochs[epoch_nr - 1].wf(
            epoch_nr as int,
            later.rewards_account.current_approved_epoch,
        ));
    }
}

/// Approval cannot be undone or repeated. A successful approval turns a draft
/// into an approved epoch; an approved epoch stays approved through any
/// operations, with the root, the mint, the escrow and the funding it had;
/// and every further approval of it fails.
pub proof fn law_approval_is_final(
    s: LedgerState,
    ops: Seq<Operation>,
    caller: Pubkey,
    mint_account: Mint,
    manager_token_account: TokenAccount,
    epoch_token_account: TokenAccount,
    epoch_nr: u64,
    amount: u64,
)
    requires
        s.wf(),
    ensures
        s.spec_approve_epoch(
            caller,
            mint_account,
            manager_token_account,
            epoch_token_account,
            epoch_nr,
            amount,
        ) is Ok ==> {
            let after = s.spec_approve_epoch(
                caller,
                mint_account,
                manager_token_account,
                epoch_token_account,
                epoch_nr,
                amount,
            )->Ok_0.0;
            &&& s.has_epoch(epoch_nr)
            &&& !s.epoch(epoch_nr).account.is_approved
            &&& after.has_epoch(epoch_nr)
            &&& after.epoch(epoch_nr).account.is_approved
            &&& after.rewards_account.current_approved_epoch == epoch_nr
        },
        s.has_epoch(epoch_nr) && s.epoch(epoch_nr).account.is_approved ==> {
            let later = s.run(ops);
            &&& later.has_epoch(epoch_nr)
            &&& later.epoch(epoch_nr).account.is_approved
            &&& later.epoch(epoch_nr).account.hash == s.epoch(epoch_nr).account.hash
            &&& later.epoch(epoch_nr).account.mint == s.epoch(epoch_nr).account.mint
            &&& later.epoch(epoch_nr).escrow == s.epoch(epoch_nr).escrow
            &&& later.epoch(epoch_nr).funded == s.epoch(epoch_nr).funded
            &&& later.spec_approve_epoch(
                caller,
                mint_account,
                manager_token_account,
                epoch_token_account,
                epoch_nr,
                amount,
            ) is Err
        },
{
    let later = s.run(ops);
    law_run_preserves(s, ops);
    if s.has_epoch(epoch_nr) {
        assert(s.epochs[epoch_nr - 1].wf(
            epoch_nr as int,
            s.rewards_account.current_approved_epoch,
        ));
        assert(later.epochs[epoch_nr - 1].wf(
            epoch_nr as int,
            later.rewards_account.current_approved_epoch,
        ));
    }
}

/// While the program is paused, no operation but unpausing succeeds, and the
/// ledger stays as it is. The caller who holds the role the operation asks
/// for is told `ShouldNotBePaused`; so is everyone who claims.
pub proof fn law_pause_gating(s: LedgerState, op: Operation)
    requires
        s.rewards_account.is_paused,
    ensures
        !(op is Unpause) ==> s.apply(op) is None && s.step(op) == s,
        match op {
            Operation::ProposeManager { caller, proposed_manager } => caller
                == s.rewards_account.manager ==> s.spec_propose_manager(caller, proposed_manager)
                == Err::<(LedgerState, NewProposedManager), ErrorCode>(ErrorCode::ShouldNotBePaused),
            Operation::AcceptManager { caller } => caller == s.rewards_account.proposed_manager
                ==> s.spec_accept_manager(caller) == Err::<(LedgerState, ManagerUpdated), ErrorCode>(
                ErrorCode::ShouldNotBePaused,
            ),
            Operation::ChangeAgent { caller, new_agent } => caller == s.rewards_account.manager
                ==> s.spec_change_agent(caller, new_agent) == Err::<(LedgerState, AgentChanged), ErrorCode>(
                ErrorCode::ShouldNotBePaused,
            ),
            Operation::Pause { caller } => caller == s.rewards_account.manager ==> s.spec_pause(
                caller,
            ) == Err::<(LedgerState, Paused), ErrorCode>(ErrorCode::ShouldNotBePaused),
            Operation::Unpause { caller } => caller == s.rewards_account.manager ==> s.spec_unpause(
                caller,
            ) is Ok && !s.step(op).rewards_account.is_paused,
            Operation::AddEpoch { caller, mint, bump, root, now } => caller
                == s.rewards_account.agent ==> s.spec_add_epoch(caller, mint, bump, root, now)
                == Err::<(LedgerState, EpochCreated), ErrorCode>(ErrorCode::ShouldNotBePaused),
            Operation::CorrectEpoch { caller, mint, epoch_nr, root } => caller
                == s.rewards_account.agent ==> s.spec_correct_epoch(caller, mint, epoch_nr, root)
                == Err::<(LedgerState, EpochCorrected), ErrorCode>(ErrorCode::ShouldNotBePaused),
            Operation::ApproveEpoch {
                caller,
                mint_account,
                manager_token_account,
                epoch_token_account,
                epoch_nr,
                amount,
            } => caller == s.rewards_account.manager ==> s.spec_approve_epoch(
                caller,
                mint_account,
                manager_token_account,
                epoch_token_account,
                epoch_nr,
                amount,
            ) == Err::<(LedgerState, Transfer, EpochApproved), ErrorCode>(ErrorCode::ShouldNotBePaused),
            Operation::Claim {
                receiver,
                to,
                mint_account,
                epoch_nr,
                index,
                amount,
                proof,
                now,
            } => s.spec_claim(receiver, to, mint_account, epoch_nr, index, amount, proof, now)
                == Err::<(LedgerState, Transfer, ClaimedEvent), ClaimError>(ClaimError::Rejected(ErrorCode::ShouldNotBePaused)),
        },
{
}

/// The pause switch has two positions and refuses to be thrown into the one
/// it is in: pausing a paused program and unpausing an active one fail, with
/// `ShouldNotBePaused` and `ShouldBePaused` when the manager tries. The
/// manager's pause of an active program pauses it; the manager's unpause of
/// a paused one makes it active. Nothing else changes the switch.
pub proof fn law_pause_switch(s: LedgerState, caller: Pubkey, op: Operation)
    ensures
        s.rewards_account.is_paused ==> s.spec_pause(caller) is Err,
        !s.rewards_account.is_paused ==> s.spec_unpause(caller) is Err,
        s.rewards_account.is_paused && caller == s.rewards_account.manager ==> s.spec_pause(caller)
            == Err::<(LedgerState, Paused), ErrorCode>(ErrorCode::ShouldNotBePaused),
        !s.rewards_account.is_paused && caller == s.rewards_account.manager ==> s.spec_unpause(
            caller,
        ) == Err::<(LedgerState, Paused), ErrorCode>(ErrorCode::ShouldBePaused),
        !s.rewards_account.is_paused && caller == s.rewards_account.manager ==> s.spec_pause(caller)
            is Ok && s.spec_pause(caller)->Ok_0.0.rewards_account.is_paused,
        s.rewards_account.is_paused && caller == s.rewards_account.manager ==> s.spec_unpause(
            caller,
        ) is Ok && !s.spec_unpause(caller)->Ok_0.0.rewards_account.is_paused,
        !(op is Pause) && !(op is Unpause) ==> s.step(op).rewards_account.is_paused
            == s.rewards_account.is_paused,
{
}

/// No epoch pays out more than it was funded with. After a successful
/// approval that funds an epoch with `amount` whole tokens, and whatever
/// operations follow, the funding on record is that amount in the token's
/// smallest unit, the sum of the epoch's payouts does not exceed it, and what
/// the escrow still holds is the difference.
pub proof fn law_funding_bound(
    s: LedgerState,
    caller: Pubkey,
    mint_account: Mint,
    manager_token_account: TokenAccount,
    epoch_token_account: TokenAccount,
    epoch_nr: u64,
    amount: u64,
    ops: Seq<Operation>,
)
    requires
        s.wf(),
        spec_scalable(amount, mint_account.decimals),
        s.spec_approve_epoch(
            caller,
            mint_account,
            manager_token_account,
            epoch_token_account,
            epoch_nr,
            amount,
        ) is Ok,
    ensures
        ({
            let approved = s.spec_approve_epoch(
                caller,
                mint_account,
                manager_token_account,
                epoch_token_account,
                epoch_nr,
                amount,
            )->Ok_0.0;
            let later = approved.run(ops);
            &&& approved.epoch(epoch_nr).funded == spec_scale(amount, mint_account.decimals)
            &&& approved.epoch(epoch_nr).account.total_amount_claimed == 0
            &&& later.has_epoch(epoch_nr)
            &&& later.epoch(epoch_nr).funded == spec_scale(amount, mint_account.decimals)
            &&& later.epoch(epoch_nr).account.total_amount_claimed <= spec_scale(
                amount,
                mint_account.decimals,
            )
            &&& later.epoch(epoch_nr).remaining() == spec_scale(amount, mint_account.decimals)
                - later.epoch(epoch_nr).account.total_amount_claimed
        }),
{
    let op = Operation::ApproveEpoch {
        caller,
        mint_account,
        manager_token_account,
        epoch_token_account,
        epoch_nr,
        amount,
    };
    let approved = s.step(op);
    let later = approved.run(ops);
    law_step_preserves(s, op);
    law_run_preserves(approved, ops);
    assert(0 <= spec_scale(amount, mint_account.decimals) <= u64::MAX) by {
        lemma_pow_positive(10, mint_account.decimals as nat);
        assert(0 <= amount * pow(10, mint_account.decimals as nat)) by (nonlinear_arith)
            requires
                0 <= amount,
                0 < pow(10, mint_account.decimals as nat),
        ;
    }
    assert(later.epochs[epoch_nr - 1].wf(
        epoch_nr as int,
        later.rewards_account.current_approved_epoch,
    ));
}

/// In every well-formed ledger, each epoch has paid out the sum of its
/// receipts, which is no more than it was funded with, and a claim that all
/// guards pass is settled exactly when the escrow still holds its amount.
pub proof fn law_escrow_never_overdrawn(
    s: LedgerState,
    receiver: Pubkey,
    to: TokenAccount,
    mint_account: Mint,
    epoch_nr: u64,
    index: u64,
    amount: u64,
    accepted: bool,
    now: i64,
)
    requires
        s.wf(),
        s.has_epoch(epoch_nr),
    ensures
        s.epoch(epoch_nr).account.total_amount_claimed <= s.epoch(epoch_nr).funded,
        s.epoch(epoch_nr).account.total_amount_claimed == receipts_total(
            s.epoch(epoch_nr).claims,
        ),
        s.epoch(epoch_nr).account.num_nodes_claimed == s.epoch(epoch_nr).claims.dom().len(),
        s.spec_settle_claim(receiver, to, mint_account, epoch_nr, index, amount, accepted, now)
            is Ok ==> {
            let after = s.spec_settle_claim(
                receiver,
                to,
                mint_account,
                epoch_nr,
                index,
                amount,
                accepted,
                now,
            )->Ok_0.0;
            &&& amount <= s.epoch(epoch_nr).remaining()
            &&& after.epoch(epoch_nr).account.total_amount_claimed == s.epoch(
                epoch_nr,
            ).account.total_amount_claimed + amount
            &&& after.epoch(epoch_nr).remaining() == s.epoch(epoch_nr).remaining() - amount
        },
        s.spec_settle_claim(receiver, to, mint_account, epoch_nr, index, amount, accepted, now)
            == Err::<(LedgerState, Transfer, ClaimedEvent), ClaimError>(ClaimError::InsufficientFunds) <==> s.claim_context(
            receiver,
            to,
            mint_account,
            epoch_nr,
            index,
        ).spec_check(accepted) is Ok && !s.rewards_account.is_paused && amount > s.epoch(
            epoch_nr,
        ).remaining(),
{
}

} // verus!
