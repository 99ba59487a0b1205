use rewards_distributor::errors::{ClaimError, ErrorCode};
use rewards_distributor::events::{
    AgentChanged, ClaimedEvent, EpochApproved, EpochCorrected, EpochCreated, Initialized,
    ManagerUpdated, NewProposedManager, Paused,
};
use rewards_distributor::merkle_proof::{hash_pair, leaf_hash};
use rewards_distributor::pubkey::Pubkey;
use rewards_distributor::rewards_distributor::{
    accept_manager, add_epoch, approve_epoch, change_agent, claim, correct_epoch, initialize, pause,
    propose_manager, settle_claim, unpause, Ledger,
};
use rewards_distributor::state::{
    Authority, ClaimStatus, EpochAccount, Mint, RewardsAccount, TokenAccount, Transfer,
};

fn key(byte: u8) -> Pubkey {
    Pubkey::new_from_array([byte; 32])
}

const M: u8 = 1;
const A: u8 = 2;
const U: u8 = 0x11;
const MINT: u8 = 8;
const ESCROW: u8 = 0x30;
const TREASURY: u8 = 0x40;

fn mint() -> Mint {
    Mint { key: key(MINT), decimals: 0 }
}

fn escrow() -> TokenAccount {
    TokenAccount { key: key(ESCROW), owner: key(0x31), mint: key(MINT) }
}

fn treasury() -> TokenAccount {
    TokenAccount { key: key(TREASURY), owner: key(M), mint: key(MINT) }
}

fn wallet(owner: u8) -> TokenAccount {
    TokenAccount { key: key(owner + 0x40), owner: key(owner), mint: key(MINT) }
}

/// The entitlements of the example tree: (index, receiver, amount).
fn entitlements() -> Vec<(u64, u8, u64)> {
    vec![(0, 0xa1, 100), (1, 0xb2, 250), (2, 0xc3, 75), (3, U, 50)]
}

fn leaves() -> Vec<[u8; 32]> {
    entitlements().iter().map(|(i, r, a)| leaf_hash(*i, &key(*r), *a)).collect()
}

fn root() -> [u8; 32] {
    let l = leaves();
    hash_pair(&hash_pair(&l[0], &l[1]), &hash_pair(&l[2], &l[3]))
}

fn genuine_proof(position: usize) -> Vec<[u8; 32]> {
    let l = leaves();
    let n01 = hash_pair(&l[0], &l[1]);
    let n23 = hash_pair(&l[2], &l[3]);
    match position {
        0 => vec![l[1], n23],
        1 => vec![l[0], n23],
        2 => vec![l[3], n01],
        _ => vec![l[2], n01],
    }
}

fn fresh() -> Ledger {
    let mut deployment = None;
    initialize(&mut deployment, key(M), key(A));
    deployment.unwrap()
}

/// A ledger whose epoch 1 commits to the example tree and is funded with
/// `funding` tokens.
fn funded(funding: u64) -> Ledger {
    let mut ledger = fresh();
    add_epoch(&mut ledger, key(A), mint(), 254, root(), 1_000).unwrap();
    approve_epoch(&mut ledger, key(M), mint(), treasury(), escrow(), 1, funding).unwrap();
    ledger
}

fn claim_of(ledger: &mut Ledger, position: usize, now: i64) -> Result<(Transfer, ClaimedEvent), ClaimError> {
    let (index, receiver, amount) = entitlements()[position];
    claim(ledger, key(receiver), wallet(receiver), mint(), 1, index, amount, genuine_proof(position), now)
}

fn snapshot(ledger: &Ledger) -> (RewardsAccount, Vec<Option<EpochAccount>>, Vec<Option<u64>>, Vec<Option<ClaimStatus>>) {
    (
        ledger.rewards_account(),
        (0..4).map(|e| ledger.epoch_account(e)).collect(),
        (0..4).map(|e| ledger.escrow_balance(e)).collect(),
        (0..5).map(|i| ledger.claim_status(1, i)).collect(),
    )
}

#[test]
fn initialize_creates_an_empty_active_ledger() {
    let mut deployment = None;
    let event = initialize(&mut deployment, key(M), key(A));
    assert_eq!(event, Some(Initialized { manager: key(M), agent: key(A), current_epoch_nr: 0 }));
    let ledger = deployment.unwrap();
    assert_eq!(
        ledger.rewards_account(),
        RewardsAccount {
            manager: key(M),
            proposed_manager: Pubkey::zero(),
            agent: key(A),
            current_epoch_nr: 0,
            current_approved_epoch: 0,
            epoch_length: 0,
            is_paused: false,
        }
    );
    assert_eq!(ledger.epoch_account(0), None);
    assert_eq!(ledger.epoch_account(1), None);
    assert_eq!(ledger.funded(1), None);
    assert_eq!(ledger.escrow_balance(1), None);
    assert_eq!(ledger.claim_status(1, 0), None);
}

#[test]
fn initialize_fails_where_a_ledger_exists() {
    let mut deployment = Some(funded(1000));
    assert_eq!(initialize(&mut deployment, key(0x77), key(0x78)), None);
    let ledger = deployment.unwrap();
    assert_eq!(ledger.rewards_account().manager, key(M));
    assert_eq!(ledger.rewards_account().agent, key(A));
    assert_eq!(ledger.rewards_account().current_epoch_nr, 1);
    assert_eq!(ledger.funded(1), Some(1000));
}

#[test]
fn example_scenario() {
    let mut ledger = fresh();
    assert_eq!(ledger.rewards_account().current_epoch_nr, 0);

    assert_eq!(
        add_epoch(&mut ledger, key(A), mint(), 254, root(), 1_000),
        Ok(EpochCreated { epoch_nr: 1, hash: root(), timestamp: 1_000 })
    );
    let draft = ledger.epoch_account(1).unwrap();
    assert_eq!(draft.epoch_nr, 1);
    assert!(!draft.is_approved);

    assert_eq!(
        add_epoch(&mut ledger, key(A), mint(), 254, [2u8; 32], 1_001),
        Err(ErrorCode::PreviousEpochIsNotApproved)
    );

    assert_eq!(
        approve_epoch(&mut ledger, key(M), mint(), treasury(), escrow(), 1, 1000),
        Ok((
            Transfer {
                from: key(TREASURY),
                to: key(ESCROW),
                authority: Authority::Signer { key: key(M) },
                amount: 1000,
            },
            EpochApproved { epoch_nr: 1 },
        ))
    );
    assert!(ledger.epoch_account(1).unwrap().is_approved);
    assert_eq!(ledger.funded(1), Some(1000));
    assert_eq!(ledger.escrow_balance(1), Some(1000));

    assert_eq!(
        claim_of(&mut ledger, 3, 2_000),
        Ok((
            Transfer {
                from: key(ESCROW),
                to: wallet(U).key,
                authority: Authority::Epoch { epoch_nr: 1, bump: 254 },
                amount: 50,
            },
            ClaimedEvent { index: 3, receiver: key(U), amount: 50 },
        ))
    );
    assert_eq!(ledger.epoch_account(1).unwrap().total_amount_claimed, 50);
    assert_eq!(ledger.epoch_account(1).unwrap().num_nodes_claimed, 1);
    assert_eq!(ledger.escrow_balance(1), Some(950));
    assert_eq!(
        ledger.claim_status(1, 3),
        Some(ClaimStatus { is_claimed: true, receiver: key(U), claimed_at: 2_000, amount: 50 })
    );

    assert_eq!(
        claim_of(&mut ledger, 3, 2_001),
        Err(ClaimError::Rejected(ErrorCode::DropAlreadyClaimed))
    );

    assert_eq!(pause(&mut ledger, key(M)), Ok(Paused { is_paused: true }));
    assert_eq!(
        claim_of(&mut ledger, 0, 2_002),
        Err(ClaimError::Rejected(ErrorCode::ShouldNotBePaused))
    );
    assert_eq!(unpause(&mut ledger, key(M)), Ok(Paused { is_paused: false }));
    assert!(claim_of(&mut ledger, 0, 2_003).is_ok());
    assert_eq!(ledger.epoch_account(1).unwrap().total_amount_claimed, 150);
}

#[test]
fn two_phase_transfer_of_the_manager_role() {
    let mut ledger = fresh();
    assert_eq!(
        propose_manager(&mut ledger, key(M), key(9)),
        Ok(NewProposedManager { proposed_manager: key(9) })
    );
    assert_eq!(ledger.rewards_account().manager, key(M));
    assert_eq!(ledger.rewards_account().proposed_manager, key(9));
    assert_eq!(accept_manager(&mut ledger, key(M)), Err(ErrorCode::Unauthorized));
    assert_eq!(accept_manager(&mut ledger, key(9)), Ok(ManagerUpdated { new_manager: key(9) }));
    assert_eq!(ledger.rewards_account().manager, key(9));
    assert_eq!(ledger.rewards_account().proposed_manager, Pubkey::zero());
    assert_eq!(propose_manager(&mut ledger, key(M), key(7)), Err(ErrorCode::Unauthorized));
    assert_eq!(pause(&mut ledger, key(M)), Err(ErrorCode::Unauthorized));
    assert_eq!(pause(&mut ledger, key(9)), Ok(Paused { is_paused: true }));
}

#[test]
fn change_agent_moves_the_epoch_rights() {
    let mut ledger = fresh();
    assert_eq!(change_agent(&mut ledger, key(A), key(5)), Err(ErrorCode::Unauthorized));
    assert_eq!(change_agent(&mut ledger, key(M), key(5)), Ok(AgentChanged { new_agent: key(5) }));
    assert_eq!(ledger.rewards_account().agent, key(5));
    assert_eq!(
        add_epoch(&mut ledger, key(A), mint(), 254, root(), 0),
        Err(ErrorCode::Unauthorized)
    );
    assert!(add_epoch(&mut ledger, key(5), mint(), 254, root(), 0).is_ok());
}

#[test]
fn epochs_are_numbered_in_sequence() {
    let mut ledger = fresh();
    for n in 1..=3u64 {
        assert_eq!(
            add_epoch(&mut ledger, key(A), mint(), 254, [n as u8; 32], 10),
            Ok(EpochCreated { epoch_nr: n, hash: [n as u8; 32], timestamp: 10 })
        );
        assert_eq!(ledger.rewards_account().current_epoch_nr, n);
        assert_eq!(ledger.rewards_account().current_approved_epoch, n - 1);
        assert_eq!(
            add_epoch(&mut ledger, key(A), mint(), 254, [0u8; 32], 10),
            Err(ErrorCode::PreviousEpochIsNotApproved)
        );
        assert!(approve_epoch(&mut ledger, key(M), mint(), treasury(), escrow(), n, 10 * n).is_ok());
        assert_eq!(ledger.rewards_account().current_approved_epoch, n);
    }
    for n in 1..=3u64 {
        let epoch = ledger.epoch_account(n).unwrap();
        assert_eq!(epoch.epoch_nr, n);
        assert_eq!(epoch.hash, [n as u8; 32]);
        assert!(epoch.is_approved);
        assert_eq!(ledger.funded(n), Some(10 * n));
    }
    assert_eq!(ledger.epoch_account(4), None);
}

#[test]
fn correction_window_closes_with_approval() {
    let mut ledger = fresh();
    add_epoch(&mut ledger, key(A), mint(), 254, [1u8; 32], 0).unwrap();
    let other = Mint { key: key(0x77), decimals: 0 };
    assert_eq!(
        correct_epoch(&mut ledger, key(A), other, 1, root()),
        Ok(EpochCorrected { root: root(), epoch_nr: 1 })
    );
    let corrected = ledger.epoch_account(1).unwrap();
    assert_eq!(corrected.hash, root());
    assert_eq!(corrected.mint, key(0x77));
    assert_eq!(corrected.epoch_nr, 1);
    assert_eq!(ledger.rewards_account().current_epoch_nr, 1);
    assert!(correct_epoch(&mut ledger, key(A), mint(), 1, root()).is_ok());
    approve_epoch(&mut ledger, key(M), mint(), treasury(), escrow(), 1, 1000).unwrap();
    let before = snapshot(&ledger);
    assert_eq!(
        correct_epoch(&mut ledger, key(A), mint(), 1, [9u8; 32]),
        Err(ErrorCode::EpochShouldNotBeApproved)
    );
    assert_eq!(snapshot(&ledger), before);
    assert_eq!(ledger.epoch_account(1).unwrap().hash, root());
}

#[test]
fn correct_epoch_needs_an_existing_epoch() {
    let mut ledger = fresh();
    assert_eq!(
        correct_epoch(&mut ledger, key(A), mint(), 0, root()),
        Err(ErrorCode::InvalidEpochNr)
    );
    assert_eq!(
        correct_epoch(&mut ledger, key(A), mint(), 1, root()),
        Err(ErrorCode::InvalidEpochNr)
    );
    assert_eq!(correct_epoch(&mut ledger, key(M), mint(), 1, root()), Err(ErrorCode::Unauthorized));
}

#[test]
fn approval_cannot_be_repeated() {
    let mut ledger = funded(1000);
    let before = snapshot(&ledger);
    assert_eq!(
        approve_epoch(&mut ledger, key(M), mint(), treasury(), escrow(), 1, 500),
        Err(ErrorCode::EpochShouldNotBeApproved)
    );
    assert_eq!(snapshot(&ledger), before);
    assert_eq!(ledger.funded(1), Some(1000));
    add_epoch(&mut ledger, key(A), mint(), 254, [2u8; 32], 0).unwrap();
    assert_eq!(
        approve_epoch(&mut ledger, key(M), mint(), treasury(), escrow(), 1, 500),
        Err(ErrorCode::InvalidEpochNr)
    );
    assert!(ledger.epoch_account(1).unwrap().is_approved);
}

#[test]
fn approve_epoch_rejections() {
    let mut ledger = fresh();
    assert_eq!(
        approve_epoch(&mut ledger, key(M), mint(), treasury(), escrow(), 0, 1),
        Err(ErrorCode::InvalidEpochNr)
    );
    assert_eq!(
        approve_epoch(&mut ledger, key(M), mint(), treasury(), escrow(), 1, 1),
        Err(ErrorCode::InvalidEpochNr)
    );
    add_epoch(&mut ledger, key(A), mint(), 254, root(), 0).unwrap();
    assert_eq!(
        approve_epoch(&mut ledger, key(A), mint(), treasury(), escrow(), 1, 1),
        Err(ErrorCode::Unauthorized)
    );
    let other = Mint { key: key(0x77), decimals: 0 };
    assert_eq!(
        approve_epoch(&mut ledger, key(M), other, treasury(), escrow(), 1, 1),
        Err(ErrorCode::InvalidMintAccount)
    );
    assert!(!ledger.epoch_account(1).unwrap().is_approved);
    assert_eq!(ledger.funded(1), Some(0));
}

#[test]
fn approve_epoch_scales_the_funding_by_the_decimals() {
    let mut ledger = fresh();
    let six = Mint { key: key(MINT), decimals: 6 };
    add_epoch(&mut ledger, key(A), six, 254, root(), 0).unwrap();
    let (funding, _) = approve_epoch(&mut ledger, key(M), six, treasury(), escrow(), 1, 1000).unwrap();
    assert_eq!(funding.amount, 1_000_000_000);
    assert_eq!(ledger.funded(1), Some(1_000_000_000));
    assert_eq!(ledger.escrow_balance(1), Some(1_000_000_000));
}

#[test]
fn claim_succeeds_at_most_once() {
    let mut ledger = funded(1000);
    assert!(claim_of(&mut ledger, 3, 5).is_ok());
    let before = snapshot(&ledger);
    assert_eq!(claim_of(&mut ledger, 3, 6), Err(ClaimError::Rejected(ErrorCode::DropAlreadyClaimed)));
    assert_eq!(
        claim(&mut ledger, key(U), wallet(U), mint(), 1, 3, 50, vec![[7u8; 32]], 6),
        Err(ClaimError::Rejected(ErrorCode::DropAlreadyClaimed))
    );
    assert_eq!(
        claim(&mut ledger, key(0xa1), wallet(0xa1), mint(), 1, 3, 999, Vec::new(), 6),
        Err(ClaimError::Rejected(ErrorCode::DropAlreadyClaimed))
    );
    assert_eq!(snapshot(&ledger), before);
    assert!(claim_of(&mut ledger, 0, 7).is_ok());
    assert!(claim_of(&mut ledger, 1, 8).is_ok());
    add_epoch(&mut ledger, key(A), mint(), 254, [2u8; 32], 0).unwrap();
    assert_eq!(claim_of(&mut ledger, 3, 9), Err(ClaimError::Rejected(ErrorCode::DropAlreadyClaimed)));
    assert_eq!(
        ledger.claim_status(1, 3),
        Some(ClaimStatus { is_claimed: true, receiver: key(U), claimed_at: 5, amount: 50 })
    );
}

#[test]
fn every_entitlement_can_be_claimed_once() {
    let mut ledger = funded(1000);
    let mut total = 0;
    for position in 0..4 {
        let (index, receiver, amount) = entitlements()[position];
        let (payout, event) = claim_of(&mut ledger, position, 100 + position as i64).unwrap();
        total += amount;
        assert_eq!(payout.amount, amount);
        assert_eq!(payout.from, key(ESCROW));
        assert_eq!(payout.to, wallet(receiver).key);
        assert_eq!(event, ClaimedEvent { index, receiver: key(receiver), amount });
        let epoch = ledger.epoch_account(1).unwrap();
        assert_eq!(epoch.total_amount_claimed, total);
        assert_eq!(epoch.num_nodes_claimed, position as u64 + 1);
        assert_eq!(ledger.escrow_balance(1), Some(1000 - total));
    }
    assert_eq!(total, 475);
}

#[test]
fn claims_never_exceed_the_funding() {
    let mut ledger = funded(300);
    assert!(claim_of(&mut ledger, 1, 1).is_ok());
    assert_eq!(ledger.escrow_balance(1), Some(50));
    let before = snapshot(&ledger);
    assert_eq!(claim_of(&mut ledger, 0, 2), Err(ClaimError::InsufficientFunds));
    assert_eq!(claim_of(&mut ledger, 2, 2), Err(ClaimError::InsufficientFunds));
    assert_eq!(snapshot(&ledger), before);
    assert_eq!(ledger.claim_status(1, 0), None);
    assert!(claim_of(&mut ledger, 3, 3).is_ok());
    assert_eq!(ledger.escrow_balance(1), Some(0));
    assert_eq!(ledger.epoch_account(1).unwrap().total_amount_claimed, 300);
    assert_eq!(claim_of(&mut ledger, 2, 4), Err(ClaimError::InsufficientFunds));
    assert!(ledger.epoch_account(1).unwrap().total_amount_claimed <= ledger.funded(1).unwrap());
}

#[test]
fn an_unfunded_epoch_pays_nothing() {
    let mut ledger = funded(0);
    assert_eq!(claim_of(&mut ledger, 3, 1), Err(ClaimError::InsufficientFunds));
    assert_eq!(ledger.epoch_account(1).unwrap().total_amount_claimed, 0);
}

#[test]
fn claim_rejections() {
    let mut ledger = fresh();
    assert_eq!(claim_of(&mut ledger, 3, 1), Err(ClaimError::Rejected(ErrorCode::InvalidEpochNr)));
    add_epoch(&mut ledger, key(A), mint(), 254, root(), 0).unwrap();
    assert_eq!(
        claim_of(&mut ledger, 3, 1),
        Err(ClaimError::Rejected(ErrorCode::EpochShouldBeApproved))
    );
    approve_epoch(&mut ledger, key(M), mint(), treasury(), escrow(), 1, 1000).unwrap();
    let before = snapshot(&ledger);
    assert_eq!(
        claim(&mut ledger, key(U), wallet(U), mint(), 0, 3, 50, genuine_proof(3), 1),
        Err(ClaimError::Rejected(ErrorCode::InvalidEpochNr))
    );
    assert_eq!(
        claim(&mut ledger, key(U), wallet(U), mint(), 2, 3, 50, genuine_proof(3), 1),
        Err(ClaimError::Rejected(ErrorCode::InvalidEpochNr))
    );
    let other = Mint { key: key(0x77), decimals: 0 };
    assert_eq!(
        claim(&mut ledger, key(U), wallet(U), other, 1, 3, 50, genuine_proof(3), 1),
        Err(ClaimError::Rejected(ErrorCode::InvalidMintAccount))
    );
    assert_eq!(
        claim(&mut ledger, key(U), wallet(U), mint(), 1, 3, 51, genuine_proof(3), 1),
        Err(ClaimError::Rejected(ErrorCode::InvalidProof))
    );
    assert_eq!(
        claim(&mut ledger, key(0xa1), wallet(0xa1), mint(), 1, 3, 50, genuine_proof(3), 1),
        Err(ClaimError::Rejected(ErrorCode::InvalidProof))
    );
    assert_eq!(
        claim(&mut ledger, key(U), wallet(0xa1), mint(), 1, 3, 50, genuine_proof(3), 1),
        Err(ClaimError::Rejected(ErrorCode::OwnerMismatch))
    );
    assert_eq!(
        claim(&mut ledger, key(U), escrow(), mint(), 1, 3, 50, genuine_proof(3), 1),
        Err(ClaimError::Rejected(ErrorCode::OwnerMismatch))
    );
    assert_eq!(snapshot(&ledger), before);
    assert!(claim_of(&mut ledger, 3, 1).is_ok());
}

#[test]
fn settle_claim_follows_the_verdict() {
    let mut ledger = funded(1000);
    let before = snapshot(&ledger);
    assert_eq!(
        settle_claim(&mut ledger, key(U), wallet(U), mint(), 1, 3, 50, false, 1),
        Err(ClaimError::Rejected(ErrorCode::InvalidProof))
    );
    assert_eq!(snapshot(&ledger), before);
    assert_eq!(
        settle_claim(&mut ledger, key(U), wallet(U), mint(), 1, 3, 50, true, 1),
        Ok((
            Transfer {
                from: key(ESCROW),
                to: wallet(U).key,
                authority: Authority::Epoch { epoch_nr: 1, bump: 254 },
                amount: 50,
            },
            ClaimedEvent { index: 3, receiver: key(U), amount: 50 },
        ))
    );
    assert_eq!(
        settle_claim(&mut ledger, key(U), wallet(U), mint(), 1, 3, 50, true, 2),
        Err(ClaimError::Rejected(ErrorCode::DropAlreadyClaimed))
    );
    assert_eq!(
        settle_claim(&mut ledger, key(U), wallet(U), mint(), 1, 4, 951, true, 2),
        Err(ClaimError::InsufficientFunds)
    );
    assert!(settle_claim(&mut ledger, key(U), wallet(U), mint(), 1, 4, 950, true, 2).is_ok());
    assert_eq!(ledger.escrow_balance(1), Some(0));
}

#[test]
fn pause_gates_every_operation_but_unpause() {
    let mut ledger = funded(1000);
    propose_manager(&mut ledger, key(M), key(9)).unwrap();
    assert_eq!(pause(&mut ledger, key(M)), Ok(Paused { is_paused: true }));
    let before = snapshot(&ledger);
    assert_eq!(propose_manager(&mut ledger, key(M), key(7)), Err(ErrorCode::ShouldNotBePaused));
    assert_eq!(accept_manager(&mut ledger, key(9)), Err(ErrorCode::ShouldNotBePaused));
    assert_eq!(change_agent(&mut ledger, key(M), key(7)), Err(ErrorCode::ShouldNotBePaused));
    assert_eq!(pause(&mut ledger, key(M)), Err(ErrorCode::ShouldNotBePaused));
    assert_eq!(
        add_epoch(&mut ledger, key(A), mint(), 254, [2u8; 32], 0),
        Err(ErrorCode::ShouldNotBePaused)
    );
    assert_eq!(
        correct_epoch(&mut ledger, key(A), mint(), 1, [2u8; 32]),
        Err(ErrorCode::ShouldNotBePaused)
    );
    assert_eq!(
        approve_epoch(&mut ledger, key(M), mint(), treasury(), escrow(), 1, 5),
        Err(ErrorCode::ShouldNotBePaused)
    );
    assert_eq!(claim_of(&mut ledger, 3, 1), Err(ClaimError::Rejected(ErrorCode::ShouldNotBePaused)));
    assert_eq!(
        claim(&mut ledger, key(U), wallet(U), mint(), 7, 3, 50, genuine_proof(3), 1),
        Err(ClaimError::Rejected(ErrorCode::ShouldNotBePaused))
    );
    assert_eq!(snapshot(&ledger), before);
    assert_eq!(unpause(&mut ledger, key(A)), Err(ErrorCode::Unauthorized));
    assert_eq!(unpause(&mut ledger, key(M)), Ok(Paused { is_paused: false }));
    assert_eq!(unpause(&mut ledger, key(M)), Err(ErrorCode::ShouldBePaused));
    assert!(claim_of(&mut ledger, 3, 1).is_ok());
}

#[test]
fn a_stranger_is_unauthorized_even_while_paused() {
    let mut ledger = fresh();
    pause(&mut ledger, key(M)).unwrap();
    assert_eq!(pause(&mut ledger, key(A)), Err(ErrorCode::Unauthorized));
    assert_eq!(
        add_epoch(&mut ledger, key(M), mint(), 254, [2u8; 32], 0),
        Err(ErrorCode::Unauthorized)
    );
}

#[test]
fn claims_in_different_epochs_are_kept_apart() {
    let mut ledger = funded(1000);
    add_epoch(&mut ledger, key(A), mint(), 253, root(), 0).unwrap();
    approve_epoch(&mut ledger, key(M), mint(), treasury(), escrow(), 2, 60).unwrap();
    assert!(claim_of(&mut ledger, 3, 1).is_ok());
    let (payout, _) =
        claim(&mut ledger, key(U), wallet(U), mint(), 2, 3, 50, genuine_proof(3), 2).unwrap();
    assert_eq!(payout.authority, Authority::Epoch { epoch_nr: 2, bump: 253 });
    assert_eq!(ledger.escrow_balance(1), Some(950));
    assert_eq!(ledger.escrow_balance(2), Some(10));
    assert_eq!(ledger.claim_status(2, 3).unwrap().claimed_at, 2);
    assert_eq!(ledger.claim_status(1, 3).unwrap().claimed_at, 1);
    assert_eq!(ledger.claim_status(2, 0), None);
    assert_eq!(
        claim(&mut ledger, key(0xa1), wallet(0xa1), mint(), 2, 0, 100, genuine_proof(0), 3),
        Err(ClaimError::InsufficientFunds)
    );
}
