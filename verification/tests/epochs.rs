use rewards_distributor::errors::ErrorCode;
use rewards_distributor::events::{EpochApproved, EpochCorrected, EpochCreated};
use rewards_distributor::instructions::approve_epoch::{pow10, scalable, scale_amount};
use rewards_distributor::instructions::{
    add_epoch_handler, approve_epoch_handler, correct_epoch_handler, AddEpoch, ApproveEpoch,
    CorrectEpoch,
};
use rewards_distributor::pubkey::Pubkey;
use rewards_distributor::state::{
    Authority, EpochAccount, Mint, RewardsAccount, TokenAccount, Transfer,
};

fn key(byte: u8) -> Pubkey {
    Pubkey::new_from_array([byte; 32])
}

const MANAGER: u8 = 1;
const AGENT: u8 = 2;
const MINT: u8 = 8;

fn governance(current: u64, approved: u64) -> RewardsAccount {
    RewardsAccount {
        manager: key(MANAGER),
        proposed_manager: Pubkey::zero(),
        agent: key(AGENT),
        current_epoch_nr: current,
        current_approved_epoch: approved,
        epoch_length: 0,
        is_paused: false,
    }
}

fn mint() -> Mint {
    Mint { key: key(MINT), decimals: 6 }
}

fn draft(epoch_nr: u64) -> EpochAccount {
    EpochAccount {
        epoch_nr,
        is_approved: false,
        hash: [0x5a; 32],
        bump: 255,
        mint: key(MINT),
        total_amount_claimed: 0,
        num_nodes_claimed: 0,
    }
}

fn token_account(address: u8, owner: u8) -> TokenAccount {
    TokenAccount { key: key(address), owner: key(owner), mint: key(MINT) }
}

fn add_ctx(rewards_account: RewardsAccount, agent: u8) -> AddEpoch {
    AddEpoch {
        rewards_account,
        current_epoch_account: EpochAccount::default(),
        mint: mint(),
        agent: key(agent),
    }
}

fn approve_ctx(rewards_account: RewardsAccount, epoch_account: EpochAccount, manager: u8) -> ApproveEpoch {
    ApproveEpoch {
        rewards_account,
        epoch_account,
        manager: key(manager),
        epoch_token_account: token_account(0x30, 0x31),
        manager_token_account: token_account(0x40, MANAGER),
        mint_account: mint(),
    }
}

#[test]
fn default_epoch_account_is_blank() {
    let blank = EpochAccount::default();
    assert_eq!(blank.epoch_nr, 0);
    assert!(!blank.is_approved);
    assert_eq!(blank.hash, [0u8; 32]);
    assert_eq!(blank.bump, 0);
    assert_eq!(blank.mint, Pubkey::zero());
    assert_eq!(blank.total_amount_claimed, 0);
    assert_eq!(blank.num_nodes_claimed, 0);
}

#[test]
fn add_epoch_creates_the_first_epoch() {
    let mut ctx = add_ctx(governance(0, 0), AGENT);
    let outcome = add_epoch_handler(&mut ctx, 255, [0x5a; 32], 1_700_000_000);
    assert_eq!(
        outcome,
        Ok(EpochCreated { epoch_nr: 1, hash: [0x5a; 32], timestamp: 1_700_000_000 })
    );
    assert_eq!(ctx.rewards_account, governance(1, 0));
    assert_eq!(ctx.current_epoch_account, draft(1));
}

#[test]
fn add_epoch_takes_the_next_number_after_an_approval() {
    let mut ctx = add_ctx(governance(4, 4), AGENT);
    let outcome = add_epoch_handler(&mut ctx, 255, [0x5a; 32], -5);
    assert_eq!(outcome, Ok(EpochCreated { epoch_nr: 5, hash: [0x5a; 32], timestamp: -5 }));
    assert_eq!(ctx.rewards_account, governance(5, 4));
    assert_eq!(ctx.current_epoch_account, draft(5));
}

#[test]
fn add_epoch_overwrites_what_the_record_held() {
    let mut ctx = add_ctx(governance(0, 0), AGENT);
    ctx.current_epoch_account = EpochAccount {
        epoch_nr: 99,
        is_approved: true,
        total_amount_claimed: 7,
        num_nodes_claimed: 3,
        ..draft(99)
    };
    assert!(add_epoch_handler(&mut ctx, 255, [0x5a; 32], 0).is_ok());
    assert_eq!(ctx.current_epoch_account, draft(1));
}

#[test]
fn add_epoch_rejects_while_the_current_epoch_is_a_draft() {
    let mut ctx = add_ctx(governance(1, 0), AGENT);
    let before = ctx;
    assert_eq!(
        add_epoch_handler(&mut ctx, 255, [0x5a; 32], 0),
        Err(ErrorCode::PreviousEpochIsNotApproved)
    );
    assert_eq!(ctx, before);
}

#[test]
fn add_epoch_rejects_a_stranger() {
    let mut ctx = add_ctx(governance(0, 0), MANAGER);
    let before = ctx;
    assert_eq!(add_epoch_handler(&mut ctx, 255, [0x5a; 32], 0), Err(ErrorCode::Unauthorized));
    assert_eq!(ctx, before);
}

#[test]
fn add_epoch_rejects_while_paused() {
    let mut ctx = add_ctx(RewardsAccount { is_paused: true, ..governance(0, 0) }, AGENT);
    let before = ctx;
    assert_eq!(add_epoch_handler(&mut ctx, 255, [0x5a; 32], 0), Err(ErrorCode::ShouldNotBePaused));
    assert_eq!(ctx, before);
}

#[test]
fn add_epoch_reports_pause_before_sequencing() {
    let mut ctx = add_ctx(RewardsAccount { is_paused: true, ..governance(1, 0) }, AGENT);
    assert_eq!(add_epoch_handler(&mut ctx, 255, [0x5a; 32], 0), Err(ErrorCode::ShouldNotBePaused));
}

#[test]
fn correct_epoch_replaces_root_and_mint() {
    let mut ctx = CorrectEpoch {
        rewards_account: governance(1, 0),
        epoch_account: draft(1),
        mint: Mint { key: key(0x77), decimals: 9 },
        agent: key(AGENT),
    };
    assert_eq!(
        correct_epoch_handler(&mut ctx, 1, [0x6b; 32]),
        Ok(EpochCorrected { root: [0x6b; 32], epoch_nr: 1 })
    );
    assert_eq!(ctx.epoch_account, EpochAccount { hash: [0x6b; 32], mint: key(0x77), ..draft(1) });
    assert_eq!(ctx.rewards_account, governance(1, 0));
}

#[test]
fn correct_epoch_rejects_an_approved_epoch() {
    let approved = EpochAccount { is_approved: true, ..draft(1) };
    let mut ctx = CorrectEpoch {
        rewards_account: governance(1, 1),
        epoch_account: approved,
        mint: mint(),
        agent: key(AGENT),
    };
    assert_eq!(
        correct_epoch_handler(&mut ctx, 1, [0x6b; 32]),
        Err(ErrorCode::EpochShouldNotBeApproved)
    );
    assert_eq!(ctx.epoch_account, approved);
}

#[test]
fn correct_epoch_rejects_a_stranger_and_a_pause() {
    let mut by_manager = CorrectEpoch {
        rewards_account: governance(1, 0),
        epoch_account: draft(1),
        mint: mint(),
        agent: key(MANAGER),
    };
    assert_eq!(correct_epoch_handler(&mut by_manager, 1, [0x6b; 32]), Err(ErrorCode::Unauthorized));
    assert_eq!(by_manager.epoch_account, draft(1));
    let mut paused = CorrectEpoch {
        rewards_account: RewardsAccount { is_paused: true, ..governance(1, 0) },
        epoch_account: draft(1),
        mint: mint(),
        agent: key(AGENT),
    };
    assert_eq!(correct_epoch_handler(&mut paused, 1, [0x6b; 32]), Err(ErrorCode::ShouldNotBePaused));
    assert_eq!(paused.epoch_account, draft(1));
}

#[test]
fn correct_epoch_rejects_a_wrong_number() {
    let mut ctx = CorrectEpoch {
        rewards_account: governance(2, 1),
        epoch_account: draft(2),
        mint: mint(),
        agent: key(AGENT),
    };
    assert_eq!(correct_epoch_handler(&mut ctx, 1, [0x6b; 32]), Err(ErrorCode::InvalidEpochNr));
    assert_eq!(ctx.epoch_account, draft(2));
    let mut zero = CorrectEpoch {
        rewards_account: governance(0, 0),
        epoch_account: EpochAccount::default(),
        mint: mint(),
        agent: key(AGENT),
    };
    assert_eq!(correct_epoch_handler(&mut zero, 0, [0x6b; 32]), Err(ErrorCode::InvalidEpochNr));
}

#[test]
fn pow10_gives_powers_of_ten() {
    assert_eq!(pow10(0), 1);
    assert_eq!(pow10(1), 10);
    assert_eq!(pow10(6), 1_000_000);
    assert_eq!(pow10(19), 10_000_000_000_000_000_000);
}

#[test]
fn scale_amount_multiplies_by_the_unit() {
    assert_eq!(scale_amount(1000, 0), 1000);
    assert_eq!(scale_amount(1000, 6), 1_000_000_000);
    assert_eq!(scale_amount(0, 19), 0);
    assert_eq!(scale_amount(18, 18), 18_000_000_000_000_000_000);
}

#[test]
fn scalable_tells_what_fits() {
    assert!(scalable(1000, 6));
    assert!(scalable(u64::MAX, 0));
    assert!(!scalable(u64::MAX, 1));
    assert!(scalable(18, 18));
    assert!(!scalable(19, 18));
    assert!(scalable(1, 19));
    assert!(!scalable(2, 19));
    assert!(!scalable(0, 20));
    assert!(!scalable(1, 255));
}

#[test]
fn approve_epoch_approves_and_orders_the_funding() {
    let mut ctx = approve_ctx(governance(1, 0), draft(1), MANAGER);
    let outcome = approve_epoch_handler(&mut ctx, 1, 1000);
    assert_eq!(
        outcome,
        Ok((
            Transfer {
                from: key(0x40),
                to: key(0x30),
                authority: Authority::Signer { key: key(MANAGER) },
                amount: 1_000_000_000,
            },
            EpochApproved { epoch_nr: 1 },
        ))
    );
    assert_eq!(ctx.rewards_account, governance(1, 1));
    assert_eq!(ctx.epoch_account, EpochAccount { is_approved: true, ..draft(1) });
}

#[test]
fn approve_epoch_rejects_a_second_approval() {
    let approved = EpochAccount { is_approved: true, ..draft(1) };
    let mut ctx = approve_ctx(governance(1, 1), approved, MANAGER);
    let before = ctx;
    assert_eq!(approve_epoch_handler(&mut ctx, 1, 1000), Err(ErrorCode::EpochShouldNotBeApproved));
    assert_eq!(ctx, before);
}

#[test]
fn approve_epoch_rejects_a_stranger() {
    let mut ctx = approve_ctx(governance(1, 0), draft(1), AGENT);
    let before = ctx;
    assert_eq!(approve_epoch_handler(&mut ctx, 1, 1000), Err(ErrorCode::Unauthorized));
    assert_eq!(ctx, before);
}

#[test]
fn approve_epoch_rejects_while_paused() {
    let mut ctx =
        approve_ctx(RewardsAccount { is_paused: true, ..governance(1, 0) }, draft(1), MANAGER);
    let before = ctx;
    assert_eq!(approve_epoch_handler(&mut ctx, 1, 1000), Err(ErrorCode::ShouldNotBePaused));
    assert_eq!(ctx, before);
}

#[test]
fn approve_epoch_rejects_an_epoch_that_is_not_current() {
    let mut old = approve_ctx(governance(2, 1), draft(1), MANAGER);
    let before = old;
    assert_eq!(approve_epoch_handler(&mut old, 1, 1000), Err(ErrorCode::InvalidEpochNr));
    assert_eq!(old, before);
    let mut mismatched = approve_ctx(governance(2, 1), draft(1), MANAGER);
    assert_eq!(approve_epoch_handler(&mut mismatched, 2, 1000), Err(ErrorCode::InvalidEpochNr));
    let mut none = approve_ctx(governance(0, 0), EpochAccount::default(), MANAGER);
    assert_eq!(approve_epoch_handler(&mut none, 0, 1000), Err(ErrorCode::InvalidEpochNr));
}

#[test]
fn approve_epoch_rejects_a_wrong_mint() {
    let mut ctx = approve_ctx(governance(1, 0), draft(1), MANAGER);
    ctx.mint_account = Mint { key: key(0x99), decimals: 6 };
    let before = ctx;
    assert_eq!(approve_epoch_handler(&mut ctx, 1, 1000), Err(ErrorCode::InvalidMintAccount));
    assert_eq!(ctx, before);
}
