use escrow_contracts::account::{Account, Address, Transfer, Wallet};
use escrow_contracts::crowdfund::{
    donate, initialize, reclaim, withdraw, CampaignPDA, CustomError, DepositPDA, DonateCtx,
    InitializeCtx, ReclaimCtx, WithdrawCtx,
};
use escrow_contracts::error::ErrorKind;

const RESERVE: u64 = 1_000;

fn key(tag: u8) -> Address {
    Address::new([tag; 32])
}

fn wallet(tag: u8, lamports: u64) -> Wallet {
    Wallet { key: key(tag), lamports }
}

fn blank_campaign(lamports: u64) -> Account<CampaignPDA> {
    Account {
        key: key(100),
        lamports,
        data: CampaignPDA {
            campaign_name: String::new(),
            campaign_owner: key(0),
            end_donate_slot: 0,
            goal_in_lamports: 0,
        },
    }
}

fn campaign(owner: u8, end: u64, goal: u64, lamports: u64) -> Account<CampaignPDA> {
    Account {
        key: key(100),
        lamports,
        data: CampaignPDA {
            campaign_name: String::from("run"),
            campaign_owner: key(owner),
            end_donate_slot: end,
            goal_in_lamports: goal,
        },
    }
}

fn deposit(tag: u8, lamports: u64, total: u64) -> Account<DepositPDA> {
    Account { key: key(tag), lamports, data: DepositPDA { total_donated: total } }
}

#[test]
fn initialize_writes_the_record() {
    let mut ctx = InitializeCtx { campaign_owner: wallet(1, 50), campaign_pda: blank_campaign(RESERVE) };
    let r = initialize(&mut ctx, String::from("run"), 1000, 500, 10);
    assert_eq!(r, Ok(()));
    assert_eq!(ctx.campaign_pda.data.campaign_name, "run");
    assert_eq!(ctx.campaign_pda.data.campaign_owner, key(1));
    assert_eq!(ctx.campaign_pda.data.end_donate_slot, 1000);
    assert_eq!(ctx.campaign_pda.data.goal_in_lamports, 500);
    assert_eq!(ctx.campaign_pda.lamports, RESERVE);
    assert_eq!(ctx.campaign_pda.key, key(100));
    assert_eq!(ctx.campaign_owner, wallet(1, 50));
}

#[test]
fn initialize_refuses_a_zero_goal() {
    let mut ctx = InitializeCtx { campaign_owner: wallet(1, 50), campaign_pda: blank_campaign(RESERVE) };
    let before = ctx.clone();
    assert_eq!(initialize(&mut ctx, String::from("run"), 1000, 0, 10), Err(CustomError::InvalidAmount));
    assert_eq!(ctx, before);
}

#[test]
fn initialize_refuses_an_end_that_is_not_ahead() {
    let mut ctx = InitializeCtx { campaign_owner: wallet(1, 50), campaign_pda: blank_campaign(RESERVE) };
    let before = ctx.clone();
    assert_eq!(initialize(&mut ctx, String::from("run"), 10, 500, 10), Err(CustomError::InvalidEndSlot));
    assert_eq!(initialize(&mut ctx, String::from("run"), 9, 500, 10), Err(CustomError::InvalidEndSlot));
    assert_eq!(ctx, before);
    assert_eq!(initialize(&mut ctx, String::from("run"), 11, 500, 10), Ok(()));
}

#[test]
fn initialize_checks_the_goal_before_the_end() {
    let mut ctx = InitializeCtx { campaign_owner: wallet(1, 50), campaign_pda: blank_campaign(RESERVE) };
    assert_eq!(initialize(&mut ctx, String::from("run"), 5, 0, 10), Err(CustomError::InvalidAmount));
}

#[test]
fn donate_counts_the_gift_and_orders_the_transfer() {
    let mut ctx = DonateCtx {
        donor: wallet(2, 900),
        campaign_pda: campaign(1, 1000, 500, RESERVE),
        deposit_pda: deposit(20, 7, 0),
    };
    let r = donate(&mut ctx, String::from("run"), 200, 20);
    assert_eq!(r, Ok(Transfer { from: key(2), to: key(100), lamports: 200 }));
    assert_eq!(ctx.deposit_pda.data.total_donated, 200);
    assert_eq!(ctx.deposit_pda.lamports, 7);
    assert_eq!(ctx.donor, wallet(2, 900));
    assert_eq!(ctx.campaign_pda, campaign(1, 1000, 500, RESERVE));
}

#[test]
fn donate_adds_to_an_earlier_count() {
    let mut ctx = DonateCtx {
        donor: wallet(2, 900),
        campaign_pda: campaign(1, 1000, 500, RESERVE),
        deposit_pda: deposit(20, 7, 150),
    };
    assert_eq!(donate(&mut ctx, String::from("run"), 25, 20), Ok(Transfer { from: key(2), to: key(100), lamports: 25 }));
    assert_eq!(ctx.deposit_pda.data.total_donated, 175);
}

#[test]
fn donate_refuses_a_zero_amount() {
    let mut ctx = DonateCtx {
        donor: wallet(2, 900),
        campaign_pda: campaign(1, 1000, 500, RESERVE),
        deposit_pda: deposit(20, 7, 150),
    };
    let before = ctx.clone();
    assert_eq!(donate(&mut ctx, String::from("run"), 0, 20), Err(CustomError::InvalidAmount));
    assert_eq!(ctx, before);
}

#[test]
fn donate_is_taken_in_the_last_slot_and_not_after() {
    let mut ctx = DonateCtx {
        donor: wallet(2, 900),
        campaign_pda: campaign(1, 1000, 500, RESERVE),
        deposit_pda: deposit(20, 7, 0),
    };
    assert!(donate(&mut ctx, String::from("run"), 5, 1000).is_ok());
    let before = ctx.clone();
    assert_eq!(donate(&mut ctx, String::from("run"), 5, 1001), Err(CustomError::TimeoutReached));
    assert_eq!(ctx, before);
}

#[test]
fn donate_refuses_a_count_that_would_overflow() {
    let mut ctx = DonateCtx {
        donor: wallet(2, 900),
        campaign_pda: campaign(1, 1000, 500, RESERVE),
        deposit_pda: deposit(20, 7, u64::MAX - 4),
    };
    let before = ctx.clone();
    assert_eq!(donate(&mut ctx, String::from("run"), 5, 20), Err(CustomError::DonationOverflow));
    assert_eq!(ctx, before);
    assert_eq!(donate(&mut ctx, String::from("run"), 4, 20), Ok(Transfer { from: key(2), to: key(100), lamports: 4 }));
    assert_eq!(ctx.deposit_pda.data.total_donated, u64::MAX);
}

#[test]
fn withdraw_pays_everything_to_the_owner() {
    let mut ctx = WithdrawCtx {
        campaign_owner: wallet(1, 40),
        campaign_pda: campaign(1, 1000, 500, RESERVE + 500),
    };
    assert_eq!(withdraw(&mut ctx, String::from("run"), 1000, RESERVE), Ok(()));
    assert_eq!(ctx.campaign_owner.lamports, 40 + RESERVE + 500);
    assert_eq!(ctx.campaign_pda.lamports, 0);
    assert_eq!(ctx.campaign_pda.data, campaign(1, 1000, 500, 0).data);
}

#[test]
fn withdraw_refuses_anybody_but_the_owner() {
    let mut ctx = WithdrawCtx {
        campaign_owner: wallet(9, 40),
        campaign_pda: campaign(1, 1000, 500, RESERVE + 500),
    };
    let before = ctx.clone();
    assert_eq!(withdraw(&mut ctx, String::from("run"), 1000, RESERVE), Err(CustomError::UnauthorizedOwner));
    assert_eq!(withdraw(&mut ctx, String::from("run"), 5, RESERVE), Err(CustomError::UnauthorizedOwner));
    assert_eq!(ctx, before);
}

#[test]
fn withdraw_refuses_before_the_end_whatever_the_balance() {
    for lamports in [0, RESERVE, RESERVE + 500, u64::MAX] {
        let mut ctx = WithdrawCtx {
            campaign_owner: wallet(1, 0),
            campaign_pda: campaign(1, 1000, 500, lamports),
        };
        let before = ctx.clone();
        assert_eq!(withdraw(&mut ctx, String::from("run"), 999, RESERVE), Err(CustomError::TimeoutNotReached));
        assert_eq!(ctx, before);
    }
}

#[test]
fn withdraw_refuses_a_balance_under_the_reserve() {
    let mut ctx = WithdrawCtx {
        campaign_owner: wallet(1, 40),
        campaign_pda: campaign(1, 1000, 500, RESERVE - 1),
    };
    let before = ctx.clone();
    assert_eq!(withdraw(&mut ctx, String::from("run"), 1000, RESERVE), Err(CustomError::InvalidBalance));
    assert_eq!(ctx, before);
}

#[test]
fn withdraw_refuses_a_campaign_short_of_its_goal() {
    let mut ctx = WithdrawCtx {
        campaign_owner: wallet(1, 40),
        campaign_pda: campaign(1, 1000, 500, RESERVE + 499),
    };
    let before = ctx.clone();
    assert_eq!(withdraw(&mut ctx, String::from("run"), 2000, RESERVE), Err(CustomError::GoalNotReached));
    assert_eq!(ctx, before);
}

#[test]
fn withdraw_refuses_a_payout_the_owner_cannot_hold() {
    let mut ctx = WithdrawCtx {
        campaign_owner: wallet(1, u64::MAX - 1_499),
        campaign_pda: campaign(1, 1000, 500, RESERVE + 500),
    };
    let before = ctx.clone();
    assert_eq!(withdraw(&mut ctx, String::from("run"), 1000, RESERVE), Err(CustomError::OverflowError));
    assert_eq!(ctx, before);
    ctx.campaign_owner.lamports = u64::MAX - 1_500;
    assert_eq!(withdraw(&mut ctx, String::from("run"), 1000, RESERVE), Ok(()));
    assert_eq!(ctx.campaign_owner.lamports, u64::MAX);
}

#[test]
fn reclaim_refunds_the_gifts_and_the_deposit_reserve() {
    let mut ctx = ReclaimCtx {
        donor: wallet(2, 30),
        campaign_pda: campaign(1, 1000, 500, RESERVE + 450),
        deposit_pda: deposit(20, 7, 200),
    };
    assert_eq!(reclaim(&mut ctx, String::from("run"), 1000, RESERVE), Ok(()));
    assert_eq!(ctx.donor.lamports, 30 + 7 + 200);
    assert_eq!(ctx.campaign_pda.lamports, RESERVE + 250);
    assert_eq!(ctx.deposit_pda.lamports, 0);
    assert_eq!(ctx.deposit_pda.data.total_donated, 0);
    assert_eq!(ctx.deposit_pda.key, key(20));
    assert_eq!(ctx.campaign_pda.data, campaign(1, 1000, 500, 0).data);
}

#[test]
fn reclaim_refuses_before_the_end() {
    let mut ctx = ReclaimCtx {
        donor: wallet(2, 30),
        campaign_pda: campaign(1, 1000, 500, RESERVE + 450),
        deposit_pda: deposit(20, 7, 200),
    };
    let before = ctx.clone();
    assert_eq!(reclaim(&mut ctx, String::from("run"), 999, RESERVE), Err(CustomError::TimeoutNotReached));
    assert_eq!(ctx, before);
}

#[test]
fn reclaim_refuses_a_balance_under_the_reserve() {
    let mut ctx = ReclaimCtx {
        donor: wallet(2, 30),
        campaign_pda: campaign(1, 1000, 500, RESERVE - 1),
        deposit_pda: deposit(20, 7, 200),
    };
    let before = ctx.clone();
    assert_eq!(reclaim(&mut ctx, String::from("run"), 1000, RESERVE), Err(CustomError::InvalidBalance));
    assert_eq!(ctx, before);
}

#[test]
fn reclaim_refuses_once_the_goal_is_reached() {
    let mut ctx = ReclaimCtx {
        donor: wallet(2, 30),
        campaign_pda: campaign(1, 1000, 500, RESERVE + 500),
        deposit_pda: deposit(20, 7, 200),
    };
    let before = ctx.clone();
    assert_eq!(reclaim(&mut ctx, String::from("run"), 1000, RESERVE), Err(CustomError::GoalReached));
    assert_eq!(ctx, before);
}

#[test]
fn reclaim_refuses_an_empty_deposit() {
    let mut ctx = ReclaimCtx {
        donor: wallet(2, 30),
        campaign_pda: campaign(1, 1000, 500, RESERVE + 450),
        deposit_pda: deposit(20, 7, 0),
    };
    let before = ctx.clone();
    assert_eq!(reclaim(&mut ctx, String::from("run"), 1000, RESERVE), Err(CustomError::NoFundsToReclaim));
    assert_eq!(ctx, before);
}

#[test]
fn reclaim_refuses_what_the_campaign_cannot_pay() {
    let mut ctx = ReclaimCtx {
        donor: wallet(2, 30),
        campaign_pda: campaign(1, 1000, 5_000, RESERVE + 450),
        deposit_pda: deposit(20, 7, RESERVE + 451),
    };
    let before = ctx.clone();
    assert_eq!(reclaim(&mut ctx, String::from("run"), 1000, RESERVE), Err(CustomError::InsufficientCampaignFunds));
    assert_eq!(ctx, before);
}

#[test]
fn reclaim_refuses_a_refund_the_donor_cannot_hold() {
    let mut ctx = ReclaimCtx {
        donor: wallet(2, u64::MAX - 206),
        campaign_pda: campaign(1, 1000, 500, RESERVE + 450),
        deposit_pda: deposit(20, 7, 200),
    };
    let before = ctx.clone();
    assert_eq!(reclaim(&mut ctx, String::from("run"), 1000, RESERVE), Err(CustomError::OverflowError));
    assert_eq!(ctx, before);
    ctx.donor.lamports = u64::MAX - 207;
    assert_eq!(reclaim(&mut ctx, String::from("run"), 1000, RESERVE), Ok(()));
    assert_eq!(ctx.donor.lamports, u64::MAX);
}

#[test]
fn last_slot_takes_a_donation_a_withdrawal_and_a_reclaim() {
    let mut giving = DonateCtx {
        donor: wallet(2, 900),
        campaign_pda: campaign(1, 1000, 500, RESERVE + 499),
        deposit_pda: deposit(20, 7, 499),
    };
    let order = donate(&mut giving, String::from("run"), 1, 1000).unwrap();
    let mut campaign_account = giving.campaign_pda.clone();
    assert!(order.settle(&mut giving.donor.lamports, &mut campaign_account.lamports));
    assert_eq!(campaign_account.lamports, RESERVE + 500);

    let mut paying = WithdrawCtx { campaign_owner: wallet(1, 0), campaign_pda: campaign_account };
    assert_eq!(withdraw(&mut paying, String::from("run"), 1000, RESERVE), Ok(()));
    assert_eq!(paying.campaign_owner.lamports, RESERVE + 500);

    let mut refunding = ReclaimCtx {
        donor: wallet(2, 0),
        campaign_pda: campaign(1, 1000, 500, RESERVE + 100),
        deposit_pda: deposit(20, 7, 100),
    };
    assert_eq!(reclaim(&mut refunding, String::from("run"), 1000, RESERVE), Ok(()));
}

#[test]
fn campaign_short_of_goal_refunds_every_donor_once() {
    let owner = wallet(1, 5_000);
    let mut d1 = wallet(2, 1_000);
    let mut d2 = wallet(3, 1_000);

    let mut creating = InitializeCtx { campaign_owner: owner, campaign_pda: blank_campaign(RESERVE) };
    assert_eq!(initialize(&mut creating, String::from("run"), 1000, 500, 1), Ok(()));
    let mut run = creating.campaign_pda;

    let mut giving = DonateCtx { donor: d1, campaign_pda: run.clone(), deposit_pda: deposit(20, 7, 0) };
    let order = donate(&mut giving, String::from("run"), 200, 10).unwrap();
    assert!(order.settle(&mut d1.lamports, &mut run.lamports));
    let mut deposit1 = giving.deposit_pda;

    let mut giving = DonateCtx { donor: d2, campaign_pda: run.clone(), deposit_pda: deposit(30, 7, 0) };
    let order = donate(&mut giving, String::from("run"), 250, 11).unwrap();
    assert!(order.settle(&mut d2.lamports, &mut run.lamports));
    let mut deposit2 = giving.deposit_pda;

    assert_eq!(run.lamports - RESERVE, 450);
    assert_eq!(d1.lamports, 800);
    assert_eq!(d2.lamports, 750);
    assert_eq!(deposit1.data.total_donated + deposit2.data.total_donated, run.lamports - RESERVE);

    let mut paying = WithdrawCtx { campaign_owner: owner, campaign_pda: run.clone() };
    let r = withdraw(&mut paying, String::from("run"), 1000, RESERVE);
    assert_eq!(r, Err(CustomError::GoalNotReached));
    assert_eq!(r.unwrap_err().kind(), ErrorKind::State);
    assert_eq!(paying.campaign_pda, run);

    let mut refunding = ReclaimCtx { donor: d1, campaign_pda: run, deposit_pda: deposit1 };
    assert_eq!(reclaim(&mut refunding, String::from("run"), 1000, RESERVE), Ok(()));
    d1 = refunding.donor;
    run = refunding.campaign_pda;
    deposit1 = refunding.deposit_pda;
    assert_eq!(d1.lamports, 800 + 200 + 7);
    assert_eq!(deposit1.data.total_donated, 0);
    assert_eq!(run.lamports - RESERVE, 250);
    assert_eq!(deposit1.data.total_donated + deposit2.data.total_donated, run.lamports - RESERVE);

    let mut refunding = ReclaimCtx { donor: d2, campaign_pda: run, deposit_pda: deposit2 };
    assert_eq!(reclaim(&mut refunding, String::from("run"), 1000, RESERVE), Ok(()));
    d2 = refunding.donor;
    run = refunding.campaign_pda;
    deposit2 = refunding.deposit_pda;
    assert_eq!(d2.lamports, 750 + 250 + 7);
    assert_eq!(deposit2.data.total_donated, 0);
    assert_eq!(run.lamports, RESERVE);

    let mut refunding = ReclaimCtx { donor: d1, campaign_pda: run.clone(), deposit_pda: deposit1 };
    let r = reclaim(&mut refunding, String::from("run"), 1001, RESERVE);
    assert_eq!(r, Err(CustomError::NoFundsToReclaim));
    assert_eq!(r.unwrap_err().kind(), ErrorKind::State);
    assert_eq!(refunding.donor, d1);
    assert_eq!(refunding.campaign_pda, run);
}

#[test]
fn crowdfund_errors_fall_into_their_classes() {
    assert_eq!(CustomError::InvalidEndSlot.kind(), ErrorKind::Validation);
    assert_eq!(CustomError::InvalidAmount.kind(), ErrorKind::Validation);
    assert_eq!(CustomError::TimeoutReached.kind(), ErrorKind::Timing);
    assert_eq!(CustomError::TimeoutNotReached.kind(), ErrorKind::Timing);
    assert_eq!(CustomError::GoalNotReached.kind(), ErrorKind::State);
    assert_eq!(CustomError::GoalReached.kind(), ErrorKind::State);
    assert_eq!(CustomError::InvalidBalance.kind(), ErrorKind::Validation);
    assert_eq!(CustomError::DonationOverflow.kind(), ErrorKind::Arithmetic);
    assert_eq!(CustomError::UnauthorizedOwner.kind(), ErrorKind::Authorization);
    assert_eq!(CustomError::NoFundsToReclaim.kind(), ErrorKind::State);
    assert_eq!(CustomError::InsufficientCampaignFunds.kind(), ErrorKind::Validation);
    assert_eq!(CustomError::OverflowError.kind(), ErrorKind::Arithmetic);
}
