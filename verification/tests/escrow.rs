//! The single-campaign escrow, driven as the host ledger would drive it:
//! the clock, the oracle's verdict and the live balance come in as plain
//! values, and each successful call hands back the transfer the host owes.

use nova_fund::escrow::EscrowContract;
use nova_fund::types::{Error, Identity, Party, Transfer};

const RECIPIENT: Identity = Identity(1);
const TOKEN: Identity = Identity(2);
const DONOR_A: Identity = Identity(10);
const DONOR_B: Identity = Identity(11);
const DEADLINE: u64 = 100;

fn live_escrow() -> EscrowContract {
    let mut esc = EscrowContract::new();
    esc.initialize(RECIPIENT, TOKEN, DEADLINE, 1000).unwrap();
    esc
}

#[test]
fn escrow_initialize_succeeds_once() {
    let mut esc = EscrowContract::new();
    assert_eq!(esc.initialize(RECIPIENT, TOKEN, DEADLINE, 1000), Ok(()));
}

#[test]
fn escrow_second_initialize_always_fails() {
    let mut esc = live_escrow();
    // Exactly-once, regardless of arguments. Note the asymmetry kept from
    // the deployed source: no caller authorization is asked of initialize.
    assert_eq!(
        esc.initialize(RECIPIENT, TOKEN, DEADLINE, 1000),
        Err(Error::AlreadyInitialized)
    );
    assert_eq!(
        esc.initialize(DONOR_A, Identity(3), 7, 5),
        Err(Error::AlreadyInitialized)
    );
    assert_eq!(esc.get_campaign_info(), (0, 1000, DEADLINE));
}

#[test]
fn initialize_rejects_non_positive_target() {
    let mut esc = EscrowContract::new();
    assert_eq!(
        esc.initialize(RECIPIENT, TOKEN, DEADLINE, 0),
        Err(Error::InvalidAmount)
    );
    assert_eq!(
        esc.initialize(RECIPIENT, TOKEN, DEADLINE, -1),
        Err(Error::InvalidAmount)
    );
    // Still uninitialized afterwards.
    assert_eq!(esc.initialize(RECIPIENT, TOKEN, DEADLINE, 1000), Ok(()));
}

#[test]
fn donation_before_deadline_triggers_the_exact_transfer() {
    let mut esc = live_escrow();
    let transfer = esc.donate(DONOR_A, 600, 50, true).unwrap();
    assert_eq!(
        transfer,
        Transfer {
            from: Party::Account(DONOR_A),
            to: Party::Contract,
            asset: TOKEN,
            amount: 600,
        }
    );
    assert_eq!(esc.get_campaign_info(), (600, 1000, DEADLINE));
}

#[test]
fn donation_at_the_deadline_still_counts() {
    let mut esc = live_escrow();
    assert!(esc.donate(DONOR_A, 5, DEADLINE, true).is_ok());
    assert_eq!(esc.get_campaign_info(), (5, 1000, DEADLINE));
}

#[test]
fn donation_after_deadline_is_expired() {
    let mut esc = live_escrow();
    assert_eq!(
        esc.donate(DONOR_A, 5, DEADLINE + 1, true),
        Err(Error::CampaignExpired)
    );
    assert_eq!(esc.get_campaign_info(), (0, 1000, DEADLINE));
}

#[test]
fn escrow_donation_order_does_not_matter() {
    let amounts = [600i128, 500, 1, 250];
    let mut forward = live_escrow();
    let mut backward = live_escrow();
    for a in amounts {
        assert!(forward.donate(DONOR_A, a, 50, true).is_ok());
    }
    for a in amounts.iter().rev() {
        assert!(backward.donate(DONOR_A, *a, 50, true).is_ok());
    }
    assert_eq!(forward.get_campaign_info(), backward.get_campaign_info());
    assert_eq!(forward.get_campaign_info(), (1351, 1000, DEADLINE));
}

#[test]
fn escrow_donating_non_positive_amount_fails_and_changes_nothing() {
    let mut esc = live_escrow();
    assert_eq!(esc.donate(DONOR_A, 0, 50, true), Err(Error::InvalidAmount));
    assert_eq!(esc.donate(DONOR_A, -7, 50, true), Err(Error::InvalidAmount));
    assert_eq!(esc.get_campaign_info(), (0, 1000, DEADLINE));
}

#[test]
fn donating_to_an_uninitialized_escrow_is_not_found() {
    let mut esc = EscrowContract::new();
    assert_eq!(esc.donate(DONOR_A, 5, 50, true), Err(Error::NotFound));
}

#[test]
fn escrow_donating_requires_authorization() {
    let mut esc = live_escrow();
    assert_eq!(esc.donate(DONOR_A, 5, 50, false), Err(Error::Unauthorized));
    assert_eq!(esc.get_campaign_info(), (0, 1000, DEADLINE));
}

#[test]
fn escrow_donation_overflow_fails_closed() {
    let mut esc = live_escrow();
    assert!(esc.donate(DONOR_A, i128::MAX, 50, true).is_ok());
    assert_eq!(
        esc.donate(DONOR_B, 1, 50, true),
        Err(Error::ArithmeticOverflow)
    );
    assert_eq!(esc.get_campaign_info(), (i128::MAX, 1000, DEADLINE));
}

#[test]
fn withdraw_before_deadline_fails_even_with_target_met() {
    let mut esc = live_escrow();
    assert!(esc.donate(DONOR_A, 1500, 50, true).is_ok());
    assert_eq!(
        esc.withdraw(true, DEADLINE - 1, 1500),
        Err(Error::DeadlineNotReached)
    );
}

#[test]
fn withdraw_past_deadline_below_target_fails() {
    let mut esc = live_escrow();
    assert!(esc.donate(DONOR_A, 999, 50, true).is_ok());
    assert_eq!(
        esc.withdraw(true, DEADLINE + 5, 999),
        Err(Error::TargetNotMet)
    );
}

#[test]
fn withdraw_by_unconfirmed_recipient_fails() {
    let mut esc = live_escrow();
    assert!(esc.donate(DONOR_A, 1500, 50, true).is_ok());
    assert_eq!(
        esc.withdraw(false, DEADLINE + 5, 1500),
        Err(Error::Unauthorized)
    );
}

#[test]
fn withdraw_moves_the_full_live_balance_to_the_recipient() {
    let mut esc = live_escrow();
    assert!(esc.donate(DONOR_A, 1500, 50, true).is_ok());
    // The live balance, not the bookkeeping total, is what moves.
    let transfer = esc.withdraw(true, DEADLINE, 1499).unwrap();
    assert_eq!(
        transfer,
        Transfer {
            from: Party::Contract,
            to: Party::Account(RECIPIENT),
            asset: TOKEN,
            amount: 1499,
        }
    );
}

#[test]
fn withdraw_on_uninitialized_escrow_is_not_found() {
    let esc = EscrowContract::new();
    assert_eq!(esc.withdraw(true, DEADLINE, 0), Err(Error::NotFound));
}

#[test]
fn repeat_withdraw_is_a_transfer_of_zero_not_an_error() {
    // Open question of the deployed design, preserved exactly: nothing marks
    // the escrow released, so a second withdrawal goes through as a no-op
    // transfer of the zero balance that is left.
    let mut esc = live_escrow();
    assert!(esc.donate(DONOR_A, 1000, 50, true).is_ok());
    let first = esc.withdraw(true, DEADLINE + 1, 1000).unwrap();
    assert_eq!(first.amount, 1000);
    let second = esc.withdraw(true, DEADLINE + 1, 0).unwrap();
    assert_eq!(
        second,
        Transfer {
            from: Party::Contract,
            to: Party::Account(RECIPIENT),
            asset: TOKEN,
            amount: 0,
        }
    );
}

#[test]
fn info_on_uninitialized_escrow_is_all_zeroes() {
    let esc = EscrowContract::new();
    assert_eq!(esc.get_campaign_info(), (0, 0, 0));
}

#[test]
fn full_campaign_scenario() {
    let mut esc = EscrowContract::new();
    esc.initialize(RECIPIENT, TOKEN, DEADLINE, 1000).unwrap();

    let t1 = esc.donate(DONOR_A, 600, 10, true).unwrap();
    assert_eq!(t1.from, Party::Account(DONOR_A));
    assert_eq!(t1.amount, 600);
    assert_eq!(esc.get_campaign_info(), (600, 1000, DEADLINE));

    let t2 = esc.donate(DONOR_B, 500, 20, true).unwrap();
    assert_eq!(t2.from, Party::Account(DONOR_B));
    assert_eq!(t2.amount, 500);
    assert_eq!(esc.get_campaign_info(), (1100, 1000, DEADLINE));

    // At t >= deadline the confirmed recipient collects the whole balance.
    let payout = esc.withdraw(true, DEADLINE, 1100).unwrap();
    assert_eq!(
        payout,
        Transfer {
            from: Party::Contract,
            to: Party::Account(RECIPIENT),
            asset: TOKEN,
            amount: 1100,
        }
    );
}
