use geev_core::Error;
use geev_core::GeevContract;
use geev_core::HelpRequestStatus;
use geev_core::MutualAidContract;

const CREATOR: u64 = 10;
const DONOR1: u64 = 11;
const DONOR2: u64 = 12;
const TOKEN: u64 = 900;

#[test]
fn help_request_flips_fully_funded_at_goal() {
    // A goal of 1000 funded by 600 then 500: the second donation flips the
    // status, and its donor's recorded contribution is exactly 500.
    let mut c = GeevContract::new();
    let id = c.create_request(CREATOR, TOKEN, 1_000).unwrap();

    c.donate(DONOR1, id, 600).unwrap();
    assert_eq!(c.aid.requests[0].status, HelpRequestStatus::Open);

    c.donate(DONOR2, id, 500).unwrap();
    assert_eq!(c.aid.requests[0].status, HelpRequestStatus::FullyFunded);
    assert_eq!(c.aid.requests[0].raised_amount, 1_100);
    assert_eq!(c.aid.requests[0].contributions.amount_of(DONOR2), 500);

    // Cancellation after full funding is rejected.
    assert_eq!(c.cancel_request(CREATOR, id), Err(Error::InvalidStatus));
}

#[test]
fn donation_must_be_positive() {
    let mut c = MutualAidContract::new();
    let id = c.create_request(CREATOR, TOKEN, 1_000).unwrap();

    assert_eq!(c.donate(DONOR1, id, 0), Err(Error::InvalidDonationAmount));
    assert_eq!(c.donate(DONOR1, id, -5), Err(Error::InvalidDonationAmount));
}

#[test]
fn donation_to_unknown_request_fails() {
    let mut c = MutualAidContract::new();

    assert_eq!(c.donate(DONOR1, 4, 100), Err(Error::HelpRequestNotFound));
}

#[test]
fn donation_after_full_funding_fails() {
    let mut c = MutualAidContract::new();
    let id = c.create_request(CREATOR, TOKEN, 100).unwrap();
    c.donate(DONOR1, id, 100).unwrap();

    assert_eq!(c.donate(DONOR2, id, 1), Err(Error::AlreadyFullyFunded));
}

#[test]
fn donation_to_cancelled_request_fails() {
    let mut c = MutualAidContract::new();
    let id = c.create_request(CREATOR, TOKEN, 1_000).unwrap();
    c.cancel_request(CREATOR, id).unwrap();

    assert_eq!(c.donate(DONOR1, id, 100), Err(Error::InvalidStatus));
}

#[test]
fn donation_overflow_is_refused() {
    let mut c = MutualAidContract::new();
    let id = c.create_request(CREATOR, TOKEN, i128::MAX).unwrap();
    c.donate(DONOR1, id, i128::MAX - 1).unwrap();

    assert_eq!(c.donate(DONOR2, id, 2), Err(Error::ArithmeticOverflow));
    assert_eq!(c.requests[0].raised_amount, i128::MAX - 1);
}

#[test]
fn repeated_donations_accumulate_per_donor() {
    let mut c = MutualAidContract::new();
    let id = c.create_request(CREATOR, TOKEN, 1_000).unwrap();

    c.donate(DONOR1, id, 200).unwrap();
    c.donate(DONOR1, id, 300).unwrap();

    assert_eq!(c.requests[0].contributions.amount_of(DONOR1), 500);
    assert_eq!(c.requests[0].raised_amount, 500);
}

#[test]
fn cancel_is_creator_only() {
    let mut c = MutualAidContract::new();
    let id = c.create_request(CREATOR, TOKEN, 1_000).unwrap();

    assert_eq!(c.cancel_request(DONOR1, id), Err(Error::Unauthorized));
    assert_eq!(c.cancel_request(CREATOR, id), Ok(()));
    assert_eq!(c.cancel_request(CREATOR, id), Err(Error::InvalidStatus));
}

#[test]
fn refund_returns_exact_contribution_once() {
    let mut c = MutualAidContract::new();
    let id = c.create_request(CREATOR, TOKEN, 1_000).unwrap();
    c.donate(DONOR1, id, 600).unwrap();
    c.donate(DONOR2, id, 150).unwrap();

    // Refunds open only once the request is cancelled.
    assert_eq!(c.claim_refund(DONOR1, id), Err(Error::InvalidStatus));

    c.cancel_request(CREATOR, id).unwrap();

    assert_eq!(c.claim_refund(DONOR1, id), Ok(600));
    assert_eq!(c.claim_refund(DONOR1, id), Err(Error::NothingToRefund));
    assert_eq!(c.claim_refund(DONOR2, id), Ok(150));

    // An account that never donated has nothing to reclaim.
    assert_eq!(c.claim_refund(77, id), Err(Error::NothingToRefund));
}

#[test]
fn withdraw_aid_disburses_once_to_creator_direction() {
    let mut c = MutualAidContract::new();
    let recipient: u64 = 42;
    let id = c.create_request(CREATOR, TOKEN, 1_000).unwrap();
    c.donate(DONOR1, id, 1_200).unwrap();

    assert_eq!(c.withdraw_aid(DONOR1, id, recipient), Err(Error::Unauthorized));
    assert_eq!(c.withdraw_aid(CREATOR, id, recipient), Ok(1_200));
    assert_eq!(c.requests[0].status, HelpRequestStatus::Disbursed);
    assert_eq!(c.withdraw_aid(CREATOR, id, recipient), Err(Error::InvalidStatus));

    // No refunds out of a disbursed request.
    assert_eq!(c.claim_refund(DONOR1, id), Err(Error::InvalidStatus));
}

#[test]
fn withdraw_aid_requires_full_funding() {
    let mut c = MutualAidContract::new();
    let id = c.create_request(CREATOR, TOKEN, 1_000).unwrap();
    c.donate(DONOR1, id, 999).unwrap();

    assert_eq!(c.withdraw_aid(CREATOR, id, CREATOR), Err(Error::InvalidStatus));
}

#[test]
fn withdraw_aid_refused_while_guard_held() {
    let mut c = MutualAidContract::new();
    let id = c.create_request(CREATOR, TOKEN, 100).unwrap();
    c.donate(DONOR1, id, 100).unwrap();
    c.guard.in_progress = true;

    assert_eq!(c.withdraw_aid(CREATOR, id, CREATOR), Err(Error::ReentrantCall));

    c.guard.in_progress = false;
    assert_eq!(c.withdraw_aid(CREATOR, id, CREATOR), Ok(100));
}

#[test]
fn zero_goal_request_is_born_fully_funded() {
    let mut c = MutualAidContract::new();
    let id = c.create_request(CREATOR, TOKEN, 0).unwrap();

    assert_eq!(c.requests[0].status, HelpRequestStatus::FullyFunded);
    assert_eq!(c.donate(DONOR1, id, 5), Err(Error::AlreadyFullyFunded));
}
