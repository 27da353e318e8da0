use geev_core::Error;
use geev_core::GeevContract;
use geev_core::GiveawayStatus;

const ADMIN: u64 = 1;
const CREATOR: u64 = 2;
const USER1: u64 = 3;
const USER2: u64 = 4;
const TOKEN: u64 = 900;

fn claimable_giveaway(amount: i128, fee_bps: u32) -> (GeevContract, u64) {
    let mut c = GeevContract::new();
    c.init(ADMIN, fee_bps).unwrap();
    c.add_token(ADMIN, TOKEN).unwrap();
    let id = c.create_giveaway(CREATOR, TOKEN, amount, String::from("Prize"), 60, 0).unwrap();
    c.enter_giveaway(USER1, id, 0).unwrap();
    c.enter_giveaway(USER2, id, 0).unwrap();
    c.pick_winner(id, 100, 42).unwrap();
    (c, id)
}

#[test]
fn distribute_splits_fee_and_net_exactly() {
    // A 500-unit prize at 100 basis points: fee 5, net 495.
    let (mut c, id) = claimable_giveaway(500, 100);
    let before = c.giveaway.admin.collected_fees.amount_of(TOKEN);

    let payout = c.distribute_prize(id).unwrap();

    assert_eq!(payout.fee_amount, 5);
    assert_eq!(payout.net_amount, 495);
    assert_eq!(payout.fee_amount + payout.net_amount, 500);
    assert_eq!(payout.token, TOKEN);
    assert!(payout.winner == USER1 || payout.winner == USER2);
    assert_eq!(c.giveaway.admin.collected_fees.amount_of(TOKEN), before + 5);
    assert_eq!(c.giveaway.giveaways[0].status, GiveawayStatus::Completed);
}

#[test]
fn distribute_fee_is_integer_floor() {
    // 99 * 100 / 10_000 floors to 0: the winner receives the whole prize.
    let (mut c, id) = claimable_giveaway(99, 100);

    let payout = c.distribute_prize(id).unwrap();

    assert_eq!(payout.fee_amount, 0);
    assert_eq!(payout.net_amount, 99);
}

#[test]
fn distribute_at_higher_rate() {
    // 10_000 * 250 / 10_000 is exactly 250.
    let (mut c, id) = claimable_giveaway(10_000, 250);

    let payout = c.distribute_prize(id).unwrap();

    assert_eq!(payout.fee_amount, 250);
    assert_eq!(payout.net_amount, 9_750);
}

#[test]
fn distribute_prize_runs_once() {
    let (mut c, id) = claimable_giveaway(500, 100);
    c.distribute_prize(id).unwrap();

    assert_eq!(c.distribute_prize(id), Err(Error::InvalidStatus));
}

#[test]
fn distribute_before_draw_fails() {
    let mut c = GeevContract::new();
    c.init(ADMIN, 100).unwrap();
    c.add_token(ADMIN, TOKEN).unwrap();
    let id = c.create_giveaway(CREATOR, TOKEN, 500, String::from("Prize"), 60, 0).unwrap();

    assert_eq!(c.distribute_prize(id), Err(Error::InvalidStatus));
}

#[test]
fn distribute_unknown_giveaway_fails() {
    let mut c = GeevContract::new();

    assert_eq!(c.distribute_prize(3), Err(Error::GiveawayNotFound));
}

#[test]
fn distribute_refused_while_guard_held() {
    let (mut c, id) = claimable_giveaway(500, 100);
    c.giveaway.guard.in_progress = true;

    assert_eq!(c.distribute_prize(id), Err(Error::ReentrantCall));

    c.giveaway.guard.in_progress = false;
    assert!(c.distribute_prize(id).is_ok());
}

#[test]
fn withdraw_fees_drains_ledger_to_zero() {
    let (mut c, id) = claimable_giveaway(500, 100);
    c.distribute_prize(id).unwrap();

    assert_eq!(c.withdraw_fees(ADMIN, TOKEN), Ok(5));
    assert_eq!(c.giveaway.admin.collected_fees.amount_of(TOKEN), 0);
    // Draining an already empty balance is a no-op, not an error.
    assert_eq!(c.withdraw_fees(ADMIN, TOKEN), Ok(0));
}

#[test]
fn withdraw_fees_requires_admin() {
    let (mut c, id) = claimable_giveaway(500, 100);
    c.distribute_prize(id).unwrap();

    assert_eq!(c.withdraw_fees(USER1, TOKEN), Err(Error::Unauthorized));
    assert_eq!(c.giveaway.admin.collected_fees.amount_of(TOKEN), 5);
}

#[test]
fn fees_accumulate_per_token_across_giveaways() {
    let mut c = GeevContract::new();
    c.init(ADMIN, 100).unwrap();
    c.add_token(ADMIN, TOKEN).unwrap();
    let other_token: u64 = 901;
    c.add_token(ADMIN, other_token).unwrap();

    let a = c.create_giveaway(CREATOR, TOKEN, 1_000, String::from("A"), 60, 0).unwrap();
    let b = c.create_giveaway(CREATOR, other_token, 2_000, String::from("B"), 60, 0).unwrap();
    c.enter_giveaway(USER1, a, 0).unwrap();
    c.enter_giveaway(USER1, b, 0).unwrap();
    c.pick_winner(a, 100, 0).unwrap();
    c.pick_winner(b, 100, 0).unwrap();
    c.distribute_prize(a).unwrap();
    c.distribute_prize(b).unwrap();

    assert_eq!(c.giveaway.admin.collected_fees.amount_of(TOKEN), 10);
    assert_eq!(c.giveaway.admin.collected_fees.amount_of(other_token), 20);
}

#[test]
fn giveaway_ids_are_assigned_in_order() {
    let mut c = GeevContract::new();
    c.init(ADMIN, 100).unwrap();
    c.add_token(ADMIN, TOKEN).unwrap();

    let first = c.create_giveaway(CREATOR, TOKEN, 10, String::from("A"), 60, 0).unwrap();
    let second = c.create_giveaway(CREATOR, TOKEN, 10, String::from("B"), 60, 0).unwrap();

    assert_eq!(first, 1);
    assert_eq!(second, 2);
    assert_eq!(c.giveaway.counter, 2);
}
