use geev_core::Error;
use geev_core::GiveawayContract;
use geev_core::GiveawayStatus;

const ADMIN: u64 = 1;
const CREATOR: u64 = 2;
const USER1: u64 = 3;
const USER2: u64 = 4;
const TOKEN: u64 = 900;

fn engine_with_token() -> GiveawayContract {
    let mut c = GiveawayContract::new();
    c.set_admin(ADMIN).unwrap();
    c.add_token(ADMIN, TOKEN).unwrap();
    c
}

#[test]
fn test_giveaway_flow() {
    let mut c = engine_with_token();

    let title = String::from("Test Giveaway");
    let amount: i128 = 500;
    let duration: u64 = 60;

    let target_giveaway_id = c.create_giveaway(CREATOR, TOKEN, amount, title, duration, 0).unwrap();
    assert_eq!(target_giveaway_id, 1);

    c.enter_giveaway(USER1, target_giveaway_id, 0).unwrap();
    c.enter_giveaway(USER2, target_giveaway_id, 0).unwrap();

    let winner = c.pick_winner(target_giveaway_id, 100, 12345).unwrap();
    assert!(winner == USER1 || winner == USER2);
}

#[test]
fn test_double_entry_fails() {
    let mut c = engine_with_token();
    let id = c.create_giveaway(CREATOR, TOKEN, 500, String::from("Test"), 60, 0).unwrap();

    let greedy_user = USER1;
    c.enter_giveaway(greedy_user, id, 0).unwrap();
    assert_eq!(c.enter_giveaway(greedy_user, id, 0), Err(Error::DuplicateEntry));
}

#[test]
fn test_enter_late_fails() {
    let mut c = engine_with_token();
    let id = c.create_giveaway(CREATOR, TOKEN, 500, String::from("Test"), 60, 0).unwrap();

    assert_eq!(c.enter_giveaway(USER1, id, 100), Err(Error::TimeWindowViolation));
}

#[test]
fn test_pick_winner_early_fails() {
    let mut c = engine_with_token();
    let id = c.create_giveaway(CREATOR, TOKEN, 500, String::from("Test"), 60, 0).unwrap();
    c.enter_giveaway(USER1, id, 0).unwrap();

    assert_eq!(c.pick_winner(id, 0, 9), Err(Error::TimeWindowViolation));
}

#[test]
fn test_admin_withdraw_success() {
    let mut c = GiveawayContract::new();
    let safe_address: u64 = 77;
    c.set_admin(ADMIN).unwrap();

    assert_eq!(c.admin_withdraw(ADMIN, TOKEN, 500, safe_address), Ok(()));
}

#[test]
fn test_admin_withdraw_fails_when_no_admin() {
    let c = GiveawayContract::new();
    let safe_address: u64 = 77;

    assert_eq!(c.admin_withdraw(ADMIN, TOKEN, 500, safe_address), Err(Error::NotInitialized));
}

#[test]
fn test_admin_withdraw_rejects_other_caller() {
    let mut c = GiveawayContract::new();
    c.set_admin(ADMIN).unwrap();

    assert_eq!(c.admin_withdraw(CREATOR, TOKEN, 500, 77), Err(Error::Unauthorized));
}

#[test]
fn test_set_admin_once() {
    let mut c = GiveawayContract::new();
    assert_eq!(c.set_admin(ADMIN), Ok(()));
}

#[test]
fn test_set_admin_twice_fails() {
    let mut c = GiveawayContract::new();
    let admin2: u64 = 8;
    c.set_admin(ADMIN).unwrap();

    assert_eq!(c.set_admin(admin2), Err(Error::AlreadyInitialized));
    assert_eq!(c.admin.account, Some(ADMIN));
}

#[test]
fn test_init_contract() {
    let mut c = GiveawayContract::new();
    let fee_bps: u32 = 100;

    c.init(ADMIN, fee_bps).unwrap();

    assert_eq!(c.admin.account, Some(ADMIN));
    assert_eq!(c.fee_bps, fee_bps);
}

#[test]
fn test_init_twice_fails() {
    let mut c = GiveawayContract::new();
    let fee_bps: u32 = 100;

    c.init(ADMIN, fee_bps).unwrap();
    assert_eq!(c.init(ADMIN, fee_bps), Err(Error::AlreadyInitialized));
}

#[test]
fn test_create_requires_whitelisted_token() {
    let mut c = GiveawayContract::new();
    c.set_admin(ADMIN).unwrap();

    assert_eq!(
        c.create_giveaway(CREATOR, TOKEN, 500, String::from("Test"), 60, 0),
        Err(Error::TokenNotSupported)
    );
}

#[test]
fn test_add_token_requires_admin() {
    let mut c = GiveawayContract::new();
    c.set_admin(ADMIN).unwrap();

    assert_eq!(c.add_token(CREATOR, TOKEN), Err(Error::Unauthorized));
}

#[test]
fn test_enter_unknown_giveaway_fails() {
    let mut c = engine_with_token();

    assert_eq!(c.enter_giveaway(USER1, 7, 0), Err(Error::GiveawayNotFound));
}

#[test]
fn test_pick_with_no_participants_fails() {
    let mut c = engine_with_token();
    let id = c.create_giveaway(CREATOR, TOKEN, 500, String::from("Test"), 60, 0).unwrap();

    assert_eq!(c.pick_winner(id, 100, 4), Err(Error::NoParticipants));
}

#[test]
fn test_create_end_time_overflow_fails() {
    let mut c = engine_with_token();

    assert_eq!(
        c.create_giveaway(CREATOR, TOKEN, 500, String::from("Test"), 1, u64::MAX),
        Err(Error::ArithmeticOverflow)
    );
}

#[test]
fn test_winner_is_drawn_at_seed_modulo_count() {
    let mut c = engine_with_token();
    let id = c.create_giveaway(CREATOR, TOKEN, 500, String::from("Test"), 60, 0).unwrap();
    c.enter_giveaway(USER1, id, 0).unwrap();
    c.enter_giveaway(USER2, id, 0).unwrap();
    c.enter_giveaway(5, id, 0).unwrap();

    // Three entrants; a seed of 7 lands on dense index 7 % 3 == 1.
    let winner = c.pick_winner(id, 100, 7).unwrap();
    assert_eq!(winner, USER2);
    assert_eq!(c.giveaways[0].status, GiveawayStatus::Claimable);
    assert_eq!(c.giveaways[0].winner, Some(USER2));
}

#[test]
fn test_entry_at_reads_dense_indexes() {
    let mut c = engine_with_token();
    let id = c.create_giveaway(CREATOR, TOKEN, 500, String::from("Test"), 60, 0).unwrap();
    c.enter_giveaway(USER1, id, 0).unwrap();
    c.enter_giveaway(USER2, id, 0).unwrap();

    assert_eq!(c.entry_at(id, 0), Ok(USER1));
    assert_eq!(c.entry_at(id, 1), Ok(USER2));
    assert_eq!(c.entry_at(id, 2), Err(Error::IndexOutOfRange));
    assert_eq!(c.entry_at(9, 0), Err(Error::GiveawayNotFound));
    assert_eq!(c.giveaways[0].participant_count, 2);
}
