use geev_core::Error;
use geev_core::GiveawayContract;

const ADMIN: u64 = 1;
const CREATOR: u64 = 2;
const USER: u64 = 3;
const TOKEN: u64 = 900;

fn engine_with_giveaway(amount: i128, now: u64, end_time: u64) -> (GiveawayContract, u64) {
    let mut c = GiveawayContract::new();
    c.set_admin(ADMIN).unwrap();
    c.add_token(ADMIN, TOKEN).unwrap();
    let id = c
        .create_giveaway(CREATOR, TOKEN, amount, String::from("Test"), end_time - now, now)
        .unwrap();
    (c, id)
}

#[test]
fn enter_once_before_end_increments_participant_count() {
    // Clock at 10, the giveaway open until 20, a principal of 100.
    let (mut c, id) = engine_with_giveaway(100, 10, 20);

    c.enter_giveaway(USER, id, 10).unwrap();

    assert_eq!(c.giveaways[0].participant_count, 1);
}

#[test]
fn reject_entry_after_end_time() {
    // The giveaway ended at 5; the clock already reads 10.
    let (mut c, id) = engine_with_giveaway(100, 0, 5);

    assert_eq!(c.enter_giveaway(USER, id, 10), Err(Error::TimeWindowViolation));
}

#[test]
fn reject_duplicate_entries() {
    let (mut c, id) = engine_with_giveaway(100, 10, 20);

    c.enter_giveaway(USER, id, 10).unwrap();

    assert_eq!(c.enter_giveaway(USER, id, 10), Err(Error::DuplicateEntry));
    assert_eq!(c.giveaways[0].participant_count, 1);
}
