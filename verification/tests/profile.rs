use geev_core::profile::Error;
use geev_core::profile::ProfileContract;

#[test]
fn set_and_get_profile() {
    let mut c = ProfileContract::new();
    let user: u64 = 1;
    let username = String::from("alice");
    let avatar = String::from("QmHash123");

    c.set_profile(user, username.clone(), avatar.clone()).unwrap();

    let profile = c.get_profile(user).unwrap();
    assert_eq!(profile.username, username);
    assert_eq!(profile.avatar_hash, avatar);
}

#[test]
fn resolve_username_returns_owner() {
    let mut c = ProfileContract::new();
    let user: u64 = 2;
    let username = String::from("bob");
    let avatar = String::from("QmAvatarBob");

    c.set_profile(user, username.clone(), avatar).unwrap();

    let resolved = c.resolve_username(&username).unwrap();
    assert_eq!(resolved, user);
}

#[test]
fn duplicate_username_rejected() {
    let mut c = ProfileContract::new();
    let alice: u64 = 1;
    let bob: u64 = 2;
    let username = String::from("geev_user");
    let avatar = String::from("QmHash456");

    // Alice claims the username.
    c.set_profile(alice, username.clone(), avatar.clone()).unwrap();

    // Bob tries to claim the same username.
    assert_eq!(c.set_profile(bob, username, avatar), Err(Error::UsernameTaken));
}

#[test]
fn user_can_change_username_and_old_one_is_freed() {
    let mut c = ProfileContract::new();
    let user: u64 = 3;
    let old_username = String::from("old_name");
    let new_username = String::from("new_name");
    let avatar = String::from("QmHash789");

    // Set the initial profile, then update to the new username.
    c.set_profile(user, old_username.clone(), avatar.clone()).unwrap();
    c.set_profile(user, new_username.clone(), avatar).unwrap();

    // The old username no longer resolves; the new one names the user.
    assert!(c.resolve_username(&old_username).is_none());
    assert_eq!(c.resolve_username(&new_username).unwrap(), user);
}

#[test]
fn get_profile_returns_none_for_unknown_address() {
    let c = ProfileContract::new();
    let stranger: u64 = 9;

    assert!(c.get_profile(stranger).is_none());
}

#[test]
fn same_user_may_reclaim_own_username() {
    let mut c = ProfileContract::new();
    let user: u64 = 4;
    let username = String::from("keeper");

    c.set_profile(user, username.clone(), String::from("QmOne")).unwrap();
    c.set_profile(user, username.clone(), String::from("QmTwo")).unwrap();

    let profile = c.get_profile(user).unwrap();
    assert_eq!(profile.avatar_hash, String::from("QmTwo"));
    assert_eq!(c.resolve_username(&username).unwrap(), user);
}
