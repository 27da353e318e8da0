//! The username / profile registry: unique-key CRUD beside the escrow
//! engine, with no escrow of its own.
//!
//! Each account owns at most one profile (a display name and an avatar
//! hash); each username resolves to at most one account. Setting a profile
//! claims the username if it is free or already the caller's, and frees the
//! caller's previous username when the name changes.

use vstd::prelude::*;

verus! {

/// The one way the registry refuses to act.
#[derive(Clone, Copy, Debug, PartialEq, Eq, Structural)]
pub enum Error {
    /// The requested username already resolves to another account.
    UsernameTaken,
}

/// An account's on-chain profile: a display name, unique across all
/// accounts, and a content hash pointing at the avatar image.
pub struct ProfileData {
    /// The unique display name.
    pub username: String,
    /// Content hash of the avatar image.
    pub avatar_hash: String,
}

impl ProfileData {
    /// An owned copy with the same characters in both fields.
    pub fn duplicate(&self) -> (r: ProfileData)
        ensures
            r.username@ == self.username@,
            r.avatar_hash@ == self.avatar_hash@,
    {
        ProfileData { username: self.username.clone(), avatar_hash: self.avatar_hash.clone() }
    }
}

/// The account a username resolves to; `None` where no entry holds the
/// name.
pub open spec fn owner_under(s: Seq<(String, u64)>, name: Seq<char>) -> Option<u64>
    decreases s.len(),
{
    if s.len() == 0 {
        None
    } else if s.last().0@ == name {
        Some(s.last().1)
    } else {
        owner_under(s.drop_last(), name)
    }
}

/// The profile recorded for an account; `None` where no entry holds the
/// account.
pub open spec fn profile_under(s: Seq<(u64, ProfileData)>, user: u64) -> Option<ProfileData>
    decreases s.len(),
{
    if s.len() == 0 {
        None
    } else if s.last().0 == user {
        Some(s.last().1)
    } else {
        profile_under(s.drop_last(), user)
    }
}

/// No username (by its characters) owns two entries.
pub open spec fn usernames_unique(s: Seq<(String, u64)>) -> bool {
    forall|i: int, j: int| #![trigger s[i], s[j]] 0 <= i < j < s.len() ==> s[i].0@ != s[j].0@
}

/// No account owns two profile entries.
pub open spec fn users_unique(s: Seq<(u64, ProfileData)>) -> bool {
    forall|i: int, j: int| #![trigger s[i], s[j]] 0 <= i < j < s.len() ==> s[i].0 != s[j].0
}

proof fn lemma_owner_at_index(s: Seq<(String, u64)>, i: int)
    requires
        usernames_unique(s),
        0 <= i < s.len(),
    ensures
        owner_under(s, s[i].0@) == Some(s[i].1),
    decreases s.len(),
{
    if i < s.len() - 1 {
        lemma_owner_at_index(s.drop_last(), i);
    }
}

proof fn lemma_owner_absent(s: Seq<(String, u64)>, name: Seq<char>)
    requires
        forall|i: int| 0 <= i < s.len() ==> (#[trigger] s[i]).0@ != name,
    ensures
        owner_under(s, name) is None,
    decreases s.len(),
{
    if s.len() > 0 {
        lemma_owner_absent(s.drop_last(), name);
    }
}

proof fn lemma_owner_update(s: Seq<(String, u64)>, i: int, entry: (String, u64))
    requires
        usernames_unique(s),
        0 <= i < s.len(),
        entry.0@ == s[i].0@,
    ensures
        owner_under(s.update(i, entry), entry.0@) == Some(entry.1),
        forall|n: Seq<char>|
            n != entry.0@ ==> #[trigger] owner_under(s.update(i, entry), n) == owner_under(s, n),
        usernames_unique(s.update(i, entry)),
    decreases s.len(),
{
    let t = s.update(i, entry);
    if i == s.len() - 1 {
        assert(t.drop_last() =~= s.drop_last());
    } else {
        assert(t.drop_last() =~= s.drop_last().update(i, entry));
        lemma_owner_update(s.drop_last(), i, entry);
        assert forall|n: Seq<char>| n != entry.0@ implies #[trigger] owner_under(t, n)
            == owner_under(s, n) by {
            if n != t.last().0@ {
                assert(owner_under(t, n) == owner_under(t.drop_last(), n));
            }
        }
    }
}

proof fn lemma_owner_push(s: Seq<(String, u64)>, entry: (String, u64))
    requires
        forall|i: int| 0 <= i < s.len() ==> (#[trigger] s[i]).0@ != entry.0@,
    ensures
        owner_under(s.push(entry), entry.0@) == Some(entry.1),
        forall|n: Seq<char>|
            n != entry.0@ ==> #[trigger] owner_under(s.push(entry), n) == owner_under(s, n),
        usernames_unique(s) ==> usernames_unique(s.push(entry)),
{
    assert(s.push(entry).drop_last() =~= s);
}

proof fn lemma_owner_remove(s: Seq<(String, u64)>, i: int)
    requires
        usernames_unique(s),
        0 <= i < s.len(),
    ensures
        owner_under(s.remove(i), s[i].0@) is None,
        forall|n: Seq<char>|
            n != s[i].0@ ==> #[trigger] owner_under(s.remove(i), n) == owner_under(s, n),
        usernames_unique(s.remove(i)),
    decreases s.len(),
{
    let t = s.remove(i);
    if i == s.len() - 1 {
        assert(t =~= s.drop_last());
        lemma_owner_absent(s.drop_last(), s[i].0@);
    } else {
        assert(t.last() == s.last());
        assert(t.drop_last() =~= s.drop_last().remove(i));
        lemma_owner_remove(s.drop_last(), i);
        assert forall|n: Seq<char>| n != s[i].0@ implies #[trigger] owner_under(t, n)
            == owner_under(s, n) by {
            if n != s.last().0@ {
                assert(owner_under(t, n) == owner_under(t.drop_last(), n));
                assert(owner_under(s, n) == owner_under(s.drop_last(), n));
            }
        }
    }
}

proof fn lemma_profile_at_index(s: Seq<(u64, ProfileData)>, i: int)
    requires
        users_unique(s),
        0 <= i < s.len(),
    ensures
        profile_under(s, s[i].0) == Some(s[i].1),
    decreases s.len(),
{
    if i < s.len() - 1 {
        lemma_profile_at_index(s.drop_last(), i);
    }
}

proof fn lemma_profile_absent(s: Seq<(u64, ProfileData)>, user: u64)
    requires
        forall|i: int| 0 <= i < s.len() ==> (#[trigger] s[i]).0 != user,
    ensures
        profile_under(s, user) is None,
    decreases s.len(),
{
    if s.len() > 0 {
        lemma_profile_absent(s.drop_last(), user);
    }
}

proof fn lemma_profile_update(s: Seq<(u64, ProfileData)>, i: int, entry: (u64, ProfileData))
    requires
        users_unique(s),
        0 <= i < s.len(),
        entry.0 == s[i].0,
    ensures
        profile_under(s.update(i, entry), entry.0) == Some(entry.1),
        forall|u: u64|
            u != entry.0 ==> #[trigger] profile_under(s.update(i, entry), u) == profile_under(
                s,
                u,
            ),
        users_unique(s.update(i, entry)),
    decreases s.len(),
{
    let t = s.update(i, entry);
    if i == s.len() - 1 {
        assert(t.drop_last() =~= s.drop_last());
    } else {
        assert(t.drop_last() =~= s.drop_last().update(i, entry));
        lemma_profile_update(s.drop_last(), i, entry);
        assert forall|u: u64| u != entry.0 implies #[trigger] profile_under(t, u)
            == profile_under(s, u) by {
            if u != t.last().0 {
                assert(profile_under(t, u) == profile_under(t.drop_last(), u));
            }
        }
    }
}

proof fn lemma_profile_push(s: Seq<(u64, ProfileData)>, entry: (u64, ProfileData))
    requires
        forall|i: int| 0 <= i < s.len() ==> (#[trigger] s[i]).0 != entry.0,
    ensures
        profile_under(s.push(entry), entry.0) == Some(entry.1),
        forall|u: u64|
            u != entry.0 ==> #[trigger] profile_under(s.push(entry), u) == profile_under(s, u),
        users_unique(s) ==> users_unique(s.push(entry)),
{
    assert(s.push(entry).drop_last() =~= s);
}

/// The registry: every profile keyed by account, and the reverse index
/// from username to account that `set_profile` maintains.
pub struct ProfileContract {
    /// One profile entry per account.
    pub profiles: Vec<(u64, ProfileData)>,
    /// One entry per claimed username: the account it resolves to.
    pub usernames: Vec<(String, u64)>,
}

impl ProfileContract {
    /// Registry consistency: no account holds two profiles, no username
    /// (by its characters) holds two entries.
    pub open spec fn wf(&self) -> bool {
        users_unique(self.profiles@) && usernames_unique(self.usernames@)
    }

    /// The profile recorded for an account.
    pub open spec fn spec_profile(&self, user: u64) -> Option<ProfileData> {
        profile_under(self.profiles@, user)
    }

    /// The account a username resolves to.
    pub open spec fn spec_owner(&self, name: Seq<char>) -> Option<u64> {
        owner_under(self.usernames@, name)
    }

    /// An empty registry.
    pub fn new() -> (r: ProfileContract)
        ensures
            r.wf(),
            forall|u: u64| #[trigger] r.spec_profile(u) is None,
            forall|n: Seq<char>| #[trigger] r.spec_owner(n) is None,
    {
        let r = ProfileContract { profiles: Vec::new(), usernames: Vec::new() };
        proof {
            assert forall|u: u64| #[trigger] r.spec_profile(u) is None by {
                lemma_profile_absent(r.profiles@, u);
            }
            assert forall|n: Seq<char>| #[trigger] r.spec_owner(n) is None by {
                lemma_owner_absent(r.usernames@, n);
            }
        }
        r
    }

    /// The position of the entry holding `name`, if one exists.
    fn username_position(&self, name: &String) -> (r: Option<usize>)
        ensures
            match r {
                Some(i) => i < self.usernames@.len() && self.usernames@[i as int].0@ == name@,
                None => forall|i: int|
                    0 <= i < self.usernames@.len() ==> (#[trigger] self.usernames@[i]).0@ != name@,
            },
    {
        let n = self.usernames.len();
        let mut i: usize = 0;
        while i < n
            invariant
                n == self.usernames@.len(),
                i <= n,
                forall|j: int| 0 <= j < i ==> (#[trigger] self.usernames@[j]).0@ != name@,
            decreases n - i,
        {
            if self.usernames[i].0 == *name {
                return Some(i);
            }
            i = i + 1;
        }
        None
    }

    /// The position of the entry holding `user`, if one exists.
    fn profile_position(&self, user: u64) -> (r: Option<usize>)
        ensures
            match r {
                Some(i) => i < self.profiles@.len() && self.profiles@[i as int].0 == user,
                None => forall|i: int|
                    0 <= i < self.profiles@.len() ==> (#[trigger] self.profiles@[i]).0 != user,
            },
    {
        let n = self.profiles.len();
        let mut i: usize = 0;
        while i < n
            invariant
                n == self.profiles@.len(),
                i <= n,
                forall|j: int| 0 <= j < i ==> (#[trigger] self.profiles@[j]).0 != user,
            decreases n - i,
        {
            if self.profiles[i].0 == user {
                return Some(i);
            }
            i = i + 1;
        }
        None
    }

    /// Create or update the caller's profile. The username must be free or
    /// already the caller's; when the caller's name changes, the previous
    /// username entry is removed so the old name is freed for others.
    pub fn set_profile(&mut self, user: u64, username: String, avatar_hash: String) -> (r: Result<
        (),
        Error,
    >)
        requires
            old(self).wf(),
        ensures
            final(self).wf(),
            match r {
                Ok(()) => {
                    &&& match old(self).spec_owner(username@) {
                        Some(o) => o == user,
                        None => true,
                    }
                    &&& ({
                        let stored = final(self).spec_profile(user);
                        &&& stored is Some
                        &&& stored.unwrap().username@ == username@
                        &&& stored.unwrap().avatar_hash@ == avatar_hash@
                    })
                    &&& forall|u: u64|
                        u != user ==> #[trigger] final(self).spec_profile(u) == old(
                            self,
                        ).spec_profile(u)
                    &&& final(self).spec_owner(username@) == Some(user)
                    &&& ({
                        let freed = match old(self).spec_profile(user) {
                            Some(prev) => if prev.username@ != username@ {
                                Some(prev.username@)
                            } else {
                                None
                            },
                            None => None,
                        };
                        &&& (freed is Some ==> final(self).spec_owner(freed.unwrap()) is None)
                        &&& forall|n: Seq<char>|
                            n != username@ && (freed is None || n != freed.unwrap())
                                ==> #[trigger] final(self).spec_owner(n) == old(self).spec_owner(n)
                    })
                },
                Err(e) => {
                    &&& e == Error::UsernameTaken
                    &&& ({
                        let o = old(self).spec_owner(username@);
                        o is Some && o.unwrap() != user
                    })
                    &&& *final(self) == *old(self)
                },
            },
    {
        let name_pos = self.username_position(&username);
        match name_pos {
            Some(i) => {
                proof {
                    lemma_owner_at_index(self.usernames@, i as int);
                }
                if self.usernames[i].1 != user {
                    return Err(Error::UsernameTaken);
                }
            },
            None => {
                proof {
                    lemma_owner_absent(self.usernames@, username@);
                }
            },
        }

        // Free the caller's previous username where the name changes.
        let prof_pos = self.profile_position(user);
        match prof_pos {
            Some(j) => {
                proof {
                    lemma_profile_at_index(self.profiles@, j as int);
                }
                if !(self.profiles[j].1.username == username) {
                    match self.username_position(&self.profiles[j].1.username) {
                        Some(k) => {
                            proof {
                                lemma_owner_at_index(self.usernames@, k as int);
                                lemma_owner_remove(self.usernames@, k as int);
                            }
                            let _ = self.usernames.remove(k);
                        },
                        None => {
                            proof {
                                lemma_owner_absent(
                                    self.usernames@,
                                    self.profiles@[j as int].1.username@,
                                );
                            }
                        },
                    }
                }
                proof {
                    lemma_profile_update(
                        self.profiles@,
                        j as int,
                        (
                            user,
                            ProfileData {
                                username: username,
                                avatar_hash: avatar_hash,
                            },
                        ),
                    );
                }
                let record = ProfileData { username: username.clone(), avatar_hash };
                self.profiles[j] = (user, record);
            },
            None => {
                proof {
                    lemma_profile_absent(self.profiles@, user);
                    lemma_profile_push(
                        self.profiles@,
                        (
                            user,
                            ProfileData {
                                username: username,
                                avatar_hash: avatar_hash,
                            },
                        ),
                    );
                }
                let record = ProfileData { username: username.clone(), avatar_hash };
                self.profiles.push((user, record));
            },
        }

        // Maintain the reverse index: the username now resolves to `user`.
        match self.username_position(&username) {
            Some(i) => {
                proof {
                    lemma_owner_update(self.usernames@, i as int, (username, user));
                }
                self.usernames[i] = (username, user);
            },
            None => {
                proof {
                    lemma_owner_push(self.usernames@, (username, user));
                }
                self.usernames.push((username, user));
            },
        }
        Ok(())
    }

    /// The profile stored for `user`, if any.
    pub fn get_profile(&self, user: u64) -> (r: Option<ProfileData>)
        requires
            self.wf(),
        ensures
            match r {
                Some(p) => {
                    let stored = self.spec_profile(user);
                    &&& stored is Some
                    &&& p.username@ == stored.unwrap().username@
                    &&& p.avatar_hash@ == stored.unwrap().avatar_hash@
                },
                None => self.spec_profile(user) is None,
            },
    {
        match self.profile_position(user) {
            Some(i) => {
                proof {
                    lemma_profile_at_index(self.profiles@, i as int);
                }
                Some(self.profiles[i].1.duplicate())
            },
            None => {
                proof {
                    lemma_profile_absent(self.profiles@, user);
                }
                None
            },
        }
    }

    /// The account `username` resolves to, if any.
    pub fn resolve_username(&self, username: &String) -> (r: Option<u64>)
        requires
            self.wf(),
        ensures
            r == self.spec_owner(username@),
    {
        match self.username_position(username) {
            Some(i) => {
                proof {
                    lemma_owner_at_index(self.usernames@, i as int);
                }
                Some(self.usernames[i].1)
            },
            None => {
                proof {
                    lemma_owner_absent(self.usernames@, username@);
                }
                None
            },
        }
    }
}

} // verus!
