//! Administrator-held state and its privileged operations: the singleton
//! administrator identity (set at most once), the token whitelist, and the
//! per-token ledger of collected fees.
//!
//! Every operation here passes through the admin check; the caller
//! argument is the account the host has already authenticated. Operations
//! that move funds return the amount for the host to transfer — the engine
//! only decides and keeps the books.

use vstd::prelude::*;

verus! {

use crate::access::check_admin;
use crate::access::spec_check_admin;
use crate::ledger::AmountLedger;
use crate::types::Error;

/// What recording a candidate administrator does to the stored identity:
/// the first call records it, every later call fails `AlreadyInitialized`
/// and leaves the identity alone.
pub open spec fn spec_set_admin(admin: Option<u64>, candidate: u64) -> (Option<u64>, Result<
    (),
    Error,
>) {
    match admin {
        Some(a) => (Some(a), Err(Error::AlreadyInitialized)),
        None => (Some(candidate), Ok(())),
    }
}

/// Administrator identity, once recorded, is immutable: whatever one
/// `set_admin` call did, a second call always fails `AlreadyInitialized`
/// and leaves the identity exactly as the first call left it.
pub proof fn lemma_admin_set_once(admin: Option<u64>, first: u64, second: u64)
    ensures
        spec_set_admin(spec_set_admin(admin, first).0, second).1 == Result::<(), Error>::Err(
            Error::AlreadyInitialized,
        ),
        spec_set_admin(spec_set_admin(admin, first).0, second).0 == spec_set_admin(admin, first).0,
{
}

/// The administrator-held third of the engine: identity, whitelist, fees.
pub struct AdminContract {
    /// The singleton administrator; `None` until the first `set_admin`.
    pub account: Option<u64>,
    /// Tokens the administrator has whitelisted for giveaway creation.
    pub allowed_tokens: Vec<u64>,
    /// Fees collected per token, drained only by the administrator.
    pub collected_fees: AmountLedger,
}

impl AdminContract {
    /// The fee ledger is well formed: one non-negative balance per token.
    pub open spec fn wf(&self) -> bool {
        self.collected_fees.wf()
    }

    /// Whether the administrator has whitelisted `token`.
    pub open spec fn spec_token_allowed(&self, token: u64) -> bool {
        self.allowed_tokens@.contains(token)
    }

    /// The fee balance collected for `token`.
    pub open spec fn spec_fee_amount(&self, token: u64) -> int {
        self.collected_fees.spec_amount(token)
    }

    /// Genesis state: no administrator, no whitelisted token, no fees.
    pub fn new() -> (r: AdminContract)
        ensures
            r.wf(),
            r.account is None,
            forall|t: u64| !(#[trigger] r.spec_token_allowed(t)),
            forall|t: u64| #[trigger] r.spec_fee_amount(t) == 0,
    {
        AdminContract { account: None, allowed_tokens: Vec::new(), collected_fees: AmountLedger::new() }
    }

    /// Record the candidate as the singleton administrator. The candidate's
    /// own authorization is the host's to demand; the engine only enforces
    /// the set-once rule.
    pub fn set_admin(&mut self, candidate: u64) -> (r: Result<(), Error>)
        requires
            old(self).wf(),
        ensures
            final(self).wf(),
            (final(self).account, r) == spec_set_admin(old(self).account, candidate),
            final(self).allowed_tokens == old(self).allowed_tokens,
            final(self).collected_fees == old(self).collected_fees,
    {
        if self.account.is_some() {
            Err(Error::AlreadyInitialized)
        } else {
            self.account = Some(candidate);
            Ok(())
        }
    }

    /// Whether `token` is on the whitelist.
    pub fn is_token_allowed(&self, token: u64) -> (r: bool)
        ensures
            r == self.spec_token_allowed(token),
    {
        let n = self.allowed_tokens.len();
        let mut i: usize = 0;
        while i < n
            invariant
                n == self.allowed_tokens@.len(),
                i <= n,
                forall|j: int| 0 <= j < i ==> self.allowed_tokens@[j] != token,
            decreases n - i,
        {
            if self.allowed_tokens[i] == token {
                return true;
            }
            i = i + 1;
        }
        false
    }

    /// What `add_token` does: with the caller verified as administrator, the token joins the whitelist
    /// and every other token keeps its standing; a refused caller
    /// changes nothing.
    pub open spec fn add_token_post(
        pre: AdminContract,
        post: AdminContract,
        caller: u64,
        token: u64,
        r: Result<(), Error>,
    ) -> bool {
        &&& match r {
            Ok(()) => {
                &&& spec_check_admin(pre.account, caller) is Ok
                &&& forall|t: u64|
                    #[trigger] post.spec_token_allowed(t) <==> (pre.spec_token_allowed(t) || t
                        == token)
            },
            Err(e) => {
                &&& Err::<u64, Error>(e) == spec_check_admin(pre.account, caller)
                &&& post == pre
            },
        }
        &&& post.account == pre.account
        &&& post.collected_fees == pre.collected_fees
    }

    /// Whitelist `token` for giveaway creation. Administrator-only.
    pub fn add_token(&mut self, caller: u64, token: u64) -> (r: Result<(), Error>)
        requires
            old(self).wf(),
        ensures
            final(self).wf(),
            Self::add_token_post(*old(self), *final(self), caller, token, r),
    {
        match check_admin(&self.account, caller) {
            Err(e) => Err(e),
            Ok(_) => {
                if !self.is_token_allowed(token) {
                    let ghost before = self.allowed_tokens@;
                    self.allowed_tokens.push(token);
                    proof {
                        assert forall|t: u64| #[trigger]
                            self.spec_token_allowed(t) <==> (old(self).spec_token_allowed(t) || t
                                == token) by {
                            if t == token {
                                assert(self.allowed_tokens@[before.len() as int] == token);
                            } else {
                                if before.contains(t) {
                                    let i = choose|i: int|
                                        0 <= i < before.len() && before[i] == t;
                                    assert(self.allowed_tokens@[i] == t);
                                }
                                if self.allowed_tokens@.contains(t) {
                                    let i = choose|i: int|
                                        0 <= i < self.allowed_tokens@.len()
                                            && self.allowed_tokens@[i] == t;
                                    assert(before[i] == t);
                                }
                            }
                        }
                    }
                }
                Ok(())
            },
        }
    }

    /// What `withdraw_fees` does: with the caller verified as administrator, the whole balance under
    /// the token is handed out and that entry drops to zero, every other
    /// token keeps its balance; a refused caller changes nothing.
    pub open spec fn withdraw_fees_post(
        pre: AdminContract,
        post: AdminContract,
        caller: u64,
        token: u64,
        r: Result<i128, Error>,
    ) -> bool {
        &&& match r {
            Ok(a) => {
                &&& spec_check_admin(pre.account, caller) is Ok
                &&& a as int == pre.spec_fee_amount(token)
                &&& a >= 0
                &&& post.spec_fee_amount(token) == 0
                &&& forall|t: u64|
                    t != token ==> #[trigger] post.spec_fee_amount(t) == pre.spec_fee_amount(t)
            },
            Err(e) => {
                &&& Err::<u64, Error>(e) == spec_check_admin(pre.account, caller)
                &&& post == pre
            },
        }
        &&& post.account == pre.account
        &&& post.allowed_tokens == pre.allowed_tokens
    }

    /// Drain the fee balance collected for `token`. Administrator-only.
    /// Returns the drained amount, which the host transfers to the
    /// administrator; a zero balance is a no-op, not an error.
    pub fn withdraw_fees(&mut self, caller: u64, token: u64) -> (r: Result<i128, Error>)
        requires
            old(self).wf(),
        ensures
            final(self).wf(),
            Self::withdraw_fees_post(*old(self), *final(self), caller, token, r),
    {
        match check_admin(&self.account, caller) {
            Err(e) => Err(e),
            Ok(_) => {
                proof {
                    crate::ledger::lemma_amount_le_total(
                        self.collected_fees.entries@,
                        token,
                    );
                }
                let amount = self.collected_fees.amount_of(token);
                if amount > 0 {
                    self.collected_fees.clear(token);
                }
                Ok(amount)
            },
        }
    }

    /// The emergency escape valve: approve an arbitrary transfer out of the
    /// contract's own balance. The engine only enforces the administrator
    /// check; the host performs the transfer of `amount` of `token` to
    /// `to`, outside the giveaway and fee accounting.
    #[allow(unused_variables)]
    pub fn admin_withdraw(&self, caller: u64, token: u64, amount: i128, to: u64) -> (r: Result<
        (),
        Error,
    >)
        ensures
            match r {
                Ok(()) => spec_check_admin(self.account, caller) is Ok,
                Err(e) => Err::<u64, Error>(e) == spec_check_admin(self.account, caller),
            },
    {
        match check_admin(&self.account, caller) {
            Err(e) => Err(e),
            Ok(_) => Ok(()),
        }
    }
}

} // verus!
