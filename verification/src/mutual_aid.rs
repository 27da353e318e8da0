//! The mutual-aid escrow: the donate / cancel / refund / disburse state
//! machine for goal-funded help requests.
//!
//! Donations are escrowed and recorded per donor; the request flips to
//! `FullyFunded` on the donation that first reaches the goal. A request the
//! creator cancels lets every donor reclaim exactly their own recorded
//! contribution, once each; a fully funded one can be disbursed, once, to
//! the recipient the creator directs. The host performs the transfers the
//! engine returns.

use vstd::prelude::*;

verus! {

use crate::guard::ReentrancyGuard;
use crate::ledger::AmountLedger;
use crate::ledger::lemma_amount_le_total;
use crate::types::Error;
use crate::types::HelpRequest;
use crate::types::HelpRequestStatus;

/// The donate / cancel / refund / disburse state machine.
pub struct MutualAidContract {
    /// How many help requests were ever opened; the id of the newest one.
    pub counter: u64,
    /// Every help-request record; the record with id `n` sits at position
    /// `n - 1`.
    pub requests: Vec<HelpRequest>,
    /// Mutual exclusion around the disbursement.
    pub guard: ReentrancyGuard,
}

impl MutualAidContract {
    /// Escrow consistency: the id counter matches the record store, ids
    /// are dense and one-based, and every record is well formed.
    pub open spec fn wf(&self) -> bool {
        &&& self.counter as int == self.requests@.len()
        &&& forall|i: int|
            0 <= i < self.requests@.len() ==> (#[trigger] self.requests@[i]).id == i + 1
        &&& forall|i: int| 0 <= i < self.requests@.len() ==> (#[trigger] self.requests@[i]).wf()
    }

    /// Whether a help request was ever opened under `id`.
    pub open spec fn spec_has_request(&self, id: u64) -> bool {
        1 <= id && id as int <= self.requests@.len()
    }

    /// The record stored under `id`.
    pub open spec fn spec_request(&self, id: u64) -> HelpRequest {
        self.requests@[id as int - 1]
    }

    /// A genesis escrow: no requests, the guard released.
    pub fn new() -> (r: MutualAidContract)
        ensures
            r.wf(),
            r.counter == 0,
            r.requests@.len() == 0,
            !r.guard.spec_locked(),
    {
        MutualAidContract { counter: 0, requests: Vec::new(), guard: ReentrancyGuard::new() }
    }

    /// What `create_request` does: on success the next id is assigned and
    /// a fresh record with no donations is appended — born `Open`, or
    /// already `FullyFunded` when the goal asks for nothing; on refusal
    /// nothing moves.
    pub open spec fn create_request_post(
        pre: MutualAidContract,
        post: MutualAidContract,
        creator: u64,
        token: u64,
        goal: i128,
        r: Result<u64, Error>,
    ) -> bool {
        &&& post.guard == pre.guard
        &&& match r {
            Ok(id) => {
                &&& pre.counter < u64::MAX
                &&& id == pre.counter + 1
                &&& post.counter == id
                &&& post.requests@.len() == pre.requests@.len() + 1
                &&& ({
                    let q = post.spec_request(id);
                    &&& q.id == id
                    &&& q.creator == creator
                    &&& q.token == token
                    &&& q.goal == goal
                    &&& q.raised_amount == 0
                    &&& q.status == (if goal > 0 {
                        HelpRequestStatus::Open
                    } else {
                        HelpRequestStatus::FullyFunded
                    })
                    &&& q.contributions.spec_total() == 0
                    &&& forall|d: u64| #[trigger] q.contributions.spec_amount(d) == 0
                })
                &&& forall|i: int|
                    0 <= i < pre.requests@.len() ==> post.requests@[i] == pre.requests@[i]
            },
            Err(e) => {
                &&& e == Error::ArithmeticOverflow
                &&& pre.counter == u64::MAX
                &&& post == pre
            },
        }
    }

    /// Open a help request for `creator`, funded in `token` toward `goal`.
    /// Returns the new id.
    pub fn create_request(&mut self, creator: u64, token: u64, goal: i128) -> (r: Result<
        u64,
        Error,
    >)
        requires
            old(self).wf(),
        ensures
            final(self).wf(),
            Self::create_request_post(*old(self), *final(self), creator, token, goal, r),
    {
        if self.counter == u64::MAX {
            return Err(Error::ArithmeticOverflow);
        }
        self.counter = self.counter + 1;
        let status = if goal > 0 {
            HelpRequestStatus::Open
        } else {
            HelpRequestStatus::FullyFunded
        };
        let record = HelpRequest {
            id: self.counter,
            creator,
            token,
            goal,
            raised_amount: 0,
            status,
            contributions: AmountLedger::new(),
        };
        self.requests.push(record);
        Ok(self.counter)
    }

    /// Why a donation is refused, if it is: the moved amount must be
    /// strictly positive, the request must exist and still be `Open`, and
    /// the raised total must not overflow.
    pub open spec fn spec_donate_error(
        s: MutualAidContract,
        request_id: u64,
        amount: i128,
    ) -> Option<Error> {
        if amount <= 0 {
            Some(Error::InvalidDonationAmount)
        } else if !s.spec_has_request(request_id) {
            Some(Error::HelpRequestNotFound)
        } else {
            let q = s.spec_request(request_id);
            if q.status == HelpRequestStatus::FullyFunded {
                Some(Error::AlreadyFullyFunded)
            } else if q.status != HelpRequestStatus::Open {
                Some(Error::InvalidStatus)
            } else if q.raised_amount + amount > i128::MAX {
                Some(Error::ArithmeticOverflow)
            } else {
                None
            }
        }
    }

    /// What `donate` does: on success the donor's recorded contribution
    /// and the raised total both grow by exactly the escrowed amount, the
    /// status flips to `FullyFunded` exactly when the new total reaches
    /// the goal — never earlier, never later — and nothing else moves.
    pub open spec fn donate_post(
        pre: MutualAidContract,
        post: MutualAidContract,
        donor: u64,
        request_id: u64,
        amount: i128,
        r: Result<(), Error>,
    ) -> bool {
        &&& post.counter == pre.counter
        &&& post.guard == pre.guard
        &&& match r {
            Ok(()) => {
                &&& Self::spec_donate_error(pre, request_id, amount) is None
                &&& ({
                    let q0 = pre.spec_request(request_id);
                    let q1 = post.spec_request(request_id);
                    &&& q1.raised_amount == q0.raised_amount + amount
                    &&& q1.contributions.spec_amount(donor) == q0.contributions.spec_amount(donor)
                        + amount
                    &&& forall|d: u64|
                        d != donor ==> #[trigger] q1.contributions.spec_amount(d)
                            == q0.contributions.spec_amount(d)
                    &&& (q1.status == HelpRequestStatus::FullyFunded <==> q0.raised_amount + amount
                        >= q0.goal)
                    &&& (q1.status == HelpRequestStatus::Open <==> q0.raised_amount + amount
                        < q0.goal)
                    &&& q1.id == q0.id
                    &&& q1.creator == q0.creator
                    &&& q1.token == q0.token
                    &&& q1.goal == q0.goal
                })
                &&& forall|i: int|
                    0 <= i < pre.requests@.len() && i != request_id - 1 ==> post.requests@[i]
                        == pre.requests@[i]
            },
            Err(e) => {
                &&& Some(e) == Self::spec_donate_error(pre, request_id, amount)
                &&& post == pre
            },
        }
    }

    /// Escrow a donation (the host takes `amount` of the request's token
    /// from the donor), record it under the donor for a possible later
    /// refund, and flip the request to `FullyFunded` the instant the
    /// raised total reaches the goal.
    pub fn donate(&mut self, donor: u64, request_id: u64, amount: i128) -> (r: Result<(), Error>)
        requires
            old(self).wf(),
        ensures
            final(self).wf(),
            Self::donate_post(*old(self), *final(self), donor, request_id, amount, r),
    {
        if amount <= 0 {
            return Err(Error::InvalidDonationAmount);
        }
        if request_id < 1 || request_id > self.counter {
            return Err(Error::HelpRequestNotFound);
        }
        let n = self.requests.len();
        let idx = (request_id - 1) as usize;
        assert(idx < n);
        if self.requests[idx].status == HelpRequestStatus::FullyFunded {
            return Err(Error::AlreadyFullyFunded);
        }
        if self.requests[idx].status != HelpRequestStatus::Open {
            return Err(Error::InvalidStatus);
        }
        let new_raised = match self.requests[idx].raised_amount.checked_add(amount) {
            Some(v) => v,
            None => {
                return Err(Error::ArithmeticOverflow);
            },
        };
        proof {
            lemma_amount_le_total(self.requests@[idx as int].contributions.entries@, donor);
        }
        let q = &mut self.requests[idx];
        match q.contributions.credit(donor, amount) {
            Ok(()) => {},
            Err(e) => {
                // An open request's records sum to its raised total, so a
                // single record cannot overflow before the total does.
                return Err(e);
            },
        }
        q.raised_amount = new_raised;
        if new_raised >= q.goal {
            q.status = HelpRequestStatus::FullyFunded;
        }
        Ok(())
    }

    /// Why a cancellation is refused, if it is: the request must exist,
    /// only its creator may cancel it, and a request that is already fully
    /// funded, disbursed or cancelled stays as it stands.
    pub open spec fn spec_cancel_error(
        s: MutualAidContract,
        caller: u64,
        request_id: u64,
    ) -> Option<Error> {
        if !s.spec_has_request(request_id) {
            Some(Error::HelpRequestNotFound)
        } else {
            let q = s.spec_request(request_id);
            if caller != q.creator {
                Some(Error::Unauthorized)
            } else if q.status != HelpRequestStatus::Open {
                Some(Error::InvalidStatus)
            } else {
                None
            }
        }
    }

    /// What `cancel_request` does: on success exactly one open request
    /// turns `Cancelled`, unlocking refunds, and nothing else moves — in
    /// particular no funds move.
    pub open spec fn cancel_post(
        pre: MutualAidContract,
        post: MutualAidContract,
        caller: u64,
        request_id: u64,
        r: Result<(), Error>,
    ) -> bool {
        &&& post.counter == pre.counter
        &&& post.guard == pre.guard
        &&& match r {
            Ok(()) => {
                &&& Self::spec_cancel_error(pre, caller, request_id) is None
                &&& ({
                    let q0 = pre.spec_request(request_id);
                    let q1 = post.spec_request(request_id);
                    &&& q1.status == HelpRequestStatus::Cancelled
                    &&& q1.raised_amount == q0.raised_amount
                    &&& q1.contributions == q0.contributions
                    &&& q1.id == q0.id
                    &&& q1.creator == q0.creator
                    &&& q1.token == q0.token
                    &&& q1.goal == q0.goal
                })
                &&& forall|i: int|
                    0 <= i < pre.requests@.len() && i != request_id - 1 ==> post.requests@[i]
                        == pre.requests@[i]
            },
            Err(e) => {
                &&& Some(e) == Self::spec_cancel_error(pre, caller, request_id)
                &&& post == pre
            },
        }
    }

    /// Cancel an open request. Creator-only; a request that already
    /// reached its goal is not clawed back. Moves no funds itself: it only
    /// unlocks the donors' refunds.
    pub fn cancel_request(&mut self, caller: u64, request_id: u64) -> (r: Result<(), Error>)
        requires
            old(self).wf(),
        ensures
            final(self).wf(),
            Self::cancel_post(*old(self), *final(self), caller, request_id, r),
    {
        if request_id < 1 || request_id > self.counter {
            return Err(Error::HelpRequestNotFound);
        }
        let n = self.requests.len();
        let idx = (request_id - 1) as usize;
        assert(idx < n);
        if caller != self.requests[idx].creator {
            return Err(Error::Unauthorized);
        }
        if self.requests[idx].status != HelpRequestStatus::Open {
            return Err(Error::InvalidStatus);
        }
        self.requests[idx].status = HelpRequestStatus::Cancelled;
        Ok(())
    }

    /// Why a refund is refused, if it is: the request must exist and be
    /// `Cancelled`, and the donor must hold a positive unclaimed
    /// contribution.
    pub open spec fn spec_refund_error(
        s: MutualAidContract,
        donor: u64,
        request_id: u64,
    ) -> Option<Error> {
        if !s.spec_has_request(request_id) {
            Some(Error::HelpRequestNotFound)
        } else {
            let q = s.spec_request(request_id);
            if q.status != HelpRequestStatus::Cancelled {
                Some(Error::InvalidStatus)
            } else if q.contributions.spec_amount(donor) == 0 {
                Some(Error::NothingToRefund)
            } else {
                None
            }
        }
    }

    /// What `claim_refund` does: on success the donor receives exactly the
    /// recorded contribution, the record is zeroed so it cannot be claimed
    /// twice, and nothing else moves.
    pub open spec fn refund_post(
        pre: MutualAidContract,
        post: MutualAidContract,
        donor: u64,
        request_id: u64,
        r: Result<i128, Error>,
    ) -> bool {
        &&& post.counter == pre.counter
        &&& post.guard == pre.guard
        &&& match r {
            Ok(a) => {
                &&& Self::spec_refund_error(pre, donor, request_id) is None
                &&& ({
                    let q0 = pre.spec_request(request_id);
                    let q1 = post.spec_request(request_id);
                    &&& a as int == q0.contributions.spec_amount(donor)
                    &&& a > 0
                    &&& q1.contributions.spec_amount(donor) == 0
                    &&& forall|d: u64|
                        d != donor ==> #[trigger] q1.contributions.spec_amount(d)
                            == q0.contributions.spec_amount(d)
                    &&& q1.status == q0.status
                    &&& q1.raised_amount == q0.raised_amount
                    &&& q1.id == q0.id
                    &&& q1.creator == q0.creator
                    &&& q1.token == q0.token
                    &&& q1.goal == q0.goal
                })
                &&& forall|i: int|
                    0 <= i < pre.requests@.len() && i != request_id - 1 ==> post.requests@[i]
                        == pre.requests@[i]
            },
            Err(e) => {
                &&& Some(e) == Self::spec_refund_error(pre, donor, request_id)
                &&& post == pre
            },
        }
    }

    /// Reclaim the donor's recorded contribution from a cancelled request,
    /// once: the host transfers the returned amount back to the donor and
    /// the record is zeroed against a second claim.
    pub fn claim_refund(&mut self, donor: u64, request_id: u64) -> (r: Result<i128, Error>)
        requires
            old(self).wf(),
        ensures
            final(self).wf(),
            Self::refund_post(*old(self), *final(self), donor, request_id, r),
    {
        if request_id < 1 || request_id > self.counter {
            return Err(Error::HelpRequestNotFound);
        }
        let n = self.requests.len();
        let idx = (request_id - 1) as usize;
        assert(idx < n);
        if self.requests[idx].status != HelpRequestStatus::Cancelled {
            return Err(Error::InvalidStatus);
        }
        proof {
            lemma_amount_le_total(self.requests@[idx as int].contributions.entries@, donor);
        }
        let contributed = self.requests[idx].contributions.amount_of(donor);
        if contributed == 0 {
            return Err(Error::NothingToRefund);
        }
        self.requests[idx].contributions.clear(donor);
        Ok(contributed)
    }

    /// Why a disbursement is refused, if it is (the reentrancy check comes
    /// first and is stated at `withdraw_aid` itself): the request must
    /// exist, only its creator may direct the disbursement, and only a
    /// fully funded request releases its escrow.
    pub open spec fn spec_withdraw_error(
        s: MutualAidContract,
        caller: u64,
        request_id: u64,
    ) -> Option<Error> {
        if !s.spec_has_request(request_id) {
            Some(Error::HelpRequestNotFound)
        } else {
            let q = s.spec_request(request_id);
            if caller != q.creator {
                Some(Error::Unauthorized)
            } else if q.status != HelpRequestStatus::FullyFunded {
                Some(Error::InvalidStatus)
            } else {
                None
            }
        }
    }

    /// What the disbursement body does, guard aside: on success the whole
    /// raised escrow is released (the host transfers it to the recipient)
    /// and exactly one request turns `Disbursed`, terminally; on refusal
    /// nothing moves.
    pub open spec fn withdraw_core_post(
        pre: MutualAidContract,
        post: MutualAidContract,
        caller: u64,
        request_id: u64,
        r: Result<i128, Error>,
    ) -> bool {
        &&& post.counter == pre.counter
        &&& post.guard == pre.guard
        &&& match r {
            Ok(a) => {
                &&& Self::spec_withdraw_error(pre, caller, request_id) is None
                &&& ({
                    let q0 = pre.spec_request(request_id);
                    let q1 = post.spec_request(request_id);
                    &&& a == q0.raised_amount
                    &&& q1.status == HelpRequestStatus::Disbursed
                    &&& q1.raised_amount == q0.raised_amount
                    &&& q1.contributions == q0.contributions
                    &&& q1.id == q0.id
                    &&& q1.creator == q0.creator
                    &&& q1.token == q0.token
                    &&& q1.goal == q0.goal
                })
                &&& forall|i: int|
                    0 <= i < pre.requests@.len() && i != request_id - 1 ==> post.requests@[i]
                        == pre.requests@[i]
            },
            Err(e) => {
                &&& Some(e) == Self::spec_withdraw_error(pre, caller, request_id)
                &&& post == pre
            },
        }
    }

    /// What `withdraw_aid` does: a call that arrives while the guard is
    /// held is refused with `ReentrantCall` and moves nothing; any other
    /// call behaves as the disbursement body and leaves the guard
    /// released.
    pub open spec fn withdraw_post(
        pre: MutualAidContract,
        post: MutualAidContract,
        caller: u64,
        request_id: u64,
        r: Result<i128, Error>,
    ) -> bool {
        if pre.guard.spec_locked() {
            r == Result::<i128, Error>::Err(Error::ReentrantCall) && post == pre
        } else {
            Self::withdraw_core_post(pre, post, caller, request_id, r)
        }
    }

    /// Release the escrow of a fully funded request, once: the creator
    /// directs it, the host transfers the returned amount to `recipient`,
    /// and the request turns `Disbursed`, terminally. Runs under the
    /// reentrancy guard, released on every exit path.
    #[allow(unused_variables)]
    pub fn withdraw_aid(&mut self, caller: u64, request_id: u64, recipient: u64) -> (r: Result<
        i128,
        Error,
    >)
        requires
            old(self).wf(),
        ensures
            final(self).wf(),
            Self::withdraw_post(*old(self), *final(self), caller, request_id, r),
    {
        match self.guard.acquire() {
            Err(e) => {
                return Err(e);
            },
            Ok(()) => {},
        }
        let r = self.withdraw_locked(caller, request_id);
        self.guard.release();
        r
    }

    /// The disbursement body, run while the guard is held.
    fn withdraw_locked(&mut self, caller: u64, request_id: u64) -> (r: Result<i128, Error>)
        requires
            old(self).wf(),
        ensures
            final(self).wf(),
            Self::withdraw_core_post(*old(self), *final(self), caller, request_id, r),
    {
        if request_id < 1 || request_id > self.counter {
            return Err(Error::HelpRequestNotFound);
        }
        let n = self.requests.len();
        let idx = (request_id - 1) as usize;
        assert(idx < n);
        if caller != self.requests[idx].creator {
            return Err(Error::Unauthorized);
        }
        if self.requests[idx].status != HelpRequestStatus::FullyFunded {
            return Err(Error::InvalidStatus);
        }
        let raised = self.requests[idx].raised_amount;
        self.requests[idx].status = HelpRequestStatus::Disbursed;
        Ok(raised)
    }
}

/// Raised funds never outrun the per-donor records: in every well-formed
/// request the recorded contributions sum to at most the raised total, and
/// exactly to it as long as no cancellation has opened the refund path.
pub proof fn lemma_raised_matches_records(q: HelpRequest)
    requires
        q.wf(),
    ensures
        0 <= q.contributions.spec_total() <= q.raised_amount,
        q.status != HelpRequestStatus::Cancelled ==> q.contributions.spec_total()
            == q.raised_amount,
{
    crate::ledger::lemma_total_nonneg(q.contributions.entries@);
}

/// A request flips to `FullyFunded` the instant its goal is reached and
/// never later: an `Open` request always still stands short of its goal.
pub proof fn lemma_open_means_short_of_goal(q: HelpRequest)
    requires
        q.wf(),
        q.status == HelpRequestStatus::Open,
    ensures
        q.raised_amount < q.goal,
{
}

} // verus!
