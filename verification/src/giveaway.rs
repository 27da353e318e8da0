//! The giveaway engine: the create / enter / draw / distribute state
//! machine for time-boxed random giveaways.
//!
//! The engine holds every giveaway record ever created (ids are assigned
//! monotonically and never reused), the administrator state, and the
//! reentrancy guard around the one operation that releases escrowed
//! principal. The host hands in clock readings and the random draw as plain
//! values and performs the transfers the engine returns; everything the
//! engine decides — whether a movement is allowed and its exact amount — is
//! stated in the contracts below.

use vstd::prelude::*;

verus! {

use crate::access::spec_check_admin;
use crate::admin::AdminContract;
use crate::admin::spec_set_admin;
use crate::guard::ReentrancyGuard;
use crate::types::Error;
use crate::types::Giveaway;
use crate::types::GiveawayStatus;
use crate::types::PrizePayout;
use crate::types::status_rank;
use vstd::arithmetic::div_mod::lemma_div_is_ordered;
use vstd::arithmetic::div_mod::lemma_div_is_ordered_by_denominator;
use vstd::arithmetic::div_mod::lemma_div_multiples_vanish;
use vstd::arithmetic::div_mod::lemma_div_pos_is_pos;
use vstd::arithmetic::mul::lemma_mul_inequality;
use vstd::arithmetic::mul::lemma_mul_nonnegative;

/// The fee rate a fresh engine charges until `init` configures another:
/// 100 basis points, one percent.
pub const DEFAULT_FEE_BPS: u32 = 100;

/// The fee retained from an escrowed prize: the integer floor of
/// `amount * fee_bps / 10_000`. The winner receives the rest, so fee plus
/// net is exactly the escrowed amount.
pub open spec fn spec_fee(amount: int, fee_bps: int) -> int {
    amount * fee_bps / (crate::BPS_DENOMINATOR as int)
}

/// The fee computation rounds in the engine's favour but never loses a
/// unit: the fee is the exact integer floor, it never exceeds the prize
/// (at any rate up to the whole), and fee plus net reassemble the escrowed
/// amount exactly.
pub proof fn lemma_fee_bounded(amount: i128, fee_bps: u32)
    requires
        amount > 0,
        fee_bps <= crate::BPS_DENOMINATOR,
    ensures
        0 <= spec_fee(amount as int, fee_bps as int) <= amount,
        spec_fee(amount as int, fee_bps as int) + (amount - spec_fee(
            amount as int,
            fee_bps as int,
        )) == amount,
{
    let d = crate::BPS_DENOMINATOR as int;
    lemma_mul_nonnegative(amount as int, fee_bps as int);
    lemma_div_pos_is_pos(amount as int * fee_bps as int, d);
    lemma_mul_inequality(fee_bps as int, d, amount as int);
    lemma_div_is_ordered(amount as int * fee_bps as int, amount as int * d, d);
    lemma_div_multiples_vanish(amount as int, d);
}

/// A drawn 64-bit value reduced modulo the participant count always lands
/// on a dense index of the participant ledger.
pub proof fn lemma_draw_index_in_range(seed: u64, count: u32)
    requires
        count > 0,
    ensures
        0 <= (seed as int) % (count as int) < count as int,
{
}

/// The participant ledger never miscounts and never holds an account
/// twice: in every well-formed giveaway the recorded count is exactly the
/// number of accepted entries, and two distinct dense indexes name two
/// distinct accounts.
pub proof fn lemma_participant_ledger(g: Giveaway)
    requires
        g.wf(),
    ensures
        g.participant_count as int == g.participants@.len(),
        forall|i: int, j: int|
            #![trigger g.participants@[i], g.participants@[j]]
            0 <= i < j < g.participants@.len() ==> g.participants@[i] != g.participants@[j],
{
}

/// The create / enter / draw / distribute state machine, together with the
/// administrator state it holds privileged operations to.
pub struct GiveawayContract {
    /// Administrator identity, token whitelist and collected fees.
    pub admin: AdminContract,
    /// The configured fee rate in basis points.
    pub fee_bps: u32,
    /// How many giveaways were ever created; the id of the newest one.
    pub counter: u64,
    /// Every giveaway record, retained permanently; the record with id `n`
    /// sits at position `n - 1`.
    pub giveaways: Vec<Giveaway>,
    /// Mutual exclusion around the prize distribution.
    pub guard: ReentrancyGuard,
}

impl GiveawayContract {
    /// Engine consistency: the id counter matches the record store, ids
    /// are dense and one-based, and every record is well formed.
    pub open spec fn wf(&self) -> bool {
        &&& self.admin.wf()
        &&& self.counter as int == self.giveaways@.len()
        &&& forall|i: int|
            0 <= i < self.giveaways@.len() ==> (#[trigger] self.giveaways@[i]).id == i + 1
        &&& forall|i: int| 0 <= i < self.giveaways@.len() ==> (#[trigger] self.giveaways@[i]).wf()
    }

    /// Whether a giveaway was ever created under `id`.
    pub open spec fn spec_has_giveaway(&self, id: u64) -> bool {
        1 <= id && id as int <= self.giveaways@.len()
    }

    /// The record stored under `id`.
    pub open spec fn spec_giveaway(&self, id: u64) -> Giveaway {
        self.giveaways@[id as int - 1]
    }

    /// A genesis engine: no administrator, no whitelisted token, no fees,
    /// no giveaways, the default fee rate, the guard released.
    pub fn new() -> (r: GiveawayContract)
        ensures
            r.wf(),
            r.admin.account is None,
            forall|t: u64| !(#[trigger] r.admin.spec_token_allowed(t)),
            forall|t: u64| #[trigger] r.admin.spec_fee_amount(t) == 0,
            r.fee_bps == DEFAULT_FEE_BPS,
            r.counter == 0,
            r.giveaways@.len() == 0,
            !r.guard.spec_locked(),
    {
        GiveawayContract {
            admin: AdminContract::new(),
            fee_bps: DEFAULT_FEE_BPS,
            counter: 0,
            giveaways: Vec::new(),
            guard: ReentrancyGuard::new(),
        }
    }

    /// What `init` does: the first call records the administrator and the
    /// fee rate, every later call fails `AlreadyInitialized` and changes
    /// nothing; nothing else ever moves.
    pub open spec fn init_post(
        pre: GiveawayContract,
        post: GiveawayContract,
        admin: u64,
        fee_bps: u32,
        r: Result<(), Error>,
    ) -> bool {
        &&& match r {
            Ok(()) => {
                &&& pre.admin.account is None
                &&& post.admin.account == Some(admin)
                &&& post.fee_bps == fee_bps
            },
            Err(e) => {
                &&& e == Error::AlreadyInitialized
                &&& pre.admin.account is Some
                &&& post == pre
            },
        }
        &&& post.admin.allowed_tokens == pre.admin.allowed_tokens
        &&& post.admin.collected_fees == pre.admin.collected_fees
        &&& post.counter == pre.counter
        &&& post.giveaways == pre.giveaways
        &&& post.guard == pre.guard
    }

    /// Record the administrator and the fee rate, once. A second
    /// initialization always fails and changes nothing.
    pub fn init(&mut self, admin: u64, fee_bps: u32) -> (r: Result<(), Error>)
        requires
            old(self).wf(),
        ensures
            final(self).wf(),
            Self::init_post(*old(self), *final(self), admin, fee_bps, r),
    {
        match self.admin.set_admin(admin) {
            Err(e) => Err(e),
            Ok(()) => {
                self.fee_bps = fee_bps;
                Ok(())
            },
        }
    }

    /// Record the candidate as the singleton administrator; the fee rate
    /// keeps its standing value.
    pub fn set_admin(&mut self, candidate: u64) -> (r: Result<(), Error>)
        requires
            old(self).wf(),
        ensures
            final(self).wf(),
            (final(self).admin.account, r) == spec_set_admin(old(self).admin.account, candidate),
            final(self).admin.allowed_tokens == old(self).admin.allowed_tokens,
            final(self).admin.collected_fees == old(self).admin.collected_fees,
            final(self).fee_bps == old(self).fee_bps,
            final(self).counter == old(self).counter,
            final(self).giveaways == old(self).giveaways,
            final(self).guard == old(self).guard,
    {
        self.admin.set_admin(candidate)
    }

    /// Why a creation request is refused, if it is: the token must be
    /// whitelisted, and neither the id counter nor the closing time may
    /// overflow their machine words.
    pub open spec fn spec_create_error(
        s: GiveawayContract,
        token: u64,
        duration_seconds: u64,
        now: u64,
    ) -> Option<Error> {
        if !s.admin.spec_token_allowed(token) {
            Some(Error::TokenNotSupported)
        } else if now as int + duration_seconds as int > u64::MAX {
            Some(Error::ArithmeticOverflow)
        } else if s.counter == u64::MAX {
            Some(Error::ArithmeticOverflow)
        } else {
            None
        }
    }

    /// What `create_giveaway` does: on success the next id is assigned and
    /// a fresh `Active` record with the escrowed amount and the computed
    /// closing time is appended; on refusal nothing moves.
    pub open spec fn create_post(
        pre: GiveawayContract,
        post: GiveawayContract,
        creator: u64,
        token: u64,
        amount: i128,
        title: String,
        duration_seconds: u64,
        now: u64,
        r: Result<u64, Error>,
    ) -> bool {
        &&& post.admin == pre.admin
        &&& post.fee_bps == pre.fee_bps
        &&& post.guard == pre.guard
        &&& match r {
            Ok(id) => {
                &&& Self::spec_create_error(pre, token, duration_seconds, now) is None
                &&& id == pre.counter + 1
                &&& post.counter == id
                &&& post.giveaways@.len() == pre.giveaways@.len() + 1
                &&& ({
                    let g = post.spec_giveaway(id);
                    &&& g.id == id
                    &&& g.creator == creator
                    &&& g.token == token
                    &&& g.amount == amount
                    &&& g.title == title
                    &&& g.participants@.len() == 0
                    &&& g.participant_count == 0
                    &&& g.end_time == now + duration_seconds
                    &&& g.status == GiveawayStatus::Active
                    &&& g.winner is None
                })
                &&& forall|i: int|
                    0 <= i < pre.giveaways@.len() ==> post.giveaways@[i] == pre.giveaways@[i]
            },
            Err(e) => {
                &&& Some(e) == Self::spec_create_error(pre, token, duration_seconds, now)
                &&& post == pre
            },
        }
    }

    /// Open a giveaway: escrow `amount` of `token` (the host takes the
    /// deposit from the creator), assign the next id, and record it
    /// `Active` until `now + duration_seconds`. Returns the new id.
    pub fn create_giveaway(
        &mut self,
        creator: u64,
        token: u64,
        amount: i128,
        title: String,
        duration_seconds: u64,
        now: u64,
    ) -> (r: Result<u64, Error>)
        requires
            old(self).wf(),
            amount > 0,
        ensures
            final(self).wf(),
            statuses_monotone(*old(self), *final(self)),
            Self::create_post(
                *old(self),
                *final(self),
                creator,
                token,
                amount,
                title,
                duration_seconds,
                now,
                r,
            ),
    {
        if !self.admin.is_token_allowed(token) {
            return Err(Error::TokenNotSupported);
        }
        let end_time = match now.checked_add(duration_seconds) {
            Some(t) => t,
            None => {
                return Err(Error::ArithmeticOverflow);
            },
        };
        let giveaway_id = match self.generate_id() {
            Ok(id) => id,
            Err(e) => {
                return Err(e);
            },
        };
        let record = Giveaway {
            id: giveaway_id,
            creator,
            token,
            amount,
            title,
            participants: Vec::new(),
            participant_count: 0,
            end_time,
            status: GiveawayStatus::Active,
            winner: None,
        };
        self.giveaways.push(record);
        Ok(giveaway_id)
    }

    /// Assign the next giveaway id: the counter moves up by exactly one
    /// and is never reused.
    fn generate_id(&mut self) -> (r: Result<u64, Error>)
        ensures
            final(self).admin == old(self).admin,
            final(self).fee_bps == old(self).fee_bps,
            final(self).giveaways == old(self).giveaways,
            final(self).guard == old(self).guard,
            match r {
                Ok(id) => {
                    &&& old(self).counter < u64::MAX
                    &&& id == old(self).counter + 1
                    &&& final(self).counter == id
                },
                Err(e) => {
                    &&& e == Error::ArithmeticOverflow
                    &&& old(self).counter == u64::MAX
                    &&& *final(self) == *old(self)
                },
            },
    {
        if self.counter == u64::MAX {
            return Err(Error::ArithmeticOverflow);
        }
        self.counter = self.counter + 1;
        Ok(self.counter)
    }

    /// Why an entry is refused, if it is: the giveaway must exist, still
    /// be `Active`, not yet be past its closing time, not already hold the
    /// participant, and have room in its 32-bit count.
    pub open spec fn spec_enter_error(
        s: GiveawayContract,
        participant: u64,
        giveaway_id: u64,
        now: u64,
    ) -> Option<Error> {
        if !s.spec_has_giveaway(giveaway_id) {
            Some(Error::GiveawayNotFound)
        } else {
            let g = s.spec_giveaway(giveaway_id);
            if g.status != GiveawayStatus::Active {
                Some(Error::InvalidStatus)
            } else if now > g.end_time {
                Some(Error::TimeWindowViolation)
            } else if g.participants@.contains(participant) {
                Some(Error::DuplicateEntry)
            } else if g.participant_count == u32::MAX {
                Some(Error::ArithmeticOverflow)
            } else {
                None
            }
        }
    }

    /// What `enter_giveaway` does: on success exactly one account is
    /// appended to exactly one participant ledger and that count moves up
    /// by one; on refusal nothing moves.
    pub open spec fn enter_post(
        pre: GiveawayContract,
        post: GiveawayContract,
        participant: u64,
        giveaway_id: u64,
        now: u64,
        r: Result<(), Error>,
    ) -> bool {
        &&& post.admin == pre.admin
        &&& post.fee_bps == pre.fee_bps
        &&& post.counter == pre.counter
        &&& post.guard == pre.guard
        &&& match r {
            Ok(()) => {
                &&& Self::spec_enter_error(pre, participant, giveaway_id, now) is None
                &&& ({
                    let g0 = pre.spec_giveaway(giveaway_id);
                    let g1 = post.spec_giveaway(giveaway_id);
                    &&& g1.participants@ == g0.participants@.push(participant)
                    &&& g1.participant_count == g0.participant_count + 1
                    &&& g1.id == g0.id
                    &&& g1.creator == g0.creator
                    &&& g1.token == g0.token
                    &&& g1.amount == g0.amount
                    &&& g1.title == g0.title
                    &&& g1.end_time == g0.end_time
                    &&& g1.status == g0.status
                    &&& g1.winner == g0.winner
                })
                &&& forall|i: int|
                    0 <= i < pre.giveaways@.len() && i != giveaway_id - 1 ==> post.giveaways@[i]
                        == pre.giveaways@[i]
            },
            Err(e) => {
                &&& Some(e) == Self::spec_enter_error(pre, participant, giveaway_id, now)
                &&& post == pre
            },
        }
    }

    /// Enter the participant into an active, not yet ended giveaway it has
    /// not entered before: the account is appended to the participant
    /// ledger at the next dense index and the count moves up by one.
    pub fn enter_giveaway(&mut self, participant: u64, giveaway_id: u64, now: u64) -> (r: Result<
        (),
        Error,
    >)
        requires
            old(self).wf(),
        ensures
            final(self).wf(),
            statuses_monotone(*old(self), *final(self)),
            Self::enter_post(*old(self), *final(self), participant, giveaway_id, now, r),
    {
        if giveaway_id < 1 || giveaway_id > self.counter {
            return Err(Error::GiveawayNotFound);
        }
        let n = self.giveaways.len();
        let idx = (giveaway_id - 1) as usize;
        assert(idx < n);
        if self.giveaways[idx].status != GiveawayStatus::Active {
            return Err(Error::InvalidStatus);
        }
        if now > self.giveaways[idx].end_time {
            return Err(Error::TimeWindowViolation);
        }
        if self.giveaways[idx].has_entered(participant) {
            return Err(Error::DuplicateEntry);
        }
        if self.giveaways[idx].participant_count == u32::MAX {
            return Err(Error::ArithmeticOverflow);
        }
        let g = &mut self.giveaways[idx];
        g.participants.push(participant);
        g.participant_count = g.participant_count + 1;
        Ok(())
    }

    /// The account recorded at a dense index of a giveaway's participant
    /// ledger.
    pub fn entry_at(&self, giveaway_id: u64, index: u32) -> (r: Result<u64, Error>)
        requires
            self.wf(),
        ensures
            match r {
                Ok(account) => {
                    &&& self.spec_has_giveaway(giveaway_id)
                    &&& index < self.spec_giveaway(giveaway_id).participant_count
                    &&& account == self.spec_giveaway(giveaway_id).participants@[index as int]
                },
                Err(e) => {
                    if !self.spec_has_giveaway(giveaway_id) {
                        e == Error::GiveawayNotFound
                    } else {
                        e == Error::IndexOutOfRange && index >= self.spec_giveaway(
                            giveaway_id,
                        ).participant_count
                    }
                },
            },
    {
        if giveaway_id < 1 || giveaway_id > self.counter {
            return Err(Error::GiveawayNotFound);
        }
        let n = self.giveaways.len();
        let idx = (giveaway_id - 1) as usize;
        assert(idx < n);
        if index >= self.giveaways[idx].participant_count {
            return Err(Error::IndexOutOfRange);
        }
        Ok(self.giveaways[idx].participants[index as usize])
    }

    /// Why a draw is refused, if it is: the giveaway must exist, still be
    /// `Active`, be past its closing time, and have at least one entrant.
    pub open spec fn spec_pick_error(s: GiveawayContract, giveaway_id: u64, now: u64) -> Option<
        Error,
    > {
        if !s.spec_has_giveaway(giveaway_id) {
            Some(Error::GiveawayNotFound)
        } else {
            let g = s.spec_giveaway(giveaway_id);
            if g.status != GiveawayStatus::Active {
                Some(Error::InvalidStatus)
            } else if now <= g.end_time {
                Some(Error::TimeWindowViolation)
            } else if g.participant_count == 0 {
                Some(Error::NoParticipants)
            } else {
                None
            }
        }
    }

    /// What `pick_winner` does: on success the drawn index is the seed
    /// reduced modulo the participant count, the account at that dense
    /// index becomes the winner, and only that one record turns
    /// `Claimable`; on refusal nothing moves.
    pub open spec fn pick_post(
        pre: GiveawayContract,
        post: GiveawayContract,
        giveaway_id: u64,
        now: u64,
        seed: u64,
        r: Result<u64, Error>,
    ) -> bool {
        &&& post.admin == pre.admin
        &&& post.fee_bps == pre.fee_bps
        &&& post.counter == pre.counter
        &&& post.guard == pre.guard
        &&& match r {
            Ok(w) => {
                &&& Self::spec_pick_error(pre, giveaway_id, now) is None
                &&& ({
                    let g0 = pre.spec_giveaway(giveaway_id);
                    let g1 = post.spec_giveaway(giveaway_id);
                    let drawn = (seed as int) % (g0.participant_count as int);
                    &&& 0 <= drawn < g0.participants@.len()
                    &&& w == g0.participants@[drawn]
                    &&& g1.winner == Some(w)
                    &&& g1.status == GiveawayStatus::Claimable
                    &&& g1.participants@ == g0.participants@
                    &&& g1.participant_count == g0.participant_count
                    &&& g1.id == g0.id
                    &&& g1.creator == g0.creator
                    &&& g1.token == g0.token
                    &&& g1.amount == g0.amount
                    &&& g1.title == g0.title
                    &&& g1.end_time == g0.end_time
                })
                &&& forall|i: int|
                    0 <= i < pre.giveaways@.len() && i != giveaway_id - 1 ==> post.giveaways@[i]
                        == pre.giveaways@[i]
            },
            Err(e) => {
                &&& Some(e) == Self::spec_pick_error(pre, giveaway_id, now)
                &&& post == pre
            },
        }
    }

    /// Draw the winner of an ended giveaway: the host-supplied 64-bit draw
    /// is reduced modulo the participant count to a dense index, the
    /// account there becomes the winner, and the giveaway turns
    /// `Claimable`. The reduction biases the draw by at most
    /// `2^64 mod participant_count` parts in `2^64`, a fairness caveat,
    /// not a correctness one.
    pub fn pick_winner(&mut self, giveaway_id: u64, now: u64, seed: u64) -> (r: Result<u64, Error>)
        requires
            old(self).wf(),
        ensures
            final(self).wf(),
            statuses_monotone(*old(self), *final(self)),
            Self::pick_post(*old(self), *final(self), giveaway_id, now, seed, r),
    {
        if giveaway_id < 1 || giveaway_id > self.counter {
            return Err(Error::GiveawayNotFound);
        }
        let n = self.giveaways.len();
        let idx = (giveaway_id - 1) as usize;
        assert(idx < n);
        if self.giveaways[idx].status != GiveawayStatus::Active {
            return Err(Error::InvalidStatus);
        }
        if now <= self.giveaways[idx].end_time {
            return Err(Error::TimeWindowViolation);
        }
        let count = self.giveaways[idx].participant_count;
        if count == 0 {
            return Err(Error::NoParticipants);
        }
        let winner_index = (seed % (count as u64)) as usize;
        let winner = self.giveaways[idx].participants[winner_index];
        let g = &mut self.giveaways[idx];
        g.winner = Some(winner);
        g.status = GiveawayStatus::Claimable;
        Ok(winner)
    }

    /// Why a distribution is refused, if it is (the reentrancy check comes
    /// first and is stated at `distribute_prize` itself): the giveaway
    /// must exist and stand `Claimable`, and neither the fee product nor
    /// the fee ledger balance may overflow.
    pub open spec fn spec_distribute_error(s: GiveawayContract, giveaway_id: u64) -> Option<
        Error,
    > {
        if !s.spec_has_giveaway(giveaway_id) {
            Some(Error::GiveawayNotFound)
        } else {
            let g = s.spec_giveaway(giveaway_id);
            if g.status != GiveawayStatus::Claimable {
                Some(Error::InvalidStatus)
            } else if g.amount as int * s.fee_bps as int > i128::MAX {
                Some(Error::ArithmeticOverflow)
            } else if s.admin.spec_fee_amount(g.token) + spec_fee(g.amount as int, s.fee_bps as int)
                > i128::MAX {
                Some(Error::ArithmeticOverflow)
            } else {
                None
            }
        }
    }

    /// A giveaway pays out at most once: once a record stands `Completed`,
    /// every further distribution of the same id is refused with
    /// `InvalidStatus`.
    pub proof fn lemma_distribute_at_most_once(s: GiveawayContract, giveaway_id: u64)
        requires
            s.spec_has_giveaway(giveaway_id),
            s.spec_giveaway(giveaway_id).status == GiveawayStatus::Completed,
        ensures
            Self::spec_distribute_error(s, giveaway_id) == Some(Error::InvalidStatus),
    {
    }

    /// What the distribution body does, guard aside: on success the fee —
    /// the exact integer floor of `amount * fee_bps / 10_000` — is
    /// credited to the fee ledger under the giveaway's token, the payout
    /// carries the rest (fee plus net reassemble the escrowed amount
    /// exactly) to the recorded winner, and only that one record turns
    /// `Completed`; on refusal nothing moves.
    pub open spec fn distribute_core_post(
        pre: GiveawayContract,
        post: GiveawayContract,
        giveaway_id: u64,
        r: Result<PrizePayout, Error>,
    ) -> bool {
        &&& post.guard == pre.guard
        &&& match r {
            Ok(p) => {
                &&& Self::spec_distribute_error(pre, giveaway_id) is None
                &&& ({
                    let g0 = pre.spec_giveaway(giveaway_id);
                    let g1 = post.spec_giveaway(giveaway_id);
                    &&& Some(p.winner) == g0.winner
                    &&& p.token == g0.token
                    &&& p.fee_amount == spec_fee(g0.amount as int, pre.fee_bps as int)
                    &&& p.net_amount == g0.amount - p.fee_amount
                    &&& p.fee_amount + p.net_amount == g0.amount
                    &&& g1.status == GiveawayStatus::Completed
                    &&& g1.winner == g0.winner
                    &&& g1.participants@ == g0.participants@
                    &&& g1.participant_count == g0.participant_count
                    &&& g1.id == g0.id
                    &&& g1.creator == g0.creator
                    &&& g1.token == g0.token
                    &&& g1.amount == g0.amount
                    &&& g1.title == g0.title
                    &&& g1.end_time == g0.end_time
                    &&& post.admin.spec_fee_amount(g0.token) == pre.admin.spec_fee_amount(g0.token)
                        + p.fee_amount
                    &&& forall|t: u64|
                        t != g0.token ==> #[trigger] post.admin.spec_fee_amount(t)
                            == pre.admin.spec_fee_amount(t)
                })
                &&& post.admin.account == pre.admin.account
                &&& post.admin.allowed_tokens == pre.admin.allowed_tokens
                &&& post.fee_bps == pre.fee_bps
                &&& post.counter == pre.counter
                &&& forall|i: int|
                    0 <= i < pre.giveaways@.len() && i != giveaway_id - 1 ==> post.giveaways@[i]
                        == pre.giveaways@[i]
            },
            Err(e) => {
                &&& Some(e) == Self::spec_distribute_error(pre, giveaway_id)
                &&& post == pre
            },
        }
    }

    /// What `distribute_prize` does: a call that arrives while the guard
    /// is held is refused with `ReentrantCall` and moves nothing; any
    /// other call behaves as the distribution body and leaves the guard
    /// released.
    pub open spec fn distribute_post(
        pre: GiveawayContract,
        post: GiveawayContract,
        giveaway_id: u64,
        r: Result<PrizePayout, Error>,
    ) -> bool {
        if pre.guard.spec_locked() {
            r == Result::<PrizePayout, Error>::Err(Error::ReentrantCall) && post == pre
        } else {
            Self::distribute_core_post(pre, post, giveaway_id, r)
        }
    }

    /// Pay out a claimable giveaway, exactly once. The fee — the integer
    /// floor of `amount * fee_bps / 10_000` — moves to the fee ledger for
    /// the giveaway's token; the returned payout tells the host to
    /// transfer the remaining `amount - fee` to the drawn winner; the
    /// record turns `Completed`, the single terminal point where escrowed
    /// principal leaves the engine. The whole operation runs under the
    /// reentrancy guard, and the guard is released on every exit path.
    pub fn distribute_prize(&mut self, giveaway_id: u64) -> (r: Result<PrizePayout, Error>)
        requires
            old(self).wf(),
        ensures
            final(self).wf(),
            statuses_monotone(*old(self), *final(self)),
            Self::distribute_post(*old(self), *final(self), giveaway_id, r),
    {
        match self.guard.acquire() {
            Err(e) => {
                return Err(e);
            },
            Ok(()) => {},
        }
        let r = self.distribute_locked(giveaway_id);
        self.guard.release();
        r
    }

    /// The distribution body, run while the guard is held.
    fn distribute_locked(&mut self, giveaway_id: u64) -> (r: Result<PrizePayout, Error>)
        requires
            old(self).wf(),
        ensures
            final(self).wf(),
            statuses_monotone(*old(self), *final(self)),
            Self::distribute_core_post(*old(self), *final(self), giveaway_id, r),
    {
        if giveaway_id < 1 || giveaway_id > self.counter {
            return Err(Error::GiveawayNotFound);
        }
        let n = self.giveaways.len();
        let idx = (giveaway_id - 1) as usize;
        assert(idx < n);
        if self.giveaways[idx].status != GiveawayStatus::Claimable {
            return Err(Error::InvalidStatus);
        }
        let winner = match self.giveaways[idx].winner {
            Some(w) => w,
            None => {
                // A claimable giveaway always holds a winner; the defensive
                // refusal is unreachable under the engine invariant.
                return Err(Error::NoParticipants);
            },
        };
        let amount = self.giveaways[idx].amount;
        let token = self.giveaways[idx].token;
        proof {
            lemma_mul_nonnegative(amount as int, self.fee_bps as int);
        }
        let product = match amount.checked_mul(self.fee_bps as i128) {
            Some(p) => p,
            None => {
                return Err(Error::ArithmeticOverflow);
            },
        };
        proof {
            lemma_div_pos_is_pos(product as int, crate::BPS_DENOMINATOR as int);
            lemma_div_is_ordered_by_denominator(product as int, 1, crate::BPS_DENOMINATOR as int);
        }
        let fee_amount = match product.checked_div(crate::BPS_DENOMINATOR as i128) {
            Some(f) => f,
            None => {
                return Err(Error::ArithmeticOverflow);
            },
        };
        let net_amount = match amount.checked_sub(fee_amount) {
            Some(n) => n,
            None => {
                return Err(Error::ArithmeticOverflow);
            },
        };
        match self.admin.collected_fees.credit(token, fee_amount) {
            Ok(()) => {},
            Err(e) => {
                return Err(e);
            },
        }
        self.giveaways[idx].status = GiveawayStatus::Completed;
        Ok(PrizePayout { winner, token, net_amount, fee_amount })
    }

    /// Drain the fee balance collected for `token` to the administrator.
    /// Administrator-only; the host transfers the returned amount.
    pub fn withdraw_fees(&mut self, caller: u64, token: u64) -> (r: Result<i128, Error>)
        requires
            old(self).wf(),
        ensures
            final(self).wf(),
            AdminContract::withdraw_fees_post(old(self).admin, final(self).admin, caller, token, r),
            final(self).fee_bps == old(self).fee_bps,
            final(self).counter == old(self).counter,
            final(self).giveaways == old(self).giveaways,
            final(self).guard == old(self).guard,
    {
        self.admin.withdraw_fees(caller, token)
    }

    /// Whitelist `token` for giveaway creation. Administrator-only.
    pub fn add_token(&mut self, caller: u64, token: u64) -> (r: Result<(), Error>)
        requires
            old(self).wf(),
        ensures
            final(self).wf(),
            AdminContract::add_token_post(old(self).admin, final(self).admin, caller, token, r),
            final(self).fee_bps == old(self).fee_bps,
            final(self).counter == old(self).counter,
            final(self).giveaways == old(self).giveaways,
            final(self).guard == old(self).guard,
    {
        self.admin.add_token(caller, token)
    }

    /// Admit the emergency escape valve: administrator-only; the host
    /// transfers `amount` of `token` to `to`, outside the giveaway and fee
    /// accounting.
    pub fn admin_withdraw(&self, caller: u64, token: u64, amount: i128, to: u64) -> (r: Result<
        (),
        Error,
    >)
        ensures
            match r {
                Ok(()) => spec_check_admin(self.admin.account, caller) is Ok,
                Err(e) => Err::<u64, Error>(e) == spec_check_admin(self.admin.account, caller),
            },
    {
        self.admin.admin_withdraw(caller, token, amount, to)
    }
}

/// No operation ever moves a giveaway backwards: every record that existed
/// before still exists, and its status rank never drops.
pub open spec fn statuses_monotone(pre: GiveawayContract, post: GiveawayContract) -> bool {
    forall|id: u64| #![trigger post.spec_giveaway(id)]
        pre.spec_has_giveaway(id) ==> post.spec_has_giveaway(id) && status_rank(
            post.spec_giveaway(id).status,
        ) >= status_rank(pre.spec_giveaway(id).status)
}

/// One-way movement composes: across any chain of operations, each of
/// which moves no status backwards, every giveaway's status history reads
/// as a prefix of `Active, Claimable, Completed`.
pub proof fn lemma_statuses_monotone_trans(
    first: GiveawayContract,
    second: GiveawayContract,
    third: GiveawayContract,
)
    requires
        statuses_monotone(first, second),
        statuses_monotone(second, third),
    ensures
        statuses_monotone(first, third),
{
    assert forall|id: u64|
        first.spec_has_giveaway(id) implies third.spec_has_giveaway(id) && status_rank(
        #[trigger] third.spec_giveaway(id).status,
    ) >= status_rank(first.spec_giveaway(id).status) by {
        assert(second.spec_has_giveaway(id) && status_rank(second.spec_giveaway(id).status)
            >= status_rank(first.spec_giveaway(id).status));
    }
}

} // verus!
