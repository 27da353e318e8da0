//! Escrow-based distribution engine: custodies fungible-token deposits and
//! releases them under one of two programs — a time-boxed random-draw
//! giveaway or a goal-funded mutual-aid request. The engine is the pure
//! decision core: it owns the persisted records, decides whether a fund
//! movement is allowed and computes its exact amount. The ledger host
//! (storage persistence, authenticated callers, clock, token transfers,
//! randomness) sits outside; a shell performs the transfers the engine
//! instructs and hands host readings (current time, random seed) in as
//! plain values.

use vstd::prelude::*;

mod access;
mod admin;
mod giveaway;
mod guard;
mod ledger;
mod mutual_aid;
pub mod profile;
mod types;

pub use access::check_admin;
pub use access::spec_check_admin;
pub use admin::AdminContract;
pub use admin::lemma_admin_set_once;
pub use admin::spec_set_admin;
pub use giveaway::DEFAULT_FEE_BPS;
pub use giveaway::GiveawayContract;
pub use giveaway::lemma_draw_index_in_range;
pub use giveaway::lemma_fee_bounded;
pub use giveaway::lemma_participant_ledger;
pub use giveaway::lemma_statuses_monotone_trans;
pub use giveaway::spec_fee;
pub use giveaway::statuses_monotone;
pub use guard::ReentrancyGuard;
pub use ledger::AmountLedger;
pub use mutual_aid::MutualAidContract;
pub use mutual_aid::lemma_open_means_short_of_goal;
pub use mutual_aid::lemma_raised_matches_records;
pub use types::Error;
pub use types::Giveaway;
pub use types::GiveawayStatus;
pub use types::HelpRequest;
pub use types::HelpRequestStatus;
pub use types::PrizePayout;
pub use types::status_rank;

verus! {

/// The number of basis points that make up the whole: a fee rate of
/// 10_000 basis points is 100 percent.
pub const BPS_DENOMINATOR: u32 = 10_000;

/// The deployable whole: the giveaway engine (with the administrator state
/// it holds privileged operations to) beside the mutual-aid escrow.
/// Every method forwards to the component that owns the operation and
/// leaves the other component untouched; the host shell around it supplies
/// authenticated caller identities, clock readings and random draws, and
/// performs the transfers the operations return.
pub struct GeevContract {
    /// The create / enter / draw / distribute engine and the
    /// administrator's identity, whitelist and fee ledger.
    pub giveaway: GiveawayContract,
    /// The donate / cancel / refund / disburse escrow.
    pub aid: MutualAidContract,
}

impl GeevContract {
    /// Both components are internally consistent.
    pub open spec fn wf(&self) -> bool {
        self.giveaway.wf() && self.aid.wf()
    }

    /// A genesis deployment: nothing recorded, nothing owed, no
    /// administrator, both guards released.
    pub fn new() -> (r: GeevContract)
        ensures
            r.wf(),
            r.giveaway.admin.account is None,
            forall|t: u64| !(#[trigger] r.giveaway.admin.spec_token_allowed(t)),
            forall|t: u64| #[trigger] r.giveaway.admin.spec_fee_amount(t) == 0,
            r.giveaway.fee_bps == DEFAULT_FEE_BPS,
            r.giveaway.counter == 0,
            r.giveaway.giveaways@.len() == 0,
            !r.giveaway.guard.spec_locked(),
            r.aid.counter == 0,
            r.aid.requests@.len() == 0,
            !r.aid.guard.spec_locked(),
    {
        GeevContract { giveaway: GiveawayContract::new(), aid: MutualAidContract::new() }
    }

    /// Record the administrator and the fee rate, once.
    pub fn init(&mut self, admin: u64, fee_bps: u32) -> (r: Result<(), Error>)
        requires
            old(self).wf(),
        ensures
            final(self).wf(),
            GiveawayContract::init_post(old(self).giveaway, final(self).giveaway, admin, fee_bps, r),
            final(self).aid == old(self).aid,
    {
        self.giveaway.init(admin, fee_bps)
    }

    /// Record the candidate as the singleton administrator, once.
    pub fn set_admin(&mut self, candidate: u64) -> (r: Result<(), Error>)
        requires
            old(self).wf(),
        ensures
            final(self).wf(),
            (final(self).giveaway.admin.account, r) == spec_set_admin(
                old(self).giveaway.admin.account,
                candidate,
            ),
            final(self).giveaway.admin.allowed_tokens == old(self).giveaway.admin.allowed_tokens,
            final(self).giveaway.admin.collected_fees == old(self).giveaway.admin.collected_fees,
            final(self).giveaway.fee_bps == old(self).giveaway.fee_bps,
            final(self).giveaway.counter == old(self).giveaway.counter,
            final(self).giveaway.giveaways == old(self).giveaway.giveaways,
            final(self).giveaway.guard == old(self).giveaway.guard,
            final(self).aid == old(self).aid,
    {
        self.giveaway.set_admin(candidate)
    }

    /// Whitelist a token for giveaway creation. Administrator-only.
    pub fn add_token(&mut self, caller: u64, token: u64) -> (r: Result<(), Error>)
        requires
            old(self).wf(),
        ensures
            final(self).wf(),
            AdminContract::add_token_post(
                old(self).giveaway.admin,
                final(self).giveaway.admin,
                caller,
                token,
                r,
            ),
            final(self).giveaway.fee_bps == old(self).giveaway.fee_bps,
            final(self).giveaway.counter == old(self).giveaway.counter,
            final(self).giveaway.giveaways == old(self).giveaway.giveaways,
            final(self).giveaway.guard == old(self).giveaway.guard,
            final(self).aid == old(self).aid,
    {
        self.giveaway.add_token(caller, token)
    }

    /// Open a giveaway; the host escrows the deposit. Returns the new id.
    pub fn create_giveaway(
        &mut self,
        creator: u64,
        token: u64,
        amount: i128,
        title: String,
        duration_seconds: u64,
        now: u64,
    ) -> (r: Result<u64, Error>)
        requires
            old(self).wf(),
            amount > 0,
        ensures
            final(self).wf(),
            statuses_monotone(old(self).giveaway, final(self).giveaway),
            GiveawayContract::create_post(
                old(self).giveaway,
                final(self).giveaway,
                creator,
                token,
                amount,
                title,
                duration_seconds,
                now,
                r,
            ),
            final(self).aid == old(self).aid,
    {
        self.giveaway.create_giveaway(creator, token, amount, title, duration_seconds, now)
    }

    /// Enter a participant into an active giveaway.
    pub fn enter_giveaway(&mut self, participant: u64, giveaway_id: u64, now: u64) -> (r: Result<
        (),
        Error,
    >)
        requires
            old(self).wf(),
        ensures
            final(self).wf(),
            statuses_monotone(old(self).giveaway, final(self).giveaway),
            GiveawayContract::enter_post(
                old(self).giveaway,
                final(self).giveaway,
                participant,
                giveaway_id,
                now,
                r,
            ),
            final(self).aid == old(self).aid,
    {
        self.giveaway.enter_giveaway(participant, giveaway_id, now)
    }

    /// Draw the winner of an ended giveaway from the host-supplied seed.
    pub fn pick_winner(&mut self, giveaway_id: u64, now: u64, seed: u64) -> (r: Result<u64, Error>)
        requires
            old(self).wf(),
        ensures
            final(self).wf(),
            statuses_monotone(old(self).giveaway, final(self).giveaway),
            GiveawayContract::pick_post(
                old(self).giveaway,
                final(self).giveaway,
                giveaway_id,
                now,
                seed,
                r,
            ),
            final(self).aid == old(self).aid,
    {
        self.giveaway.pick_winner(giveaway_id, now, seed)
    }

    /// Pay out a claimable giveaway, exactly once, under the reentrancy
    /// guard; the host transfers the returned net prize to the winner.
    pub fn distribute_prize(&mut self, giveaway_id: u64) -> (r: Result<PrizePayout, Error>)
        requires
            old(self).wf(),
        ensures
            final(self).wf(),
            statuses_monotone(old(self).giveaway, final(self).giveaway),
            GiveawayContract::distribute_post(
                old(self).giveaway,
                final(self).giveaway,
                giveaway_id,
                r,
            ),
            final(self).aid == old(self).aid,
    {
        self.giveaway.distribute_prize(giveaway_id)
    }

    /// Drain the fees collected for a token. Administrator-only; the host
    /// transfers the returned amount to the administrator.
    pub fn withdraw_fees(&mut self, caller: u64, token: u64) -> (r: Result<i128, Error>)
        requires
            old(self).wf(),
        ensures
            final(self).wf(),
            AdminContract::withdraw_fees_post(
                old(self).giveaway.admin,
                final(self).giveaway.admin,
                caller,
                token,
                r,
            ),
            final(self).giveaway.fee_bps == old(self).giveaway.fee_bps,
            final(self).giveaway.counter == old(self).giveaway.counter,
            final(self).giveaway.giveaways == old(self).giveaway.giveaways,
            final(self).giveaway.guard == old(self).giveaway.guard,
            final(self).aid == old(self).aid,
    {
        self.giveaway.withdraw_fees(caller, token)
    }

    /// Admit the emergency escape valve; the host performs the transfer.
    pub fn admin_withdraw(&self, caller: u64, token: u64, amount: i128, to: u64) -> (r: Result<
        (),
        Error,
    >)
        ensures
            match r {
                Ok(()) => spec_check_admin(self.giveaway.admin.account, caller) is Ok,
                Err(e) => Err::<u64, Error>(e) == spec_check_admin(
                    self.giveaway.admin.account,
                    caller,
                ),
            },
    {
        self.giveaway.admin_withdraw(caller, token, amount, to)
    }

    /// Open a help request. Returns the new id.
    pub fn create_request(&mut self, creator: u64, token: u64, goal: i128) -> (r: Result<
        u64,
        Error,
    >)
        requires
            old(self).wf(),
        ensures
            final(self).wf(),
            MutualAidContract::create_request_post(
                old(self).aid,
                final(self).aid,
                creator,
                token,
                goal,
                r,
            ),
            final(self).giveaway == old(self).giveaway,
    {
        self.aid.create_request(creator, token, goal)
    }

    /// Escrow a donation toward a help request; the host takes the amount
    /// from the donor.
    pub fn donate(&mut self, donor: u64, request_id: u64, amount: i128) -> (r: Result<(), Error>)
        requires
            old(self).wf(),
        ensures
            final(self).wf(),
            MutualAidContract::donate_post(
                old(self).aid,
                final(self).aid,
                donor,
                request_id,
                amount,
                r,
            ),
            final(self).giveaway == old(self).giveaway,
    {
        self.aid.donate(donor, request_id, amount)
    }

    /// Cancel an open help request, unlocking its donors' refunds.
    pub fn cancel_request(&mut self, caller: u64, request_id: u64) -> (r: Result<(), Error>)
        requires
            old(self).wf(),
        ensures
            final(self).wf(),
            MutualAidContract::cancel_post(old(self).aid, final(self).aid, caller, request_id, r),
            final(self).giveaway == old(self).giveaway,
    {
        self.aid.cancel_request(caller, request_id)
    }

    /// Reclaim a recorded contribution from a cancelled request, once; the
    /// host transfers the returned amount back to the donor.
    pub fn claim_refund(&mut self, donor: u64, request_id: u64) -> (r: Result<i128, Error>)
        requires
            old(self).wf(),
        ensures
            final(self).wf(),
            MutualAidContract::refund_post(old(self).aid, final(self).aid, donor, request_id, r),
            final(self).giveaway == old(self).giveaway,
    {
        self.aid.claim_refund(donor, request_id)
    }

    /// Release the escrow of a fully funded request, once, under the
    /// reentrancy guard; the host transfers the returned amount to the
    /// recipient.
    pub fn withdraw_aid(&mut self, caller: u64, request_id: u64, recipient: u64) -> (r: Result<
        i128,
        Error,
    >)
        requires
            old(self).wf(),
        ensures
            final(self).wf(),
            MutualAidContract::withdraw_post(old(self).aid, final(self).aid, caller, request_id, r),
            final(self).giveaway == old(self).giveaway,
    {
        self.aid.withdraw_aid(caller, request_id, recipient)
    }
}

} // verus!
