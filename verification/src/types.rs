//! Failure taxonomy and the records the engine persists.

use vstd::prelude::*;

verus! {

/// Every way an engine operation can refuse to act. A failure aborts the
/// whole call with no state change; the kind tells a caller whether to try
/// later (a time window), fix the input (not found, duplicate), or report a
/// bug (overflow, index out of range).
#[derive(Clone, Copy, Debug, PartialEq, Eq, Structural)]
pub enum Error {
    /// No administrator has been recorded yet.
    NotInitialized,
    /// An administrator is already recorded and can never be replaced.
    AlreadyInitialized,
    /// The authenticated caller is not the account the operation demands.
    Unauthorized,
    /// The token is not on the administrator-maintained whitelist.
    TokenNotSupported,
    /// No giveaway exists under the given id.
    GiveawayNotFound,
    /// No help request exists under the given id.
    HelpRequestNotFound,
    /// The record is not in the status the operation demands.
    InvalidStatus,
    /// The clock reading falls outside the operation's allowed window
    /// (too early for a draw, too late for an entry).
    TimeWindowViolation,
    /// The account already holds an entry in this giveaway.
    DuplicateEntry,
    /// The giveaway has no entrants, so no winner can be drawn.
    NoParticipants,
    /// No participant record exists at the given dense index.
    IndexOutOfRange,
    /// A checked arithmetic step would overflow; nothing is moved.
    ArithmeticOverflow,
    /// A donation must move a strictly positive amount.
    InvalidDonationAmount,
    /// The help request already reached its goal and takes no more donations.
    AlreadyFullyFunded,
    /// The caller has no unclaimed contribution recorded on this request.
    NothingToRefund,
    /// A guarded fund-distributing call is already in flight.
    ReentrantCall,
}

/// A giveaway moves strictly forward: entries while `Active`, a drawn winner
/// makes it `Claimable`, the single payout makes it `Completed` (terminal).
#[derive(Clone, Copy, Debug, PartialEq, Eq, Structural)]
pub enum GiveawayStatus {
    Active,
    Claimable,
    Completed,
}

/// The position of a status on the one-way `Active, Claimable, Completed`
/// track. Every transition the engine performs raises it or leaves it alone.
pub open spec fn status_rank(s: GiveawayStatus) -> int {
    match s {
        GiveawayStatus::Active => 0,
        GiveawayStatus::Claimable => 1,
        GiveawayStatus::Completed => 2,
    }
}

/// A help request takes donations while `Open`, flips to `FullyFunded` on
/// the donation that first reaches the goal, and ends either `Disbursed`
/// (the escrow released to the recipient) or `Cancelled` (every donor may
/// reclaim exactly their own recorded contribution).
#[derive(Clone, Copy, Debug, PartialEq, Eq, Structural)]
pub enum HelpRequestStatus {
    Open,
    FullyFunded,
    Cancelled,
    Disbursed,
}

/// One time-boxed random-draw giveaway. The record is retained permanently
/// as an audit trail; no operation ever deletes one.
pub struct Giveaway {
    /// Monotonically assigned identity, never reused.
    pub id: u64,
    /// The account that escrowed the prize.
    pub creator: u64,
    /// The whitelisted token the prize is denominated in.
    pub token: u64,
    /// The escrowed principal; strictly positive from creation on.
    pub amount: i128,
    /// Display title chosen by the creator.
    pub title: String,
    /// The participant ledger: entrants in arrival order, each at the dense
    /// index a uniform draw is resolved against. Written once per entrant,
    /// never mutated or removed.
    pub participants: Vec<u64>,
    /// How many entries were accepted; always the length of `participants`.
    pub participant_count: u32,
    /// Entries close and the draw opens once the clock passes this value.
    pub end_time: u64,
    /// Where the record stands on the `Active, Claimable, Completed` track.
    pub status: GiveawayStatus,
    /// The drawn account: `None` until the draw, then set exactly once.
    pub winner: Option<u64>,
}

impl Giveaway {
    /// The record's internal consistency: the escrowed principal is
    /// positive, the participant count matches the ledger, no account
    /// appears in the ledger twice, and a winner is recorded exactly from
    /// the draw on.
    pub open spec fn wf(&self) -> bool {
        &&& self.amount > 0
        &&& self.participant_count as int == self.participants@.len()
        &&& forall|i: int, j: int|
            #![trigger self.participants@[i], self.participants@[j]]
            0 <= i < j < self.participants@.len() ==> self.participants@[i]
                != self.participants@[j]
        &&& (self.winner is None <==> self.status == GiveawayStatus::Active)
    }

    /// The existence flag of the participant ledger: whether `account`
    /// already holds an entry in this giveaway.
    pub fn has_entered(&self, account: u64) -> (r: bool)
        ensures
            r == self.participants@.contains(account),
    {
        let n = self.participants.len();
        let mut i: usize = 0;
        while i < n
            invariant
                n == self.participants@.len(),
                i <= n,
                forall|j: int| 0 <= j < i ==> self.participants@[j] != account,
            decreases n - i,
        {
            if self.participants[i] == account {
                return true;
            }
            i = i + 1;
        }
        false
    }
}

/// What the host must transfer after a successful prize distribution:
/// the net prize to the drawn winner, with the fee kept in the engine's
/// fee ledger. `fee_amount + net_amount` is exactly the escrowed principal.
#[derive(Clone, Copy, Debug, PartialEq, Eq, Structural)]
pub struct PrizePayout {
    /// The drawn account the net prize goes to.
    pub winner: u64,
    /// The token the giveaway escrowed.
    pub token: u64,
    /// The escrowed principal minus the fee.
    pub net_amount: i128,
    /// The cut retained for the administrator, in the fee ledger.
    pub fee_amount: i128,
}

/// One goal-funded mutual-aid request.
pub struct HelpRequest {
    /// Monotonically assigned identity, never reused.
    pub id: u64,
    /// The account the request was opened for; the only one that may cancel
    /// it or direct the disbursement.
    pub creator: u64,
    /// The token donations are denominated in.
    pub token: u64,
    /// The funding target.
    pub goal: i128,
    /// Running total of accepted donations; never decreases.
    pub raised_amount: i128,
    /// Where the record stands: `Open`, `FullyFunded`, `Cancelled` or
    /// `Disbursed`.
    pub status: HelpRequestStatus,
    /// Per-donor contribution records, kept to compute refunds. A refund
    /// zeroes the donor's record so it cannot be claimed twice.
    pub contributions: crate::ledger::AmountLedger,
}

impl HelpRequest {
    /// The record's internal consistency: the contribution records are well
    /// formed and sum to the raised total (refunds, possible only once the
    /// request is cancelled, drain records but never the total), and the
    /// status agrees with how the total stands against the goal.
    pub open spec fn wf(&self) -> bool {
        &&& self.raised_amount >= 0
        &&& self.contributions.wf()
        &&& self.contributions.spec_total() <= self.raised_amount
        &&& self.status != HelpRequestStatus::Cancelled ==> self.contributions.spec_total()
            == self.raised_amount
        &&& self.status == HelpRequestStatus::Open ==> self.raised_amount < self.goal
        &&& (self.status == HelpRequestStatus::FullyFunded || self.status
            == HelpRequestStatus::Disbursed) ==> self.raised_amount >= self.goal
    }
}

} // verus!
