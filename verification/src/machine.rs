//! The state machine of a trade.
//!
//! A trade is driven by three kinds of event: a message of the
//! counterparty, a tick that carries the time and what the two chains show,
//! and an adjustment by the operator. [`step`] maps the agreed terms, the
//! trade's progress and one event to the progress after it, the action to
//! take, and the deadline that then applies. It changes nothing itself.

use vstd::prelude::*;
use crate::types::{str_eq, Currency, Network, Role};

verus! {

/// The states of a trade. `Accepted`, `Locked` and the three terminal
/// states are shared by both roles; the others belong to one.
#[derive(Clone, Copy, Debug, PartialEq, Eq, Structural)]
pub enum State {
    /// Seller: the trade exists, the offer is not sent yet.
    Created,
    /// Seller: the offer is sent.
    OfferSent,
    /// Buyer: an offer was received.
    Offered,
    /// Both: the offer is accepted, nothing is locked by this side.
    Accepted,
    /// Seller: the primary lock is posted, the locks are not both confirmed.
    MwcLocking,
    /// Buyer: the secondary lock is posted, the locks are not both confirmed.
    MwcLocked,
    /// Both: both locks are confirmed.
    Locked,
    /// Seller: the buyer's redeem request is verified.
    InitRedeem,
    /// Seller: the redeem message is sent.
    Redeem,
    /// Buyer: the redeem request is sent.
    InitRedeemSent,
    /// Buyer: the seller's redeem message is verified.
    RedeemReady,
    /// Seller: waiting to take the primary coins back.
    SellerWaitingForRefund,
    /// Buyer: waiting to take the secondary coins back.
    BuyerWaitingForRefund,
    /// Terminal: both sides have settled.
    Completed,
    /// Terminal: this side took its coins back.
    Refunded,
    /// Terminal: given up before this side locked anything.
    Cancelled,
}

/// The kinds of protocol message.
#[derive(Clone, Copy, Debug, PartialEq, Eq, Structural)]
pub enum UpdateKind {
    /// No payload.
    Nothing,
    /// The seller's offer.
    Offer,
    /// The buyer's acceptance.
    AcceptOffer,
    /// The buyer's redeem request.
    InitRedeem,
    /// The seller's redeem message.
    Redeem,
}

/// What a step asks to be done.
#[derive(Clone, Copy, Debug, PartialEq, Eq, Structural)]
pub enum Action {
    /// Nothing to do, now or later, unless something new happens.
    Nothing,
    /// Send the counterparty a message of this kind.
    SendMessage(UpdateKind),
    /// Post the lock transaction on the primary chain.
    BroadcastPrimary,
    /// Post the lock transaction on the secondary chain.
    BroadcastSecondary,
    /// Post this side's redeem transaction.
    PublishRedeem,
    /// Post this side's refund transaction.
    PublishRefund,
    /// Nothing now; look again later.
    Wait,
}

/// A 256-bit transaction identifier, as two halves.
#[derive(Clone, Copy, Debug, PartialEq, Eq, Structural)]
pub struct Txid {
    /// The first sixteen bytes.
    pub high: u128,
    /// The last sixteen bytes.
    pub low: u128,
}

/// A transaction as a chain shows it.
#[derive(Clone, Copy, Debug, PartialEq, Eq, Structural)]
pub struct Seen {
    pub txid: Txid,
    pub confirmations: u64,
}

/// The funding of the secondary lock address as the chain shows it.
#[derive(Clone, Copy, Debug, PartialEq, Eq, Structural)]
pub struct Funding {
    pub txid: Txid,
    /// The amount that the address holds.
    pub value: u64,
    pub confirmations: u64,
}

/// The time and what both chains show at that time.
#[derive(Clone, Copy, Debug, PartialEq, Eq, Structural)]
pub struct Tick {
    /// Seconds since the Unix epoch, as the tips of the chains show them.
    pub now: i64,
    /// The primary lock.
    pub mwc_lock: Option<Seen>,
    /// The secondary lock.
    pub secondary_lock: Option<Funding>,
    /// The buyer's redeem of the primary coins.
    pub mwc_redeem: Option<Seen>,
    /// The seller's redeem of the secondary coins.
    pub secondary_redeem: Option<Seen>,
    /// The seller's refund of the primary coins.
    pub mwc_refund: Option<Seen>,
    /// The buyer's refund of the secondary coins.
    pub secondary_refund: Option<Seen>,
}

/// What the machine reads of a received message.
#[derive(Clone, Copy, Debug, PartialEq, Eq, Structural)]
pub struct Incoming {
    /// The kind of the message.
    pub update: UpdateKind,
    /// The currency that the secondary part of the message is for; `None`
    /// where that part is empty.
    pub secondary: Option<Currency>,
    /// Whether the signatures and keys in the message passed their checks.
    pub verified: bool,
}

/// What drives a trade.
#[derive(Clone, Copy, Debug, PartialEq, Eq, Structural)]
pub enum Event {
    /// A message of the counterparty arrived.
    MessageReceived(Incoming),
    /// Time has passed; the chains were looked at.
    Tick(Tick),
    /// The operator asks for this state.
    UserAdjust(State),
}

/// Why an event was refused. The trade is unchanged.
#[derive(Clone, Copy, Debug, PartialEq, Eq, Structural)]
pub enum Reject {
    /// The message is not the one that state and role expect.
    UnexpectedMessageType,
    /// The secondary part of the message does not fit the trade's currency.
    UnexpectedCoinType,
    /// The state asked for is not one the operator may set from here.
    InvalidAdjust,
}

/// What both sides agreed on. Fixed once the offer is accepted.
#[derive(Clone, Copy, Debug, PartialEq, Eq, Structural)]
pub struct Terms {
    pub role: Role,
    pub network: Network,
    /// Primary coins, in nanocoins.
    pub primary_amount: u64,
    /// Secondary coins, in the smallest unit.
    pub secondary_amount: u64,
    pub secondary_currency: Currency,
    /// Which lock goes on chain first.
    pub seller_lock_first: bool,
    pub required_mwc_lock_confirmations: u64,
    pub required_secondary_lock_confirmations: u64,
    /// Time allowed for each of the first three steps, in seconds.
    pub message_exchange_time_sec: u64,
    /// Time allowed for the redeem steps together, in seconds.
    pub redeem_time_sec: u64,
    /// When the trade started, in seconds since the Unix epoch.
    pub start_time: i64,
}

/// How far a trade has come.
#[derive(Clone, Copy, Debug, PartialEq, Eq, Structural)]
pub struct Progress {
    pub state: State,
    /// Most confirmations seen so far on the primary lock.
    pub mwc_confirmations: u64,
    /// Most confirmations seen so far on the secondary lock.
    pub secondary_confirmations: u64,
    pub mwc_lock_txid: Option<Txid>,
    pub secondary_lock_txid: Option<Txid>,
    pub mwc_redeem_txid: Option<Txid>,
    pub secondary_redeem_txid: Option<Txid>,
    pub mwc_refund_txid: Option<Txid>,
    pub secondary_refund_txid: Option<Txid>,
    /// Whether this side has posted its redeem transaction.
    pub redeem_published: bool,
}

/// The result of a step.
#[derive(Clone, Copy, Debug, PartialEq, Eq, Structural)]
pub struct Outcome {
    /// The progress once the action is done.
    pub progress: Progress,
    /// What to do.
    pub action: Action,
    /// The deadline of the new state, in seconds since the Unix epoch;
    /// `None` in a terminal state.
    pub deadline: Option<i128>,
}

impl State {
    /// A trade never leaves these.
    pub open spec fn is_final_spec(self) -> bool {
        self == State::Completed || self == State::Refunded || self == State::Cancelled
    }

    /// Whether the trade has ended.
    #[verifier::when_used_as_spec(is_final_spec)]
    pub fn is_final_state(self) -> (b: bool)
        ensures
            b == self.is_final_spec(),
    {
        match self {
            State::Completed | State::Refunded | State::Cancelled => true,
            _ => false,
        }
    }

    /// The refund branch is armed.
    pub open spec fn is_armed_spec(self) -> bool {
        self == State::SellerWaitingForRefund || self == State::BuyerWaitingForRefund
    }

    /// Whether the trade waits for its refund.
    #[verifier::when_used_as_spec(is_armed_spec)]
    pub fn is_armed(self) -> (b: bool)
        ensures
            b == self.is_armed_spec(),
    {
        match self {
            State::SellerWaitingForRefund | State::BuyerWaitingForRefund => true,
            _ => false,
        }
    }

    /// The states a role can be in.
    pub open spec fn belongs_to_spec(self, role: Role) -> bool {
        match self {
            State::Created | State::OfferSent | State::MwcLocking | State::InitRedeem
            | State::Redeem | State::SellerWaitingForRefund => role == Role::Seller,
            State::Offered | State::MwcLocked | State::InitRedeemSent | State::RedeemReady
            | State::BuyerWaitingForRefund => role == Role::Buyer,
            _ => true,
        }
    }

    /// Whether a role can be in this state.
    #[verifier::when_used_as_spec(belongs_to_spec)]
    pub fn belongs_to(self, role: Role) -> (b: bool)
        ensures
            b == self.belongs_to_spec(role),
    {
        match self {
            State::Created | State::OfferSent | State::MwcLocking | State::InitRedeem
            | State::Redeem | State::SellerWaitingForRefund => match role {
                Role::Seller => true,
                Role::Buyer => false,
            },
            State::Offered | State::MwcLocked | State::InitRedeemSent | State::RedeemReady
            | State::BuyerWaitingForRefund => match role {
                Role::Seller => false,
                Role::Buyer => true,
            },
            _ => true,
        }
    }

    /// This side has put nothing on chain yet.
    pub open spec fn is_pre_lock_spec(self) -> bool {
        self == State::Created || self == State::OfferSent || self == State::Offered || self
            == State::Accepted
    }

    /// Whether this side has put nothing on chain yet.
    #[verifier::when_used_as_spec(is_pre_lock_spec)]
    pub fn is_pre_lock(self) -> (b: bool)
        ensures
            b == self.is_pre_lock_spec(),
    {
        match self {
            State::Created | State::OfferSent | State::Offered | State::Accepted => true,
            _ => false,
        }
    }
}

impl Progress {
    /// Progress that a trade of the role can have made: its state is one of
    /// the role's, and a redeem is out only where the trade has come to
    /// the redeem steps.
    pub open spec fn wf(self, role: Role) -> bool {
        &&& self.state.belongs_to_spec(role)
        &&& self.redeem_published ==> (self.state == State::Redeem || self.state
            == State::SellerWaitingForRefund || self.state == State::RedeemReady || self.state
            == State::BuyerWaitingForRefund || self.state == State::Completed || self.state
            == State::Refunded)
    }

    /// The progress of a trade that has just come into being in `state`:
    /// nothing seen, nothing posted.
    pub open spec fn begin_spec(state: State) -> Progress {
        Progress {
            state,
            mwc_confirmations: 0,
            secondary_confirmations: 0,
            mwc_lock_txid: None,
            secondary_lock_txid: None,
            mwc_redeem_txid: None,
            secondary_redeem_txid: None,
            mwc_refund_txid: None,
            secondary_refund_txid: None,
            redeem_published: false,
        }
    }

    /// The progress of a trade that has just come into being in `state`.
    #[verifier::when_used_as_spec(begin_spec)]
    pub fn begin(state: State) -> (p: Progress)
        ensures
            p == Self::begin_spec(state),
    {
        Progress {
            state,
            mwc_confirmations: 0,
            secondary_confirmations: 0,
            mwc_lock_txid: None,
            secondary_lock_txid: None,
            mwc_redeem_txid: None,
            secondary_redeem_txid: None,
            mwc_refund_txid: None,
            secondary_refund_txid: None,
            redeem_published: false,
        }
    }
}

impl Action {
    /// Actions that change something outside the record.
    pub open spec fn can_execute_spec(self) -> bool {
        self != Action::Nothing && self != Action::Wait
    }

    /// Whether there is something to carry out.
    #[verifier::when_used_as_spec(can_execute_spec)]
    pub fn can_execute(self) -> (b: bool)
        ensures
            b == self.can_execute_spec(),
    {
        match self {
            Action::Nothing | Action::Wait => false,
            _ => true,
        }
    }

    /// Whether this is the empty action.
    pub fn is_none(self) -> (b: bool)
        ensures
            b == (self == Action::Nothing),
    {
        match self {
            Action::Nothing => true,
            _ => false,
        }
    }
}

impl Terms {
    /// The offer has to be out by then.
    pub open spec fn offer_deadline_spec(self) -> int {
        self.start_time + self.message_exchange_time_sec
    }

    /// The offer has to be accepted by then.
    pub open spec fn accept_deadline_spec(self) -> int {
        self.start_time + 2 * self.message_exchange_time_sec
    }

    /// Both locks have to be confirmed by then.
    pub open spec fn lock_deadline_spec(self) -> int {
        self.start_time + 3 * self.message_exchange_time_sec
    }

    /// The redeem steps have to be over by then. This is also when the
    /// secondary lock expires and the buyer can take the coins back.
    pub open spec fn redeem_deadline_spec(self) -> int {
        self.lock_deadline_spec() + self.redeem_time_sec
    }

    /// When the secondary lock expires.
    pub open spec fn secondary_lock_expiry_spec(self) -> int {
        self.redeem_deadline_spec()
    }

    /// When the seller can take the primary coins back: one redeem time and
    /// one second after the secondary lock expires.
    pub open spec fn mwc_lock_time_spec(self) -> int {
        self.secondary_lock_expiry_spec() + self.redeem_time_sec + 1
    }

    /// The deadline that applies in `state`.
    pub open spec fn deadline_spec(self, state: State) -> Option<int> {
        match state {
            State::Created => Some(self.offer_deadline_spec()),
            State::OfferSent | State::Offered => Some(self.accept_deadline_spec()),
            State::Accepted | State::MwcLocking | State::MwcLocked => Some(
                self.lock_deadline_spec(),
            ),
            State::Locked | State::InitRedeem | State::Redeem | State::InitRedeemSent
            | State::RedeemReady => Some(self.redeem_deadline_spec()),
            State::SellerWaitingForRefund => Some(self.mwc_lock_time_spec()),
            State::BuyerWaitingForRefund => Some(self.secondary_lock_expiry_spec()),
            State::Completed | State::Refunded | State::Cancelled => None,
        }
    }

    /// How long after the start the seller can take the primary coins
    /// back, in seconds.
    pub open spec fn lock_interval_spec(self) -> int {
        3 * self.message_exchange_time_sec + 2 * self.redeem_time_sec + 1
    }

    /// Terms that a trade can be started on: at least one confirmation of
    /// the primary lock, a redeem time of at least twice the message
    /// exchange time, and a schedule that fits a 64-bit count of seconds
    /// and ends within the time that a clock can show.
    pub open spec fn wf(self) -> bool {
        &&& self.required_mwc_lock_confirmations >= 1
        &&& self.redeem_time_sec >= 2 * self.message_exchange_time_sec
        &&& self.lock_interval_spec() <= u64::MAX
        &&& self.mwc_lock_time_spec() < i64::MAX
    }

    /// Whether the terms are ones that a trade can be started on.
    pub fn is_well_formed(self) -> (b: bool)
        ensures
            b == self.wf(),
    {
        self.required_mwc_lock_confirmations >= 1 && self.redeem_time_sec as u128 >= 2
            * (self.message_exchange_time_sec as u128) && self.lock_interval() <= u64::MAX as u128
            && self.mwc_lock_time() < i64::MAX as i128
    }

    /// How long after the start the seller can take the primary coins
    /// back, in seconds.
    pub fn lock_interval(self) -> (t: u128)
        ensures
            t == self.lock_interval_spec(),
    {
        3 * (self.message_exchange_time_sec as u128) + 2 * (self.redeem_time_sec as u128) + 1
    }

    /// The primary lock is on chain with the confirmations agreed on.
    pub open spec fn mwc_locked_spec(self, t: Tick) -> bool {
        t.mwc_lock matches Some(s) && s.confirmations >= self.required_mwc_lock_confirmations
    }

    /// The secondary lock is on chain with the amount and the confirmations
    /// agreed on.
    pub open spec fn secondary_locked_spec(self, t: Tick) -> bool {
        t.secondary_lock matches Some(f) && f.value >= self.secondary_amount && f.confirmations
            >= self.required_secondary_lock_confirmations
    }

    /// This side's refund is on chain with the confirmations that its lock
    /// needed.
    pub open spec fn refunded_spec(self, t: Tick) -> bool {
        match self.role {
            Role::Seller => t.mwc_refund matches Some(s) && s.confirmations
                >= self.required_mwc_lock_confirmations,
            Role::Buyer => t.secondary_refund matches Some(s) && s.confirmations
                >= self.required_secondary_lock_confirmations,
        }
    }

    /// Whether the primary lock is on chain with the confirmations agreed on.
    #[verifier::when_used_as_spec(mwc_locked_spec)]
    pub fn mwc_locked(self, t: Tick) -> (b: bool)
        ensures
            b == self.mwc_locked_spec(t),
    {
        match t.mwc_lock {
            Some(s) => s.confirmations >= self.required_mwc_lock_confirmations,
            None => false,
        }
    }

    /// Whether the secondary lock is on chain with the amount and the
    /// confirmations agreed on.
    #[verifier::when_used_as_spec(secondary_locked_spec)]
    pub fn secondary_locked(self, t: Tick) -> (b: bool)
        ensures
            b == self.secondary_locked_spec(t),
    {
        match t.secondary_lock {
            Some(f) => f.value >= self.secondary_amount && f.confirmations
                >= self.required_secondary_lock_confirmations,
            None => false,
        }
    }

    /// Whether this side's refund is on chain with the confirmations that
    /// its lock needed.
    #[verifier::when_used_as_spec(refunded_spec)]
    pub fn refunded(self, t: Tick) -> (b: bool)
        ensures
            b == self.refunded_spec(t),
    {
        match self.role {
            Role::Seller => match t.mwc_refund {
                Some(s) => s.confirmations >= self.required_mwc_lock_confirmations,
                None => false,
            },
            Role::Buyer => match t.secondary_refund {
                Some(s) => s.confirmations >= self.required_secondary_lock_confirmations,
                None => false,
            },
        }
    }

    fn after(self, exchanges: u8, redeems: u8, extra: u8) -> (t: i128)
        requires
            exchanges <= 3,
            redeems <= 2,
            extra <= 1,
        ensures
            t == self.start_time + exchanges * self.message_exchange_time_sec + redeems
                * self.redeem_time_sec + extra,
    {
        let m = self.message_exchange_time_sec as i128;
        let r = self.redeem_time_sec as i128;
        assert(exchanges * self.message_exchange_time_sec <= 3 * 0xffff_ffff_ffff_ffff) by (nonlinear_arith)
            requires
                exchanges <= 3,
                self.message_exchange_time_sec <= 0xffff_ffff_ffff_ffff,
        ;
        assert(redeems * self.redeem_time_sec <= 2 * 0xffff_ffff_ffff_ffff) by (nonlinear_arith)
            requires
                redeems <= 2,
                self.redeem_time_sec <= 0xffff_ffff_ffff_ffff,
        ;
        self.start_time as i128 + (exchanges as i128) * m + (redeems as i128) * r + extra as i128
    }

    /// The offer has to be out by then.
    pub fn offer_deadline(self) -> (t: i128)
        ensures
            t == self.offer_deadline_spec(),
    {
        self.after(1, 0, 0)
    }

    /// The offer has to be accepted by then.
    pub fn accept_deadline(self) -> (t: i128)
        ensures
            t == self.accept_deadline_spec(),
    {
        self.after(2, 0, 0)
    }

    /// Both locks have to be confirmed by then.
    pub fn lock_deadline(self) -> (t: i128)
        ensures
            t == self.lock_deadline_spec(),
    {
        self.after(3, 0, 0)
    }

    /// The redeem steps have to be over by then.
    pub fn redeem_deadline(self) -> (t: i128)
        ensures
            t == self.redeem_deadline_spec(),
    {
        self.after(3, 1, 0)
    }

    /// When the secondary lock expires.
    pub fn secondary_lock_expiry(self) -> (t: i128)
        ensures
            t == self.secondary_lock_expiry_spec(),
    {
        self.after(3, 1, 0)
    }

    /// When the seller can take the primary coins back.
    pub fn mwc_lock_time(self) -> (t: i128)
        ensures
            t == self.mwc_lock_time_spec(),
    {
        self.after(3, 2, 1)
    }

    /// The deadline that applies in `state`; none in a terminal state.
    pub fn deadline(self, state: State) -> (d: Option<i128>)
        ensures
            match self.deadline_spec(state) {
                Some(t) => d == Some(t as i128),
                None => d is None,
            },
    {
        match state {
            State::Created => Some(self.offer_deadline()),
            State::OfferSent | State::Offered => Some(self.accept_deadline()),
            State::Accepted | State::MwcLocking | State::MwcLocked => Some(self.lock_deadline()),
            State::Locked | State::InitRedeem | State::Redeem | State::InitRedeemSent
            | State::RedeemReady => Some(self.redeem_deadline()),
            State::SellerWaitingForRefund => Some(self.mwc_lock_time()),
            State::BuyerWaitingForRefund => Some(self.secondary_lock_expiry()),
            State::Completed | State::Refunded | State::Cancelled => None,
        }
    }
}


/// The confirmations of a transaction that the chain holds at `found`,
/// when the tip of the chain is at `tip`: the blocks from that height up to
/// the tip, both counted. None where the chain does not hold it, or holds
/// it above the tip.
pub open spec fn confirmations_spec(tip: u64, found: Option<u64>) -> u64 {
    match found {
        Some(height) => if height <= tip {
            if tip - height == u64::MAX {
                u64::MAX
            } else {
                (tip - height + 1) as u64
            }
        } else {
            0
        },
        None => 0,
    }
}

/// Counts the confirmations of a transaction from the height at which the
/// chain holds it and the height of the tip.
#[verifier::when_used_as_spec(confirmations_spec)]
pub fn confirmations(tip: u64, found: Option<u64>) -> (n: u64)
    ensures
        n == confirmations_spec(tip, found),
{
    match found {
        Some(height) => if height <= tip {
            (tip - height).saturating_add(1)
        } else {
            0
        },
        None => 0,
    }
}

/// The larger of two counts.
pub open spec fn larger(a: u64, b: u64) -> u64 {
    if a >= b {
        a
    } else {
        b
    }
}

/// The identifier that is seen now, or else the one recorded before.
pub open spec fn latest(seen: Option<Seen>, recorded: Option<Txid>) -> Option<Txid> {
    match seen {
        Some(s) => Some(s.txid),
        None => recorded,
    }
}

/// The progress with what a tick shows written into it: each count of
/// confirmations goes up to what is seen, never down, and each transaction
/// seen is recorded.
pub open spec fn observe_spec(p: Progress, t: Tick) -> Progress {
    Progress {
        state: p.state,
        mwc_confirmations: match t.mwc_lock {
            Some(s) => larger(p.mwc_confirmations, s.confirmations),
            None => p.mwc_confirmations,
        },
        secondary_confirmations: match t.secondary_lock {
            Some(f) => larger(p.secondary_confirmations, f.confirmations),
            None => p.secondary_confirmations,
        },
        mwc_lock_txid: latest(t.mwc_lock, p.mwc_lock_txid),
        secondary_lock_txid: match t.secondary_lock {
            Some(f) => Some(f.txid),
            None => p.secondary_lock_txid,
        },
        mwc_redeem_txid: latest(t.mwc_redeem, p.mwc_redeem_txid),
        secondary_redeem_txid: latest(t.secondary_redeem, p.secondary_redeem_txid),
        mwc_refund_txid: latest(t.mwc_refund, p.mwc_refund_txid),
        secondary_refund_txid: latest(t.secondary_refund, p.secondary_refund_txid),
        redeem_published: p.redeem_published,
    }
}

fn larger_of(a: u64, b: u64) -> (r: u64)
    ensures
        r == larger(a, b),
{
    if a >= b {
        a
    } else {
        b
    }
}

fn latest_of(seen: Option<Seen>, recorded: Option<Txid>) -> (r: Option<Txid>)
    ensures
        r == latest(seen, recorded),
{
    match seen {
        Some(s) => Some(s.txid),
        None => recorded,
    }
}

/// Writes what a tick shows into the progress.
pub fn observe(p: Progress, t: Tick) -> (r: Progress)
    ensures
        r == observe_spec(p, t),
{
    Progress {
        state: p.state,
        mwc_confirmations: match t.mwc_lock {
            Some(s) => larger_of(p.mwc_confirmations, s.confirmations),
            None => p.mwc_confirmations,
        },
        secondary_confirmations: match t.secondary_lock {
            Some(f) => larger_of(p.secondary_confirmations, f.confirmations),
            None => p.secondary_confirmations,
        },
        mwc_lock_txid: latest_of(t.mwc_lock, p.mwc_lock_txid),
        secondary_lock_txid: match t.secondary_lock {
            Some(f) => Some(f.txid),
            None => p.secondary_lock_txid,
        },
        mwc_redeem_txid: latest_of(t.mwc_redeem, p.mwc_redeem_txid),
        secondary_redeem_txid: latest_of(t.secondary_redeem, p.secondary_redeem_txid),
        mwc_refund_txid: latest_of(t.mwc_refund, p.mwc_refund_txid),
        secondary_refund_txid: latest_of(t.secondary_refund, p.secondary_refund_txid),
        redeem_published: p.redeem_published,
    }
}

/// Where a state goes when its deadline passes, or when a check of the
/// counterparty's signatures fails: before this side has locked anything
/// the trade is cancelled, after that it waits for its refund. Armed and
/// terminal states go nowhere.
pub open spec fn fallback_spec(state: State, role: Role) -> Option<State> {
    match state {
        State::Created | State::OfferSent | State::Offered | State::Accepted => Some(
            State::Cancelled,
        ),
        State::MwcLocking | State::InitRedeem | State::Redeem => Some(
            State::SellerWaitingForRefund,
        ),
        State::MwcLocked | State::InitRedeemSent | State::RedeemReady => Some(
            State::BuyerWaitingForRefund,
        ),
        State::Locked => match role {
            Role::Seller => Some(State::SellerWaitingForRefund),
            Role::Buyer => Some(State::BuyerWaitingForRefund),
        },
        _ => None,
    }
}

/// Where a state goes when its deadline passes or a check fails.
#[verifier::when_used_as_spec(fallback_spec)]
pub fn fallback(state: State, role: Role) -> (r: Option<State>)
    ensures
        r == fallback_spec(state, role),
{
    match state {
        State::Created | State::OfferSent | State::Offered | State::Accepted => Some(
            State::Cancelled,
        ),
        State::MwcLocking | State::InitRedeem | State::Redeem => Some(
            State::SellerWaitingForRefund,
        ),
        State::MwcLocked | State::InitRedeemSent | State::RedeemReady => Some(
            State::BuyerWaitingForRefund,
        ),
        State::Locked => match role {
            Role::Seller => Some(State::SellerWaitingForRefund),
            Role::Buyer => Some(State::BuyerWaitingForRefund),
        },
        _ => None,
    }
}

/// The outcome that puts the trade into `state` and asks for `action`.
pub open spec fn go_spec(terms: Terms, p: Progress, state: State, action: Action) -> Outcome {
    Outcome {
        progress: Progress {
            state,
            redeem_published: p.redeem_published || action == Action::PublishRedeem,
            ..p
        },
        action,
        deadline: match terms.deadline_spec(state) {
            Some(t) => Some(t as i128),
            None => None,
        },
    }
}

fn go(terms: &Terms, p: Progress, state: State, action: Action) -> (o: Outcome)
    ensures
        o == go_spec(*terms, p, state, action),
{
    let publishing = match action {
        Action::PublishRedeem => true,
        _ => false,
    };
    Outcome {
        progress: Progress { state, redeem_published: p.redeem_published || publishing, ..p },
        action,
        deadline: terms.deadline(state),
    }
}

/// The outcome of the state's deadline having passed.
pub open spec fn expire_spec(terms: Terms, p: Progress) -> Outcome {
    match fallback_spec(p.state, terms.role) {
        Some(next) => go_spec(terms, p, next, Action::Nothing),
        None => go_spec(terms, p, p.state, Action::Nothing),
    }
}

fn expire(terms: &Terms, p: Progress) -> (o: Outcome)
    ensures
        o == expire_spec(*terms, p),
{
    match fallback(p.state, terms.role) {
        Some(next) => go(terms, p, next, Action::Nothing),
        None => go(terms, p, p.state, Action::Nothing),
    }
}

/// Whether the deadline of the progress's state lies before `now`.
pub open spec fn expired_spec(terms: Terms, p: Progress, now: i64) -> bool {
    match terms.deadline_spec(p.state) {
        Some(d) => now > d,
        None => false,
    }
}

/// Whether the deadline of the progress's state has passed.
#[verifier::when_used_as_spec(expired_spec)]
pub fn expired(terms: Terms, p: Progress, now: i64) -> (b: bool)
    ensures
        b == expired_spec(terms, p, now),
{
    match terms.deadline(p.state) {
        Some(d) => now as i128 > d,
        None => false,
    }
}

/// What a tick does to a trade. The tick's observations are recorded
/// first. A terminal state stays. Otherwise what the chains show decides
/// before the clock does: a step that the chains complete is taken even
/// after its deadline. A deadline that has passed sends the state to its
/// fallback. In time, the state's own work is asked for.
pub open spec fn on_tick_spec(terms: Terms, before: Progress, t: Tick) -> Outcome {
    let p = observe_spec(before, t);
    let late = expired_spec(terms, p, t.now);
    match p.state {
        State::Created => if late {
            expire_spec(terms, p)
        } else {
            go_spec(terms, p, State::OfferSent, Action::SendMessage(UpdateKind::Offer))
        },
        State::OfferSent => if late {
            expire_spec(terms, p)
        } else {
            go_spec(terms, p, p.state, Action::Wait)
        },
        State::Offered => if late {
            expire_spec(terms, p)
        } else {
            go_spec(terms, p, State::Accepted, Action::SendMessage(UpdateKind::AcceptOffer))
        },
        State::Accepted => if late {
            expire_spec(terms, p)
        } else {
            match terms.role {
                Role::Seller => if terms.seller_lock_first || terms.secondary_locked_spec(t) {
                    go_spec(terms, p, State::MwcLocking, Action::BroadcastPrimary)
                } else {
                    go_spec(terms, p, p.state, Action::Wait)
                },
                Role::Buyer => if !terms.seller_lock_first || terms.mwc_locked_spec(t) {
                    go_spec(terms, p, State::MwcLocked, Action::BroadcastSecondary)
                } else {
                    go_spec(terms, p, p.state, Action::Wait)
                },
            }
        },
        State::MwcLocking | State::MwcLocked => if terms.mwc_locked_spec(t)
            && terms.secondary_locked_spec(t) {
            go_spec(terms, p, State::Locked, Action::Nothing)
        } else if late {
            expire_spec(terms, p)
        } else {
            go_spec(terms, p, p.state, Action::Wait)
        },
        State::Locked => if late {
            expire_spec(terms, p)
        } else {
            match terms.role {
                Role::Seller => go_spec(terms, p, p.state, Action::Wait),
                Role::Buyer => go_spec(
                    terms,
                    p,
                    State::InitRedeemSent,
                    Action::SendMessage(UpdateKind::InitRedeem),
                ),
            }
        },
        State::InitRedeem => if late {
            expire_spec(terms, p)
        } else {
            go_spec(terms, p, State::Redeem, Action::SendMessage(UpdateKind::Redeem))
        },
        State::Redeem | State::SellerWaitingForRefund => if t.secondary_redeem is Some {
            go_spec(terms, p, State::Completed, Action::Nothing)
        } else if t.mwc_redeem is Some {
            go_spec(terms, p, p.state, Action::PublishRedeem)
        } else if p.state == State::Redeem {
            if late {
                expire_spec(terms, p)
            } else {
                go_spec(terms, p, p.state, Action::Wait)
            }
        } else if terms.refunded_spec(t) {
            go_spec(terms, p, State::Refunded, Action::Nothing)
        } else if late {
            go_spec(terms, p, p.state, Action::PublishRefund)
        } else {
            go_spec(terms, p, p.state, Action::Wait)
        },
        State::InitRedeemSent => if late {
            expire_spec(terms, p)
        } else {
            go_spec(terms, p, p.state, Action::Wait)
        },
        State::RedeemReady => if t.mwc_redeem is Some {
            go_spec(terms, p, State::Completed, Action::Nothing)
        } else if p.redeem_published {
            if t.mwc_refund is Some {
                expire_spec(terms, p)
            } else {
                go_spec(terms, p, p.state, Action::Wait)
            }
        } else if late {
            expire_spec(terms, p)
        } else {
            go_spec(terms, p, p.state, Action::PublishRedeem)
        },
        State::BuyerWaitingForRefund => if t.mwc_redeem is Some {
            go_spec(terms, p, State::Completed, Action::Nothing)
        } else if terms.refunded_spec(t) {
            go_spec(terms, p, State::Refunded, Action::Nothing)
        } else if late {
            go_spec(terms, p, p.state, Action::PublishRefund)
        } else {
            go_spec(terms, p, p.state, Action::Wait)
        },
        State::Completed | State::Refunded | State::Cancelled => go_spec(
            terms,
            p,
            p.state,
            Action::Nothing,
        ),
    }
}

fn on_tick(terms: &Terms, before: Progress, t: Tick) -> (o: Outcome)
    ensures
        o == on_tick_spec(*terms, before, t),
{
    let p = observe(before, t);
    let late = expired(*terms, p, t.now);
    match p.state {
        State::Created => if late {
            expire(terms, p)
        } else {
            go(terms, p, State::OfferSent, Action::SendMessage(UpdateKind::Offer))
        },
        State::OfferSent => if late {
            expire(terms, p)
        } else {
            go(terms, p, p.state, Action::Wait)
        },
        State::Offered => if late {
            expire(terms, p)
        } else {
            go(terms, p, State::Accepted, Action::SendMessage(UpdateKind::AcceptOffer))
        },
        State::Accepted => if late {
            expire(terms, p)
        } else {
            match terms.role {
                Role::Seller => if terms.seller_lock_first || terms.secondary_locked(t) {
                    go(terms, p, State::MwcLocking, Action::BroadcastPrimary)
                } else {
                    go(terms, p, p.state, Action::Wait)
                },
                Role::Buyer => if !terms.seller_lock_first || terms.mwc_locked(t) {
                    go(terms, p, State::MwcLocked, Action::BroadcastSecondary)
                } else {
                    go(terms, p, p.state, Action::Wait)
                },
            }
        },
        State::MwcLocking | State::MwcLocked => if terms.mwc_locked(t) && terms.secondary_locked(
            t,
        ) {
            go(terms, p, State::Locked, Action::Nothing)
        } else if late {
            expire(terms, p)
        } else {
            go(terms, p, p.state, Action::Wait)
        },
        State::Locked => if late {
            expire(terms, p)
        } else {
            match terms.role {
                Role::Seller => go(terms, p, p.state, Action::Wait),
                Role::Buyer => go(
                    terms,
                    p,
                    State::InitRedeemSent,
                    Action::SendMessage(UpdateKind::InitRedeem),
                ),
            }
        },
        State::InitRedeem => if late {
            expire(terms, p)
        } else {
            go(terms, p, State::Redeem, Action::SendMessage(UpdateKind::Redeem))
        },
        State::Redeem => if t.secondary_redeem.is_some() {
            go(terms, p, State::Completed, Action::Nothing)
        } else if t.mwc_redeem.is_some() {
            go(terms, p, p.state, Action::PublishRedeem)
        } else if late {
            expire(terms, p)
        } else {
            go(terms, p, p.state, Action::Wait)
        },
        State::SellerWaitingForRefund => if t.secondary_redeem.is_some() {
            go(terms, p, State::Completed, Action::Nothing)
        } else if t.mwc_redeem.is_some() {
            go(terms, p, p.state, Action::PublishRedeem)
        } else if terms.refunded(t) {
            go(terms, p, State::Refunded, Action::Nothing)
        } else if late {
            go(terms, p, p.state, Action::PublishRefund)
        } else {
            go(terms, p, p.state, Action::Wait)
        },
        State::InitRedeemSent => if late {
            expire(terms, p)
        } else {
            go(terms, p, p.state, Action::Wait)
        },
        State::RedeemReady => if t.mwc_redeem.is_some() {
            go(terms, p, State::Completed, Action::Nothing)
        } else if p.redeem_published {
            if t.mwc_refund.is_some() {
                expire(terms, p)
            } else {
                go(terms, p, p.state, Action::Wait)
            }
        } else if late {
            expire(terms, p)
        } else {
            go(terms, p, p.state, Action::PublishRedeem)
        },
        State::BuyerWaitingForRefund => if t.mwc_redeem.is_some() {
            go(terms, p, State::Completed, Action::Nothing)
        } else if terms.refunded(t) {
            go(terms, p, State::Refunded, Action::Nothing)
        } else if late {
            go(terms, p, p.state, Action::PublishRefund)
        } else {
            go(terms, p, p.state, Action::Wait)
        },
        State::Completed | State::Refunded | State::Cancelled => go(
            terms,
            p,
            p.state,
            Action::Nothing,
        ),
    }
}

/// The message kind that completes the step a state is in, for the role.
pub open spec fn awaited_spec(state: State, role: Role) -> Option<UpdateKind> {
    match (state, role) {
        (State::OfferSent, Role::Seller) => Some(UpdateKind::AcceptOffer),
        (State::Locked, Role::Seller) => Some(UpdateKind::InitRedeem),
        (State::InitRedeemSent, Role::Buyer) => Some(UpdateKind::Redeem),
        _ => None,
    }
}

/// The message kind that completes the step a state is in, if it is one
/// that waits for a message.
#[verifier::when_used_as_spec(awaited_spec)]
pub fn awaited(state: State, role: Role) -> (k: Option<UpdateKind>)
    ensures
        k == awaited_spec(state, role),
{
    match (state, role) {
        (State::OfferSent, Role::Seller) => Some(UpdateKind::AcceptOffer),
        (State::Locked, Role::Seller) => Some(UpdateKind::InitRedeem),
        (State::InitRedeemSent, Role::Buyer) => Some(UpdateKind::Redeem),
        _ => None,
    }
}

/// The state that a verified message of the awaited kind leads to.
pub open spec fn accepted_spec(kind: UpdateKind) -> State {
    match kind {
        UpdateKind::AcceptOffer => State::Accepted,
        UpdateKind::InitRedeem => State::InitRedeem,
        UpdateKind::Redeem => State::RedeemReady,
        UpdateKind::Offer => State::Offered,
        UpdateKind::Nothing => State::Cancelled,
    }
}

/// The secondary part that goes with a message kind in a trade of the
/// given currency: an offer and its acceptance carry one for the trade's
/// currency, the others an empty one.
pub open spec fn secondary_for_spec(kind: UpdateKind, currency: Currency) -> Option<Currency> {
    match kind {
        UpdateKind::Offer | UpdateKind::AcceptOffer => Some(currency),
        _ => None,
    }
}

/// The secondary part that goes with a message kind.
#[verifier::when_used_as_spec(secondary_for_spec)]
pub fn secondary_for(kind: UpdateKind, currency: Currency) -> (r: Option<Currency>)
    ensures
        r == secondary_for_spec(kind, currency),
{
    match kind {
        UpdateKind::Offer | UpdateKind::AcceptOffer => Some(currency),
        _ => None,
    }
}

/// What a message does to a trade. Only the message that the state waits
/// for is taken; the trade's currency must be the one its secondary part is
/// for. A message that passed its checks completes the step; one that did
/// not sends the state to its fallback.
pub open spec fn on_message_spec(terms: Terms, p: Progress, m: Incoming) -> Result<
    Outcome,
    Reject,
> {
    if awaited_spec(p.state, terms.role) != Some(m.update) {
        Err(Reject::UnexpectedMessageType)
    } else if m.secondary != secondary_for_spec(m.update, terms.secondary_currency) {
        Err(Reject::UnexpectedCoinType)
    } else if m.verified {
        Ok(go_spec(terms, p, accepted_spec(m.update), Action::Nothing))
    } else {
        Ok(expire_spec(terms, p))
    }
}

fn on_message(terms: &Terms, p: Progress, m: Incoming) -> (r: Result<Outcome, Reject>)
    ensures
        r == on_message_spec(*terms, p, m),
{
    let next = match (awaited(p.state, terms.role), m.update) {
        (Some(UpdateKind::AcceptOffer), UpdateKind::AcceptOffer) => State::Accepted,
        (Some(UpdateKind::InitRedeem), UpdateKind::InitRedeem) => State::InitRedeem,
        (Some(UpdateKind::Redeem), UpdateKind::Redeem) => State::RedeemReady,
        _ => {
            return Err(Reject::UnexpectedMessageType);
        },
    };
    if m.secondary != secondary_for(m.update, terms.secondary_currency) {
        Err(Reject::UnexpectedCoinType)
    } else if m.verified {
        Ok(go(terms, p, next, Action::Nothing))
    } else {
        Ok(expire(terms, p))
    }
}

/// The states that the operator may set from where the trade stands: the
/// fallback of the current state, and from the state in which the buyer
/// redeems only as long as the redeem is not posted.
pub open spec fn may_adjust_spec(terms: Terms, p: Progress, target: State) -> bool {
    &&& fallback_spec(p.state, terms.role) == Some(target)
    &&& !(p.state == State::RedeemReady && p.redeem_published)
}

/// Whether the operator may set `target` from where the trade stands.
#[verifier::when_used_as_spec(may_adjust_spec)]
pub fn may_adjust(terms: Terms, p: Progress, target: State) -> (b: bool)
    ensures
        b == may_adjust_spec(terms, p, target),
{
    let blocked = match p.state {
        State::RedeemReady => p.redeem_published,
        _ => false,
    };
    match fallback(p.state, terms.role) {
        Some(next) => next == target && !blocked,
        None => false,
    }
}

/// The transition function.
pub open spec fn step_spec(terms: Terms, p: Progress, event: Event) -> Result<Outcome, Reject> {
    match event {
        Event::MessageReceived(m) => on_message_spec(terms, p, m),
        Event::Tick(t) => Ok(on_tick_spec(terms, p, t)),
        Event::UserAdjust(target) => if may_adjust_spec(terms, p, target) {
            Ok(go_spec(terms, p, target, Action::Nothing))
        } else {
            Err(Reject::InvalidAdjust)
        },
    }
}

/// Takes one step: maps the terms, the progress and an event to the
/// progress after it, the action to take and the deadline that then
/// applies; or refuses the event, and then nothing has changed.
pub fn step(terms: &Terms, p: &Progress, event: &Event) -> (r: Result<Outcome, Reject>)
    ensures
        r == step_spec(*terms, *p, *event),
{
    match *event {
        Event::MessageReceived(m) => on_message(terms, *p, m),
        Event::Tick(t) => Ok(on_tick(terms, *p, t)),
        Event::UserAdjust(target) => if may_adjust(*terms, *p, target) {
            Ok(go(terms, *p, target, Action::Nothing))
        } else {
            Err(Reject::InvalidAdjust)
        },
    }
}

/// The progress after an event: that of the outcome, or the old one where
/// the event was refused.
pub open spec fn after(terms: Terms, p: Progress, event: Event) -> Progress {
    match step_spec(terms, p, event) {
        Ok(o) => o.progress,
        Err(_) => p,
    }
}


/// The state that a name stands for.
pub open spec fn state_named(name: Seq<char>) -> Option<State> {
    if name == "Created"@ {
        Some(State::Created)
    } else if name == "OfferSent"@ {
        Some(State::OfferSent)
    } else if name == "Offered"@ {
        Some(State::Offered)
    } else if name == "Accepted"@ {
        Some(State::Accepted)
    } else if name == "MwcLocking"@ {
        Some(State::MwcLocking)
    } else if name == "MwcLocked"@ {
        Some(State::MwcLocked)
    } else if name == "Locked"@ {
        Some(State::Locked)
    } else if name == "InitRedeem"@ {
        Some(State::InitRedeem)
    } else if name == "Redeem"@ {
        Some(State::Redeem)
    } else if name == "InitRedeemSent"@ {
        Some(State::InitRedeemSent)
    } else if name == "RedeemReady"@ {
        Some(State::RedeemReady)
    } else if name == "SellerWaitingForRefund"@ {
        Some(State::SellerWaitingForRefund)
    } else if name == "BuyerWaitingForRefund"@ {
        Some(State::BuyerWaitingForRefund)
    } else if name == "Completed"@ {
        Some(State::Completed)
    } else if name == "Refunded"@ {
        Some(State::Refunded)
    } else if name == "Cancelled"@ {
        Some(State::Cancelled)
    } else {
        None
    }
}

/// The name of a state.
pub open spec fn state_name(s: State) -> Seq<char> {
    match s {
        State::Created => "Created"@,
        State::OfferSent => "OfferSent"@,
        State::Offered => "Offered"@,
        State::Accepted => "Accepted"@,
        State::MwcLocking => "MwcLocking"@,
        State::MwcLocked => "MwcLocked"@,
        State::Locked => "Locked"@,
        State::InitRedeem => "InitRedeem"@,
        State::Redeem => "Redeem"@,
        State::InitRedeemSent => "InitRedeemSent"@,
        State::RedeemReady => "RedeemReady"@,
        State::SellerWaitingForRefund => "SellerWaitingForRefund"@,
        State::BuyerWaitingForRefund => "BuyerWaitingForRefund"@,
        State::Completed => "Completed"@,
        State::Refunded => "Refunded"@,
        State::Cancelled => "Cancelled"@,
    }
}

/// Reads the name of a state.
pub fn state_from_name(name: &str) -> (r: Option<State>)
    ensures
        r == state_named(name@),
{
    if str_eq(name, "Created") {
        Some(State::Created)
    } else if str_eq(name, "OfferSent") {
        Some(State::OfferSent)
    } else if str_eq(name, "Offered") {
        Some(State::Offered)
    } else if str_eq(name, "Accepted") {
        Some(State::Accepted)
    } else if str_eq(name, "MwcLocking") {
        Some(State::MwcLocking)
    } else if str_eq(name, "MwcLocked") {
        Some(State::MwcLocked)
    } else if str_eq(name, "Locked") {
        Some(State::Locked)
    } else if str_eq(name, "InitRedeem") {
        Some(State::InitRedeem)
    } else if str_eq(name, "Redeem") {
        Some(State::Redeem)
    } else if str_eq(name, "InitRedeemSent") {
        Some(State::InitRedeemSent)
    } else if str_eq(name, "RedeemReady") {
        Some(State::RedeemReady)
    } else if str_eq(name, "SellerWaitingForRefund") {
        Some(State::SellerWaitingForRefund)
    } else if str_eq(name, "BuyerWaitingForRefund") {
        Some(State::BuyerWaitingForRefund)
    } else if str_eq(name, "Completed") {
        Some(State::Completed)
    } else if str_eq(name, "Refunded") {
        Some(State::Refunded)
    } else if str_eq(name, "Cancelled") {
        Some(State::Cancelled)
    } else {
        None
    }
}

/// Writes the name of a state.
pub fn state_text(s: State) -> (r: &'static str)
    ensures
        r@ == state_name(s),
{
    match s {
        State::Created => "Created",
        State::OfferSent => "OfferSent",
        State::Offered => "Offered",
        State::Accepted => "Accepted",
        State::MwcLocking => "MwcLocking",
        State::MwcLocked => "MwcLocked",
        State::Locked => "Locked",
        State::InitRedeem => "InitRedeem",
        State::Redeem => "Redeem",
        State::InitRedeemSent => "InitRedeemSent",
        State::RedeemReady => "RedeemReady",
        State::SellerWaitingForRefund => "SellerWaitingForRefund",
        State::BuyerWaitingForRefund => "BuyerWaitingForRefund",
        State::Completed => "Completed",
        State::Refunded => "Refunded",
        State::Cancelled => "Cancelled",
    }
}

/// The name of an action.
pub open spec fn action_name(a: Action) -> Seq<char> {
    match a {
        Action::Nothing => "None"@,
        Action::SendMessage(UpdateKind::Nothing) => "SendMessage(None)"@,
        Action::SendMessage(UpdateKind::Offer) => "SendMessage(Offer)"@,
        Action::SendMessage(UpdateKind::AcceptOffer) => "SendMessage(AcceptOffer)"@,
        Action::SendMessage(UpdateKind::InitRedeem) => "SendMessage(InitRedeem)"@,
        Action::SendMessage(UpdateKind::Redeem) => "SendMessage(Redeem)"@,
        Action::BroadcastPrimary => "BroadcastPrimary"@,
        Action::BroadcastSecondary => "BroadcastSecondary"@,
        Action::PublishRedeem => "PublishRedeem"@,
        Action::PublishRefund => "PublishRefund"@,
        Action::Wait => "Wait"@,
    }
}

/// Writes the name of an action.
pub fn action_text(a: Action) -> (r: &'static str)
    ensures
        r@ == action_name(a),
{
    match a {
        Action::Nothing => "None",
        Action::SendMessage(UpdateKind::Nothing) => "SendMessage(None)",
        Action::SendMessage(UpdateKind::Offer) => "SendMessage(Offer)",
        Action::SendMessage(UpdateKind::AcceptOffer) => "SendMessage(AcceptOffer)",
        Action::SendMessage(UpdateKind::InitRedeem) => "SendMessage(InitRedeem)",
        Action::SendMessage(UpdateKind::Redeem) => "SendMessage(Redeem)",
        Action::BroadcastPrimary => "BroadcastPrimary",
        Action::BroadcastSecondary => "BroadcastSecondary",
        Action::PublishRedeem => "PublishRedeem",
        Action::PublishRefund => "PublishRefund",
        Action::Wait => "Wait",
    }
}

/// The name of a state reads back as the state.
pub proof fn lemma_state_names_read_back(s: State)
    ensures
        state_named(state_name(s)) == Some(s),
{
    reveal_strlit("Created");
    reveal_strlit("OfferSent");
    reveal_strlit("Offered");
    reveal_strlit("Accepted");
    reveal_strlit("MwcLocking");
    reveal_strlit("MwcLocked");
    reveal_strlit("Locked");
    reveal_strlit("InitRedeem");
    reveal_strlit("Redeem");
    reveal_strlit("InitRedeemSent");
    reveal_strlit("RedeemReady");
    reveal_strlit("SellerWaitingForRefund");
    reveal_strlit("BuyerWaitingForRefund");
    reveal_strlit("Completed");
    reveal_strlit("Refunded");
    reveal_strlit("Cancelled");
    assert("Created"@.len() == 7 && "Created"@[0] == 'C' && "Created"@[1] == 'r');
    assert("OfferSent"@.len() == 9 && "OfferSent"@[0] == 'O' && "OfferSent"@[1] == 'f');
    assert("Offered"@.len() == 7 && "Offered"@[0] == 'O' && "Offered"@[1] == 'f');
    assert("Accepted"@.len() == 8 && "Accepted"@[0] == 'A' && "Accepted"@[1] == 'c');
    assert("MwcLocking"@.len() == 10 && "MwcLocking"@[0] == 'M' && "MwcLocking"@[1] == 'w');
    assert("MwcLocked"@.len() == 9 && "MwcLocked"@[0] == 'M' && "MwcLocked"@[1] == 'w');
    assert("Locked"@.len() == 6 && "Locked"@[0] == 'L' && "Locked"@[1] == 'o');
    assert("InitRedeem"@.len() == 10 && "InitRedeem"@[0] == 'I' && "InitRedeem"@[1] == 'n');
    assert("Redeem"@.len() == 6 && "Redeem"@[0] == 'R' && "Redeem"@[1] == 'e');
    assert("InitRedeemSent"@.len() == 14 && "InitRedeemSent"@[0] == 'I' && "InitRedeemSent"@[1] == 'n');
    assert("RedeemReady"@.len() == 11 && "RedeemReady"@[0] == 'R' && "RedeemReady"@[1] == 'e');
    assert("SellerWaitingForRefund"@.len() == 22 && "SellerWaitingForRefund"@[0] == 'S' && "SellerWaitingForRefund"@[1] == 'e');
    assert("BuyerWaitingForRefund"@.len() == 21 && "BuyerWaitingForRefund"@[0] == 'B' && "BuyerWaitingForRefund"@[1] == 'u');
    assert("Completed"@.len() == 9 && "Completed"@[0] == 'C' && "Completed"@[1] == 'o');
    assert("Refunded"@.len() == 8 && "Refunded"@[0] == 'R' && "Refunded"@[1] == 'e');
    assert("Cancelled"@.len() == 9 && "Cancelled"@[0] == 'C' && "Cancelled"@[1] == 'a');
}

} // verus!
