//! The messages that seller and buyer exchange.

use vstd::prelude::*;
use crate::error::ErrorKind;
use crate::json::{Json, JsonView};
use crate::machine::{Incoming, UpdateKind};
use crate::types::{Currency, Network, PublicKey, Signature, Timestamp, Uuid};

verus! {

/// One side's half of the two-party lock: nonce commitments and partial
/// keys, carried as the document that the signing code reads and writes.
#[derive(Debug, PartialEq, Eq)]
pub struct MultisigParticipant {
    pub body: Json,
}

/// A transaction draft in one of its wire versions, carried as a document.
#[derive(Debug, PartialEq, Eq)]
pub struct VersionedSlate {
    pub body: Json,
}

/// One participant's public part of a transaction draft, carried as a
/// document.
#[derive(Debug, PartialEq, Eq)]
pub struct TxParticipant {
    pub body: Json,
}

/// Swap message that is used for Seller/Buyer interaction
#[derive(Debug, PartialEq, Eq)]
pub struct Message {
    /// Swap session UUID
    pub id: Uuid,
    /// Swap core data
    pub inner: Update,
    /// Secondary currency (BTC) related data
    pub inner_secondary: SecondaryUpdate,
}

/// Swap core data of the Seller/Buyer message
#[derive(Debug, PartialEq, Eq)]
pub enum Update {
    /// Empty data placeholder
    Nothing,
    /// Seller to Buyer: the seller's initial offer
    Offer(OfferUpdate),
    /// Buyer sending back accepted offer
    AcceptOffer(AcceptOfferUpdate),
    /// Buyer to Seller, once both locks stand: start of the redeem slate
    InitRedeem(InitRedeemUpdate),
    /// Seller to Buyer: the seller's part of the redeem slate
    Redeem(RedeemUpdate),
}

/// Seller creates initial offer
#[derive(Debug, PartialEq, Eq)]
pub struct OfferUpdate {
    /// Swap starting time.
    pub start_time: Timestamp,
    /// Version of the swap engine. Both party must match
    pub version: u8,
    /// The type of the network. Floonet or mainnet
    pub network: Network,
    /// Number of MWC to offer
    pub primary_amount: u64,
    /// Number of BTC to get
    pub secondary_amount: u64,
    /// BTC
    pub secondary_currency: Currency,
    /// Seller part of multisig
    pub multisig: MultisigParticipant,
    /// Lock Slate that Buyer need to continue to build
    pub lock_slate: VersionedSlate,
    /// Refund slate that buyer need to sign.
    pub refund_slate: VersionedSlate,
    /// Needed info to build step 1 on redeem state (that saving some interaction)
    pub redeem_participant: TxParticipant,
    /// Required confirmations for MWC Locking
    pub required_mwc_lock_confirmations: u64,
    /// Required confirmations for BTC Locking
    pub required_secondary_lock_confirmations: u64,
    /// Seller MWC funds lock time interval in seconds
    pub mwc_lock_time_seconds: u64,
    /// Seller BTC redeem time interval. BTC expected to be locked for that time as well.
    pub seller_redeem_time: u64,
}

/// Buyer responded for offer
#[derive(Debug, PartialEq, Eq)]
pub struct AcceptOfferUpdate {
    /// Buyer part of multisig
    pub multisig: MultisigParticipant,
    /// Public key for Redeem Slate
    pub redeem_public: PublicKey,
    /// Buyer part needed to build lock slate
    pub lock_participant: TxParticipant,
    /// Buyer part needed to build refund slate
    pub refund_participant: TxParticipant,
}

/// Buyer building the redeem slate
#[derive(Debug, PartialEq, Eq)]
pub struct InitRedeemUpdate {
    /// redeem slate, construction in the progress
    pub redeem_slate: VersionedSlate,
    /// adaptor signature for redeem_slate
    pub adaptor_signature: Signature,
}

/// Seller sending its part needed for redeem transaction
#[derive(Debug, PartialEq, Eq)]
pub struct RedeemUpdate {
    /// Needed data to build redeem transaction
    pub redeem_participant: TxParticipant,
}

/// Seller's part of the secondary script.
#[derive(Debug, PartialEq, Eq)]
pub struct BtcOfferUpdate {
    /// The key with which the seller redeems.
    pub cosign: PublicKey,
}

/// Buyer's part of the secondary script.
#[derive(Debug, PartialEq, Eq)]
pub struct BtcAcceptOfferUpdate {
    /// The key with which the buyer takes a refund.
    pub refund: PublicKey,
}

/// What a message says about the secondary chain.
#[derive(Debug, PartialEq, Eq)]
pub enum BtcUpdate {
    /// Goes with the offer.
    Offer(BtcOfferUpdate),
    /// Goes with the acceptance.
    AcceptOffer(BtcAcceptOfferUpdate),
}

/// Update message about Secondary Currency (BTC)
#[derive(Debug, PartialEq, Eq)]
pub enum SecondaryUpdate {
    /// None, empty value
    Empty,
    /// BTC update
    BTC(BtcUpdate),
}

pub struct OfferView {
    pub start_time: Timestamp,
    pub version: u8,
    pub network: Network,
    pub primary_amount: u64,
    pub secondary_amount: u64,
    pub secondary_currency: Currency,
    pub multisig: JsonView,
    pub lock_slate: JsonView,
    pub refund_slate: JsonView,
    pub redeem_participant: JsonView,
    pub required_mwc_lock_confirmations: u64,
    pub required_secondary_lock_confirmations: u64,
    pub mwc_lock_time_seconds: u64,
    pub seller_redeem_time: u64,
}

pub struct AcceptOfferView {
    pub multisig: JsonView,
    pub redeem_public: Seq<u8>,
    pub lock_participant: JsonView,
    pub refund_participant: JsonView,
}

pub struct InitRedeemView {
    pub redeem_slate: JsonView,
    pub adaptor_signature: Seq<u8>,
}

pub struct RedeemView {
    pub redeem_participant: JsonView,
}

pub enum UpdateView {
    Nothing,
    Offer(OfferView),
    AcceptOffer(AcceptOfferView),
    InitRedeem(InitRedeemView),
    Redeem(RedeemView),
}

pub enum BtcView {
    Offer(Seq<u8>),
    AcceptOffer(Seq<u8>),
}

pub enum SecondaryView {
    Empty,
    BTC(BtcView),
}

/// The mathematical value of a [`Message`].
pub struct MessageView {
    pub id: Uuid,
    pub inner: UpdateView,
    pub inner_secondary: SecondaryView,
}

impl View for OfferUpdate {
    type V = OfferView;

    open spec fn view(&self) -> OfferView {
        OfferView {
            start_time: self.start_time,
            version: self.version,
            network: self.network,
            primary_amount: self.primary_amount,
            secondary_amount: self.secondary_amount,
            secondary_currency: self.secondary_currency,
            multisig: self.multisig.body@,
            lock_slate: self.lock_slate.body@,
            refund_slate: self.refund_slate.body@,
            redeem_participant: self.redeem_participant.body@,
            required_mwc_lock_confirmations: self.required_mwc_lock_confirmations,
            required_secondary_lock_confirmations: self.required_secondary_lock_confirmations,
            mwc_lock_time_seconds: self.mwc_lock_time_seconds,
            seller_redeem_time: self.seller_redeem_time,
        }
    }
}

impl View for AcceptOfferUpdate {
    type V = AcceptOfferView;

    open spec fn view(&self) -> AcceptOfferView {
        AcceptOfferView {
            multisig: self.multisig.body@,
            redeem_public: self.redeem_public@,
            lock_participant: self.lock_participant.body@,
            refund_participant: self.refund_participant.body@,
        }
    }
}

impl View for InitRedeemUpdate {
    type V = InitRedeemView;

    open spec fn view(&self) -> InitRedeemView {
        InitRedeemView {
            redeem_slate: self.redeem_slate.body@,
            adaptor_signature: self.adaptor_signature@,
        }
    }
}

impl View for RedeemUpdate {
    type V = RedeemView;

    open spec fn view(&self) -> RedeemView {
        RedeemView { redeem_participant: self.redeem_participant.body@ }
    }
}

impl View for Update {
    type V = UpdateView;

    open spec fn view(&self) -> UpdateView {
        match self {
            Update::Nothing => UpdateView::Nothing,
            Update::Offer(u) => UpdateView::Offer(u@),
            Update::AcceptOffer(u) => UpdateView::AcceptOffer(u@),
            Update::InitRedeem(u) => UpdateView::InitRedeem(u@),
            Update::Redeem(u) => UpdateView::Redeem(u@),
        }
    }
}

impl View for BtcUpdate {
    type V = BtcView;

    open spec fn view(&self) -> BtcView {
        match self {
            BtcUpdate::Offer(u) => BtcView::Offer(u.cosign@),
            BtcUpdate::AcceptOffer(u) => BtcView::AcceptOffer(u.refund@),
        }
    }
}

impl View for SecondaryUpdate {
    type V = SecondaryView;

    open spec fn view(&self) -> SecondaryView {
        match self {
            SecondaryUpdate::Empty => SecondaryView::Empty,
            SecondaryUpdate::BTC(u) => SecondaryView::BTC(u@),
        }
    }
}

impl View for Message {
    type V = MessageView;

    open spec fn view(&self) -> MessageView {
        MessageView { id: self.id, inner: self.inner@, inner_secondary: self.inner_secondary@ }
    }
}

impl Update {
    /// The kind of the update.
    pub open spec fn kind_spec(&self) -> UpdateKind {
        match self {
            Update::Nothing => UpdateKind::Nothing,
            Update::Offer(_) => UpdateKind::Offer,
            Update::AcceptOffer(_) => UpdateKind::AcceptOffer,
            Update::InitRedeem(_) => UpdateKind::InitRedeem,
            Update::Redeem(_) => UpdateKind::Redeem,
        }
    }

    /// The kind of the update.
    #[verifier::when_used_as_spec(kind_spec)]
    pub fn kind(&self) -> (k: UpdateKind)
        ensures
            k == self.kind_spec(),
    {
        match self {
            Update::Nothing => UpdateKind::Nothing,
            Update::Offer(_) => UpdateKind::Offer,
            Update::AcceptOffer(_) => UpdateKind::AcceptOffer,
            Update::InitRedeem(_) => UpdateKind::InitRedeem,
            Update::Redeem(_) => UpdateKind::Redeem,
        }
    }
}

/// The name under which a kind of update is written and reported.
pub open spec fn kind_name(k: UpdateKind) -> Seq<char> {
    match k {
        UpdateKind::Nothing => "None"@,
        UpdateKind::Offer => "Offer"@,
        UpdateKind::AcceptOffer => "AcceptOffer"@,
        UpdateKind::InitRedeem => "InitRedeem"@,
        UpdateKind::Redeem => "Redeem"@,
    }
}

/// The name under which a kind of update is written and reported.
pub fn kind_text(k: UpdateKind) -> (s: &'static str)
    ensures
        s@ == kind_name(k),
{
    match k {
        UpdateKind::Nothing => "None",
        UpdateKind::Offer => "Offer",
        UpdateKind::AcceptOffer => "AcceptOffer",
        UpdateKind::InitRedeem => "InitRedeem",
        UpdateKind::Redeem => "Redeem",
    }
}

/// The text of the error for a message that is not of the kind asked for.
pub open spec fn unexpected_spec(function: Seq<char>, wanted: UpdateKind, got: UpdateKind) -> Seq<
    char,
> {
    "Fn "@ + function + "() expecting Update::"@ + kind_name(wanted) + ", get "@ + kind_name(got)
}

fn unexpected(function: &str, wanted: UpdateKind, got: UpdateKind) -> (e: ErrorKind)
    ensures
        e matches ErrorKind::UnexpectedMessageType(m) && m@ == unexpected_spec(
            function@,
            wanted,
            got,
        ),
{
    ErrorKind::UnexpectedMessageType(
        String::from_str("Fn ").concat(function).concat("() expecting Update::").concat(
            kind_text(wanted),
        ).concat(", get ").concat(kind_text(got)),
    )
}

/// Whether a secondary part is the one that goes with a kind of update:
/// the offer's with an offer, the acceptance's with an acceptance, an empty
/// one with the others.
pub open spec fn goes_with(kind: UpdateKind, secondary: SecondaryView) -> bool {
    match kind {
        UpdateKind::Offer => secondary matches SecondaryView::BTC(BtcView::Offer(_)),
        UpdateKind::AcceptOffer => secondary matches SecondaryView::BTC(BtcView::AcceptOffer(_)),
        _ => secondary is Empty,
    }
}

impl Message {
    /// Create message form it's components
    pub fn new(id: Uuid, inner: Update, inner_secondary: SecondaryUpdate) -> (m: Message)
        ensures
            m == (Message { id, inner, inner_secondary }),
    {
        Message { id, inner, inner_secondary }
    }

    /// Init BTC related message
    pub fn set_inner_secondary(&mut self, inner_secondary: SecondaryUpdate)
        ensures
            *final(self) == (Message {
                id: old(self).id,
                inner: old(self).inner,
                inner_secondary,
            }),
    {
        self.inner_secondary = inner_secondary;
    }

    /// Unwrap message as Offer
    pub fn unwrap_offer(self) -> (r: Result<(Uuid, OfferUpdate, SecondaryUpdate), ErrorKind>)
        ensures
            match self.inner {
                Update::Offer(u) => r == Ok::<(Uuid, OfferUpdate, SecondaryUpdate), ErrorKind>(
                    (self.id, u, self.inner_secondary),
                ),
                _ => r matches Err(ErrorKind::UnexpectedMessageType(m)) && m@ == unexpected_spec(
                    "unwrap_offer"@,
                    UpdateKind::Offer,
                    self.inner.kind_spec(),
                ),
            },
    {
        match self.inner {
            Update::Offer(u) => Ok((self.id, u, self.inner_secondary)),
            other => Err(unexpected("unwrap_offer", UpdateKind::Offer, other.kind())),
        }
    }

    /// Unwrap message as Accepted Offer
    pub fn unwrap_accept_offer(self) -> (r: Result<
        (Uuid, AcceptOfferUpdate, SecondaryUpdate),
        ErrorKind,
    >)
        ensures
            match self.inner {
                Update::AcceptOffer(u) => r == Ok::<
                    (Uuid, AcceptOfferUpdate, SecondaryUpdate),
                    ErrorKind,
                >((self.id, u, self.inner_secondary)),
                _ => r matches Err(ErrorKind::UnexpectedMessageType(m)) && m@ == unexpected_spec(
                    "unwrap_accept_offer"@,
                    UpdateKind::AcceptOffer,
                    self.inner.kind_spec(),
                ),
            },
    {
        match self.inner {
            Update::AcceptOffer(u) => Ok((self.id, u, self.inner_secondary)),
            other => Err(unexpected("unwrap_accept_offer", UpdateKind::AcceptOffer, other.kind())),
        }
    }

    /// Unwrap message as Init Redeem
    pub fn unwrap_init_redeem(self) -> (r: Result<
        (Uuid, InitRedeemUpdate, SecondaryUpdate),
        ErrorKind,
    >)
        ensures
            match self.inner {
                Update::InitRedeem(u) => r == Ok::<
                    (Uuid, InitRedeemUpdate, SecondaryUpdate),
                    ErrorKind,
                >((self.id, u, self.inner_secondary)),
                _ => r matches Err(ErrorKind::UnexpectedMessageType(m)) && m@ == unexpected_spec(
                    "unwrap_init_redeem"@,
                    UpdateKind::InitRedeem,
                    self.inner.kind_spec(),
                ),
            },
    {
        match self.inner {
            Update::InitRedeem(u) => Ok((self.id, u, self.inner_secondary)),
            other => Err(unexpected("unwrap_init_redeem", UpdateKind::InitRedeem, other.kind())),
        }
    }

    /// Unwrap message as Redeem
    pub fn unwrap_redeem(self) -> (r: Result<(Uuid, RedeemUpdate, SecondaryUpdate), ErrorKind>)
        ensures
            match self.inner {
                Update::Redeem(u) => r == Ok::<(Uuid, RedeemUpdate, SecondaryUpdate), ErrorKind>(
                    (self.id, u, self.inner_secondary),
                ),
                _ => r matches Err(ErrorKind::UnexpectedMessageType(m)) && m@ == unexpected_spec(
                    "unwrap_redeem"@,
                    UpdateKind::Redeem,
                    self.inner.kind_spec(),
                ),
            },
    {
        match self.inner {
            Update::Redeem(u) => Ok((self.id, u, self.inner_secondary)),
            other => Err(unexpected("unwrap_redeem", UpdateKind::Redeem, other.kind())),
        }
    }

    /// The buyer's acceptance of an offer, with the key that the buyer
    /// takes a refund with on the secondary chain.
    pub fn accept_offer(id: Uuid, update: AcceptOfferUpdate, refund: PublicKey) -> (m: Message)
        ensures
            m == (Message {
                id,
                inner: Update::AcceptOffer(update),
                inner_secondary: SecondaryUpdate::BTC(
                    BtcUpdate::AcceptOffer(BtcAcceptOfferUpdate { refund }),
                ),
            }),
            goes_with(m.inner.kind_spec(), m.inner_secondary@),
    {
        Message {
            id,
            inner: Update::AcceptOffer(update),
            inner_secondary: SecondaryUpdate::BTC(
                BtcUpdate::AcceptOffer(BtcAcceptOfferUpdate { refund }),
            ),
        }
    }

    /// The buyer's redeem request. It says nothing about the secondary
    /// chain.
    pub fn init_redeem(id: Uuid, update: InitRedeemUpdate) -> (m: Message)
        ensures
            m == (Message {
                id,
                inner: Update::InitRedeem(update),
                inner_secondary: SecondaryUpdate::Empty,
            }),
            goes_with(m.inner.kind_spec(), m.inner_secondary@),
    {
        Message { id, inner: Update::InitRedeem(update), inner_secondary: SecondaryUpdate::Empty }
    }

    /// The seller's redeem message. It says nothing about the secondary
    /// chain.
    pub fn redeem(id: Uuid, update: RedeemUpdate) -> (m: Message)
        ensures
            m == (Message {
                id,
                inner: Update::Redeem(update),
                inner_secondary: SecondaryUpdate::Empty,
            }),
            goes_with(m.inner.kind_spec(), m.inner_secondary@),
    {
        Message { id, inner: Update::Redeem(update), inner_secondary: SecondaryUpdate::Empty }
    }

    /// Whether the two parts of the message go together.
    pub fn is_consistent(&self) -> (b: bool)
        ensures
            b == goes_with(self.inner.kind_spec(), self.inner_secondary@),
    {
        match (self.inner.kind(), &self.inner_secondary) {
            (UpdateKind::Offer, SecondaryUpdate::BTC(BtcUpdate::Offer(_))) => true,
            (UpdateKind::Offer, _) => false,
            (UpdateKind::AcceptOffer, SecondaryUpdate::BTC(BtcUpdate::AcceptOffer(_))) => true,
            (UpdateKind::AcceptOffer, _) => false,
            (_, SecondaryUpdate::Empty) => true,
            (_, _) => false,
        }
    }

    /// What the trade machine reads of the message.
    pub open spec fn incoming_spec(&self, classified: Currency, verified: bool) -> Incoming {
        Incoming {
            update: self.inner.kind_spec(),
            secondary: if self.inner_secondary is Empty {
                None
            } else {
                Some(classified)
            },
            verified,
        }
    }

    /// What the trade machine reads of the message. `classified` is the
    /// currency whose rules the secondary part follows, as the secondary
    /// chain's code found it; `verified` says whether the signatures and
    /// keys in the message passed their checks.
    pub fn incoming(&self, classified: Currency, verified: bool) -> (m: Incoming)
        ensures
            m == self.incoming_spec(classified, verified),
    {
        Incoming {
            update: self.inner.kind(),
            secondary: match self.inner_secondary {
                SecondaryUpdate::Empty => None,
                SecondaryUpdate::BTC(_) => Some(classified),
            },
            verified,
        }
    }
}

impl SecondaryUpdate {
    /// Helper to extract BtcUpdate with type validation
    pub fn unwrap_btc(self) -> (r: Result<BtcUpdate, ErrorKind>)
        ensures
            match self {
                SecondaryUpdate::BTC(d) => r == Ok::<BtcUpdate, ErrorKind>(d),
                SecondaryUpdate::Empty => r == Err::<BtcUpdate, ErrorKind>(
                    ErrorKind::UnexpectedCoinType,
                ),
            },
    {
        match self {
            SecondaryUpdate::BTC(d) => Ok(d),
            _ => Err(ErrorKind::UnexpectedCoinType),
        }
    }
}

} // verus!
