//! Starting a trade, joining one from an offer, and the swap command.

use vstd::prelude::*;
use crate::command::{
    plain, Call, ChainTypes, CommandError, Context, Failure, Listener, Plan, Step,
};
use crate::error::ErrorKind;
use crate::machine::{state_from_name, state_named, State, Terms, UpdateKind};
use crate::message::{
    goes_with, BtcOfferUpdate, BtcUpdate, BtcView, Message, MessageView, MultisigParticipant, OfferUpdate,
    OfferView, SecondaryUpdate, SecondaryView, TxParticipant, Update, UpdateView, VersionedSlate,
};
use crate::record::{fresh, Trade};
use crate::types::{str_eq, Currency, Network, PublicKey, Role, Timestamp, Uuid};

verus! {

/// The version of the swap protocol that this library speaks.
pub const SWAP_VERSION: u8 = 1;

/// The confirmations asked of the outputs that fund a trade where the
/// operator names none.
pub const DEFAULT_MINIMUM_CONFIRMATIONS: u64 = 10;

/// Arguments for the swap command
#[derive(Debug, PartialEq, Eq)]
pub struct SwapStartArgs {
    /// MWC to send
    pub mwc_amount: u64,
    /// Secondary currency
    pub secondary_currency: String,
    /// BTC to recieve
    pub secondary_amount: u64,
    /// Secondary currency redeem address
    pub secondary_redeem_address: String,
    /// Funds locking order. true - seller lock mwc first
    pub seller_lock_first: bool,
    /// Minimum confirmation for outputs. Default is 10
    pub minimum_confirmations: Option<u64>,
    /// Required confirmations for MWC Locking
    pub mwc_confirmations: u64,
    /// Required confirmations for BTC Locking
    pub secondary_confirmations: u64,
    /// Time interval for message exchange session.
    pub message_exchange_time_sec: u64,
    /// Time interval needed to redeem or execute a refund transaction.
    pub redeem_time_sec: u64,
}

/// What the secondary chain's code found an address to be.
#[derive(Clone, Copy, Debug, PartialEq, Eq, Structural)]
pub struct ParsedAddress {
    /// The chain whose addresses are written this way.
    pub currency: Currency,
    /// The network that the address belongs to.
    pub network: Network,
}

/// Why a trade cannot be started.
#[derive(Clone, Copy, Debug, PartialEq, Eq, Structural)]
pub enum StartFault {
    /// The secondary currency is not one that is supported.
    Currency,
    /// No confirmation is asked of the primary lock.
    Confirmations,
    /// The redeem time is less than twice the message exchange time.
    RedeemTime,
    /// The schedule does not fit the clock.
    Schedule,
    /// The redeem address is malformed, or of another chain or network.
    Address,
}

/// The network of a chain type: the production network for the production
/// chain, the test network for all others.
pub fn network_of(chain_type: ChainTypes) -> (n: Network)
    ensures
        n == (if chain_type == ChainTypes::Mainnet {
            Network::Mainnet
        } else {
            Network::Floonet
        }),
{
    match chain_type {
        ChainTypes::Mainnet => Network::Mainnet,
        _ => Network::Floonet,
    }
}

/// The confirmations asked of the outputs that fund the trade: what the
/// operator named, else ten.
pub fn minimum_confirmations(args: &SwapStartArgs) -> (n: u64)
    ensures
        n == (match args.minimum_confirmations {
            Some(c) => c,
            None => DEFAULT_MINIMUM_CONFIRMATIONS,
        }),
{
    match args.minimum_confirmations {
        Some(c) => c,
        None => DEFAULT_MINIMUM_CONFIRMATIONS,
    }
}

/// The terms of the trade that the seller asks for.
pub open spec fn start_terms(
    args: SwapStartArgs,
    currency: Currency,
    network: Network,
    start_time: i64,
) -> Terms {
    Terms {
        role: Role::Seller,
        network,
        primary_amount: args.mwc_amount,
        secondary_amount: args.secondary_amount,
        secondary_currency: currency,
        seller_lock_first: args.seller_lock_first,
        required_mwc_lock_confirmations: args.mwc_confirmations,
        required_secondary_lock_confirmations: args.secondary_confirmations,
        message_exchange_time_sec: args.message_exchange_time_sec,
        redeem_time_sec: args.redeem_time_sec,
        start_time,
    }
}

/// What is wrong with the arguments of a new trade, the first fault
/// first; `None` where nothing is.
pub open spec fn start_fault(
    args: SwapStartArgs,
    network: Network,
    start_time: i64,
    address: Option<ParsedAddress>,
) -> Option<StartFault> {
    match Currency::from_ticker_spec(args.secondary_currency@) {
        None => Some(StartFault::Currency),
        Some(currency) => if args.mwc_confirmations == 0 {
            Some(StartFault::Confirmations)
        } else if args.redeem_time_sec < 2 * args.message_exchange_time_sec {
            Some(StartFault::RedeemTime)
        } else if !start_terms(args, currency, network, start_time).wf() {
            Some(StartFault::Schedule)
        } else if address != Some(ParsedAddress { currency, network }) {
            Some(StartFault::Address)
        } else {
            None
        },
    }
}

fn invalid(text: &str) -> (e: ErrorKind)
    ensures
        e matches ErrorKind::InvalidArgument(m) && m@ == text@,
{
    ErrorKind::InvalidArgument(String::from_str(text))
}

/// Starts a trade as its seller. `id` is the identifier of the new trade,
/// `start_time` the time now, and `address` what the secondary chain's code
/// made of the redeem address, `None` where it could not read it.
///
/// The trade is refused with an argument error where the currency is not
/// known, where no confirmation is asked of the primary lock, where the
/// redeem time is less than twice the message exchange time, or where the
/// schedule does not fit the clock; and with an address error where the
/// redeem address is not one of the trade's currency and network.
/// Otherwise the result is the seller's new record.
pub fn swap_start(
    args: &SwapStartArgs,
    id: Uuid,
    network: Network,
    start_time: i64,
    address: Option<ParsedAddress>,
) -> (r: Result<Trade, ErrorKind>)
    ensures
        match start_fault(*args, network, start_time, address) {
            None => r matches Ok(t) && t@ == fresh(
                id,
                start_terms(
                    *args,
                    Currency::from_ticker_spec(args.secondary_currency@)->0,
                    network,
                    start_time,
                ),
            ) && t.wf() && t.terms.wf(),
            Some(StartFault::Address) => r matches Err(ErrorKind::InvalidSecondaryAddress(_)),
            Some(_) => r matches Err(ErrorKind::InvalidArgument(_)),
        },
{
    let currency = match Currency::from_ticker(args.secondary_currency.as_str()) {
        Some(c) => c,
        None => {
            return Err(invalid("Unknown secondary currency"));
        },
    };
    if args.mwc_confirmations == 0 {
        return Err(invalid("At least one confirmation is required for the MWC lock"));
    }
    if (args.redeem_time_sec as u128) < 2 * (args.message_exchange_time_sec as u128) {
        return Err(invalid("The redeem time must be at least twice the message exchange time"));
    }
    let terms = Terms {
        role: Role::Seller,
        network,
        primary_amount: args.mwc_amount,
        secondary_amount: args.secondary_amount,
        secondary_currency: currency,
        seller_lock_first: args.seller_lock_first,
        required_mwc_lock_confirmations: args.mwc_confirmations,
        required_secondary_lock_confirmations: args.secondary_confirmations,
        message_exchange_time_sec: args.message_exchange_time_sec,
        redeem_time_sec: args.redeem_time_sec,
        start_time,
    };
    if !terms.is_well_formed() {
        return Err(invalid("The schedule of the trade does not fit the clock"));
    }
    let fits = match address {
        Some(a) => a.currency == currency && a.network == network,
        None => false,
    };
    if !fits {
        return Err(
            ErrorKind::InvalidSecondaryAddress(
                String::from_str("Unable to parse secondary currency redeem address ").concat(
                    args.secondary_redeem_address.as_str(),
                ),
            ),
        );
    }
    Ok(Trade::new(id, terms))
}

/// The terms that an offer stands for, as the buyer holds them. The offer
/// names the seller's redeem time and the time after which the seller can
/// take the primary coins back; the message exchange time follows from
/// the two. `None` where it does not come out as a whole number.
pub open spec fn offer_terms(o: OfferView, seller_lock_first: bool) -> Option<Terms> {
    let rest = o.mwc_lock_time_seconds - 2 * o.seller_redeem_time - 1;
    if rest >= 0 && rest % 3 == 0 {
        Some(
            Terms {
                role: Role::Buyer,
                network: o.network,
                primary_amount: o.primary_amount,
                secondary_amount: o.secondary_amount,
                secondary_currency: o.secondary_currency,
                seller_lock_first,
                required_mwc_lock_confirmations: o.required_mwc_lock_confirmations,
                required_secondary_lock_confirmations: o.required_secondary_lock_confirmations,
                message_exchange_time_sec: (rest / 3) as u64,
                redeem_time_sec: o.seller_redeem_time,
                start_time: o.start_time.secs,
            },
        )
    } else {
        None
    }
}

/// Why a message does not make a trade.
#[derive(Clone, Copy, Debug, PartialEq, Eq, Structural)]
pub enum OfferFault {
    /// The message is no offer.
    NotAnOffer,
    /// The secondary part is not the one that goes with an offer.
    Secondary,
    /// The offer is of a protocol version that is not supported.
    Version,
    /// The terms of the offer are not ones that a trade can be started on.
    Terms,
}

/// What is wrong with a message as an offer, the first fault first.
pub open spec fn offer_fault(m: MessageView, seller_lock_first: bool) -> Option<OfferFault> {
    match m.inner {
        UpdateView::Offer(o) => if o.version != SWAP_VERSION {
            Some(OfferFault::Version)
        } else if !(m.inner_secondary matches SecondaryView::BTC(BtcView::Offer(_))) {
            Some(OfferFault::Secondary)
        } else {
            match offer_terms(o, seller_lock_first) {
                Some(t) => if t.wf() {
                    None
                } else {
                    Some(OfferFault::Terms)
                },
                None => Some(OfferFault::Terms),
            }
        },
        _ => Some(OfferFault::NotAnOffer),
    }
}

fn terms_of(o: &OfferUpdate, seller_lock_first: bool) -> (r: Option<Terms>)
    ensures
        r == offer_terms(o@, seller_lock_first),
{
    let lock = o.mwc_lock_time_seconds as u128;
    let twice = 2 * (o.seller_redeem_time as u128) + 1;
    if lock < twice {
        return None;
    }
    let rest = lock - twice;
    if rest % 3 != 0 {
        return None;
    }
    Some(
        Terms {
            role: Role::Buyer,
            network: o.network,
            primary_amount: o.primary_amount,
            secondary_amount: o.secondary_amount,
            secondary_currency: o.secondary_currency,
            seller_lock_first,
            required_mwc_lock_confirmations: o.required_mwc_lock_confirmations,
            required_secondary_lock_confirmations: o.required_secondary_lock_confirmations,
            message_exchange_time_sec: (rest / 3) as u64,
            redeem_time_sec: o.seller_redeem_time,
            start_time: o.start_time.secs,
        },
    )
}

/// Joins a trade as its buyer, from the seller's offer. `seller_lock_first`
/// is the order of the locks that this wallet goes by.
///
/// A message that is no offer is refused as an unexpected message; an
/// offer of another protocol version with an argument error; one whose
/// secondary part does not go with an offer as an unexpected coin; one on
/// terms that no trade can be started on with an argument error. Otherwise the result is the
/// buyer's new record, under the identifier of the message.
pub fn swap_create_from_offer(message: Message, seller_lock_first: bool) -> (r: Result<
    Trade,
    ErrorKind,
>)
    ensures
        match offer_fault(message@, seller_lock_first) {
            None => r matches Ok(t) && t@ == fresh(
                message.id,
                offer_terms(message@.inner->Offer_0, seller_lock_first)->0,
            ) && t.wf() && t.terms.wf(),
            Some(OfferFault::NotAnOffer) => r matches Err(ErrorKind::UnexpectedMessageType(_)),
            Some(OfferFault::Secondary) => r == Err::<Trade, ErrorKind>(
                ErrorKind::UnexpectedCoinType,
            ),
            Some(_) => r matches Err(ErrorKind::InvalidArgument(_)),
        },
{
    let (id, offer, secondary) = match message.unwrap_offer() {
        Ok(parts) => parts,
        Err(e) => {
            return Err(e);
        },
    };
    if offer.version != SWAP_VERSION {
        return Err(invalid("The offer is of a swap version that is not supported"));
    }
    match secondary {
        SecondaryUpdate::BTC(BtcUpdate::Offer(_)) => {},
        _ => {
            return Err(ErrorKind::UnexpectedCoinType);
        },
    }
    match terms_of(&offer, seller_lock_first) {
        Some(terms) => if terms.is_well_formed() {
            Ok(Trade::new(id, terms))
        } else {
            Err(invalid("The terms of the offer are not acceptable"))
        },
        None => Err(invalid("The lock time of the offer does not fit its redeem time")),
    }
}

/// The offer that the seller sends for the terms of a trade.
pub open spec fn offered(
    id: Uuid,
    terms: Terms,
    multisig: MultisigParticipant,
    lock_slate: VersionedSlate,
    refund_slate: VersionedSlate,
    redeem_participant: TxParticipant,
    cosign: PublicKey,
) -> MessageView {
    MessageView {
        id,
        inner: UpdateView::Offer(
            OfferView {
                start_time: Timestamp { secs: terms.start_time, nanos: 0 },
                version: SWAP_VERSION,
                network: terms.network,
                primary_amount: terms.primary_amount,
                secondary_amount: terms.secondary_amount,
                secondary_currency: terms.secondary_currency,
                multisig: multisig.body@,
                lock_slate: lock_slate.body@,
                refund_slate: refund_slate.body@,
                redeem_participant: redeem_participant.body@,
                required_mwc_lock_confirmations: terms.required_mwc_lock_confirmations,
                required_secondary_lock_confirmations: terms.required_secondary_lock_confirmations,
                mwc_lock_time_seconds: terms.lock_interval_spec() as u64,
                seller_redeem_time: terms.redeem_time_sec,
            },
        ),
        inner_secondary: SecondaryView::BTC(BtcView::Offer(cosign@)),
    }
}

/// Writes the seller's offer for a trade, with what the wallet prepared
/// for it: this side's half of the lock, the drafts of the lock and the
/// refund, this side's part of the redeem, and the key with which the
/// seller redeems on the secondary chain. Only the seller of a trade on
/// sound terms has an offer to make; any other trade is an argument error.
pub fn offer_message(
    trade: &Trade,
    multisig: MultisigParticipant,
    lock_slate: VersionedSlate,
    refund_slate: VersionedSlate,
    redeem_participant: TxParticipant,
    cosign: PublicKey,
) -> (r: Result<Message, ErrorKind>)
    ensures
        if trade.terms.role == Role::Seller && trade.terms.wf() {
            r matches Ok(m) && m@ == offered(
                trade.id,
                trade.terms,
                multisig,
                lock_slate,
                refund_slate,
                redeem_participant,
                cosign,
            )
        } else {
            r matches Err(ErrorKind::InvalidArgument(_))
        },
{
    let terms = trade.terms;
    if !trade.is_seller() {
        return Err(invalid("Only the seller makes an offer"));
    }
    if !terms.is_well_formed() {
        return Err(invalid("The terms of the trade are not acceptable"));
    }
    Ok(
        Message::new(
            trade.id,
            Update::Offer(
                OfferUpdate {
                    start_time: Timestamp { secs: terms.start_time, nanos: 0 },
                    version: SWAP_VERSION,
                    network: terms.network,
                    primary_amount: terms.primary_amount,
                    secondary_amount: terms.secondary_amount,
                    secondary_currency: terms.secondary_currency,
                    multisig,
                    lock_slate,
                    refund_slate,
                    redeem_participant,
                    required_mwc_lock_confirmations: terms.required_mwc_lock_confirmations,
                    required_secondary_lock_confirmations: terms.required_secondary_lock_confirmations,
                    mwc_lock_time_seconds: terms.lock_interval() as u64,
                    seller_redeem_time: terms.redeem_time_sec,
                },
            ),
            SecondaryUpdate::BTC(BtcUpdate::Offer(BtcOfferUpdate { cosign })),
        ),
    )
}

/// Both sides hold the same terms: the buyer reads from the seller's offer
/// the terms that the seller started on, but for the role, and for the
/// order of the locks, which each wallet sets for itself.
pub proof fn lemma_offer_carries_terms(
    id: Uuid,
    terms: Terms,
    multisig: MultisigParticipant,
    lock_slate: VersionedSlate,
    refund_slate: VersionedSlate,
    redeem_participant: TxParticipant,
    cosign: PublicKey,
    seller_lock_first: bool,
)
    requires
        terms.wf(),
    ensures
        ({
            let m = offered(
                id,
                terms,
                multisig,
                lock_slate,
                refund_slate,
                redeem_participant,
                cosign,
            );
            &&& offer_fault(m, seller_lock_first) is None
            &&& offer_terms(m.inner->Offer_0, seller_lock_first) == Some(
                Terms { role: Role::Buyer, seller_lock_first, ..terms },
            )
            &&& goes_with(UpdateKind::Offer, m.inner_secondary)
        }),
{
}

/// An offer of a version that this library does not speak is refused,
/// whatever else it holds.
pub proof fn lemma_version_is_checked(m: MessageView, seller_lock_first: bool)
    requires
        m.inner matches UpdateView::Offer(o) && o.version != SWAP_VERSION,
    ensures
        offer_fault(m, seller_lock_first) == Some(OfferFault::Version),
{
}

/// Terms that ask no confirmation of the primary lock, or whose redeem
/// time is less than twice the message exchange time, start no trade.
pub proof fn lemma_bounds_are_checked(
    args: SwapStartArgs,
    network: Network,
    start_time: i64,
    address: Option<ParsedAddress>,
)
    requires
        args.mwc_confirmations == 0 || args.redeem_time_sec < 2 * args.message_exchange_time_sec,
    ensures
        start_fault(args, network, start_time, address) is Some,
        start_fault(args, network, start_time, address) != Some(StartFault::Address),
{
}


/// Swap operation
#[derive(Clone, Copy, Debug, PartialEq, Eq, Structural)]
pub enum SwapSubcommand {
    List,
    Delete,
    Check,
    Process,
    Autoswap,
    Adjust,
    Dump,
    StopAllAutoSwap,
}

/// Arguments for the swap command
#[derive(Debug, PartialEq, Eq)]
pub struct SwapArgs {
    /// What we want to do with a swap
    pub subcommand: SwapSubcommand,
    /// Swap ID that will are working with
    pub swap_id: Option<String>,
    /// Action to process. Value must match expected
    pub adjust: Option<String>,
    /// Transport that can be used for interaction
    pub method: Option<String>,
    /// Destination for messages that needed to be send
    pub destination: Option<String>,
    /// Apisecret of the other party of the swap
    pub apisecret: Option<String>,
    /// Secondary currency fee, in thousandths of a satoshi per byte.
    pub fee_millisatoshi_per_byte: Option<u64>,
    /// File name with message content, if message need to be processed with files
    pub message_file_name: Option<String>,
    /// Refund address for the buyer
    pub buyer_refund_address: Option<String>,
    /// Whether to start listener or not for swap
    pub start_listener: bool,
}

/// How swap messages travel.
#[derive(Clone, Copy, Debug, PartialEq, Eq, Structural)]
pub enum Transport {
    /// Written to a file.
    File,
    /// Through the message queue.
    Mqs,
    /// Over HTTP through the onion network.
    Tor,
}

/// What the swap command asks for, once its arguments are found to be
/// there. The identifier, the destination and the other texts are the
/// ones in the arguments.
#[derive(Clone, Copy, Debug, PartialEq, Eq, Structural)]
pub enum SwapRequest {
    /// List the trades.
    List,
    /// Delete the trade.
    Delete,
    /// Set the trade to a state.
    Adjust(State),
    /// Show the trade and what it waits for.
    Check,
    /// Carry out the trade's current action.
    Process(Transport),
    /// Drive the trade without the operator.
    Autoswap(Transport),
    /// Ask the operator, then stop all drivers.
    StopAll,
    /// Show the stored record.
    Dump,
}

/// What is missing or wrong in the arguments of the swap command.
#[derive(Clone, Copy, Debug, PartialEq, Eq, Structural)]
pub enum SwapFault {
    NoSwapId,
    NoAdjust,
    UnknownState,
    NoMethod,
    NoDestination,
    UnsupportedMethod,
}

/// The transport that a method names: the message queue, the onion
/// network, or else a file.
pub open spec fn transport_of(method: Seq<char>) -> Transport {
    if method == "mwcmqs"@ {
        Transport::Mqs
    } else if method == "tor"@ {
        Transport::Tor
    } else {
        Transport::File
    }
}

fn transport_for(method: &str) -> (t: Transport)
    ensures
        t == transport_of(method@),
{
    if str_eq(method, "mwcmqs") {
        Transport::Mqs
    } else if str_eq(method, "tor") {
        Transport::Tor
    } else {
        Transport::File
    }
}

/// What the swap command asks for, or what is wrong with its arguments.
/// All but `List` and `StopAllAutoSwap` need the identifier of a trade.
/// `Adjust` needs the name of a state. `Process` goes by file where no
/// method is named. `Autoswap` needs a method and a destination, and goes
/// by the message queue or the onion network only.
pub open spec fn swap_spec(args: SwapArgs) -> Result<SwapRequest, SwapFault> {
    match args.subcommand {
        SwapSubcommand::List => Ok(SwapRequest::List),
        SwapSubcommand::StopAllAutoSwap => Ok(SwapRequest::StopAll),
        _ => if args.swap_id is None {
            Err(SwapFault::NoSwapId)
        } else {
            match args.subcommand {
                SwapSubcommand::Delete => Ok(SwapRequest::Delete),
                SwapSubcommand::Check => Ok(SwapRequest::Check),
                SwapSubcommand::Dump => Ok(SwapRequest::Dump),
                SwapSubcommand::Adjust => match args.adjust {
                    None => Err(SwapFault::NoAdjust),
                    Some(name) => match state_named(name@) {
                        Some(s) => Ok(SwapRequest::Adjust(s)),
                        None => Err(SwapFault::UnknownState),
                    },
                },
                SwapSubcommand::Process => Ok(
                    SwapRequest::Process(
                        match args.method {
                            Some(m) => transport_of(m@),
                            None => Transport::File,
                        },
                    ),
                ),
                _ => match args.method {
                    None => Err(SwapFault::NoMethod),
                    Some(m) => if args.destination is None {
                        Err(SwapFault::NoDestination)
                    } else if transport_of(m@) == Transport::File {
                        Err(SwapFault::UnsupportedMethod)
                    } else {
                        Ok(SwapRequest::Autoswap(transport_of(m@)))
                    },
                },
            }
        },
    }
}

/// The text of the argument error for a fault.
pub open spec fn fault_spec(f: SwapFault, args: SwapArgs) -> Seq<char> {
    match f {
        SwapFault::NoSwapId => "Not found expected 'swap_id' argument"@,
        SwapFault::NoAdjust => "Not found expected 'adjust' argument"@,
        SwapFault::UnknownState => "Unknown state "@ + args.adjust->0@,
        SwapFault::NoMethod => "Please define '--method' parameter for autoswp"@,
        SwapFault::NoDestination =>
            "Please define destination address (--dest) for automated swap"@,
        SwapFault::UnsupportedMethod => "Auto Swap doesn't support communication method "@
            + args.method->0@,
    }
}

fn refuse<T>(text: String) -> (r: Result<T, CommandError>)
    ensures
        r matches Err(CommandError::ArgumentError(m)) && m@ == text@,
{
    Err(CommandError::ArgumentError(text))
}

/// Reads the arguments of the swap command: says what is asked for, or
/// refuses arguments that are missing or wrong with an argument error.
pub fn swap(args: &SwapArgs) -> (r: Result<SwapRequest, CommandError>)
    ensures
        match swap_spec(*args) {
            Ok(request) => r == Ok::<SwapRequest, CommandError>(request),
            Err(f) => r matches Err(CommandError::ArgumentError(m)) && m@ == fault_spec(f, *args),
        },
{
    match args.subcommand {
        SwapSubcommand::List => {
            return Ok(SwapRequest::List);
        },
        SwapSubcommand::StopAllAutoSwap => {
            return Ok(SwapRequest::StopAll);
        },
        _ => {},
    }
    if args.swap_id.is_none() {
        return refuse(String::from_str("Not found expected 'swap_id' argument"));
    }
    match args.subcommand {
        SwapSubcommand::Delete => Ok(SwapRequest::Delete),
        SwapSubcommand::Check => Ok(SwapRequest::Check),
        SwapSubcommand::Dump => Ok(SwapRequest::Dump),
        SwapSubcommand::Adjust => match &args.adjust {
            None => refuse(String::from_str("Not found expected 'adjust' argument")),
            Some(name) => match state_from_name(name.as_str()) {
                Some(s) => Ok(SwapRequest::Adjust(s)),
                None => refuse(String::from_str("Unknown state ").concat(name.as_str())),
            },
        },
        SwapSubcommand::Process => Ok(
            SwapRequest::Process(
                match &args.method {
                    Some(m) => transport_for(m.as_str()),
                    None => Transport::File,
                },
            ),
        ),
        _ => match &args.method {
            None => refuse(String::from_str("Please define '--method' parameter for autoswp")),
            Some(m) => if args.destination.is_none() {
                refuse(
                    String::from_str(
                        "Please define destination address (--dest) for automated swap",
                    ),
                )
            } else {
                match transport_for(m.as_str()) {
                    Transport::File => refuse(
                        String::from_str("Auto Swap doesn't support communication method ").concat(
                            m.as_str(),
                        ),
                    ),
                    t => Ok(SwapRequest::Autoswap(t)),
                }
            },
        },
    }
}

/// Which listeners run.
#[derive(Clone, Copy, Debug, PartialEq, Eq, Structural)]
pub struct Running {
    /// The message queue listener.
    pub mqs: bool,
    /// The HTTP listener of the foreign API, with or without the onion
    /// service.
    pub foreign_api: bool,
}

/// What the automatic swap has to end with before it starts, if it
/// cannot start.
#[derive(Clone, Copy, Debug, PartialEq, Eq, Structural)]
pub enum SetupFault {
    /// Messages cannot go by file.
    ByFile,
    /// The listener that was to be started runs already.
    AlreadyRunning(Listener),
    /// The message queue is not configured.
    NoMqsConfig,
    /// The onion transport is not configured.
    NoTorConfig,
}

/// The listener that serves a transport.
pub open spec fn listener_for(t: Transport) -> Listener {
    match t {
        Transport::Mqs => Listener::Mqs,
        _ => Listener::Http,
    }
}

/// Why the automatic swap cannot start its listener.
pub open spec fn setup_fault(
    transport: Transport,
    start_listener: bool,
    running: Running,
    has_mqs_config: bool,
    has_tor_config: bool,
) -> Option<SetupFault> {
    if transport == Transport::File {
        Some(SetupFault::ByFile)
    } else if !start_listener {
        None
    } else {
        match transport {
            Transport::Mqs => if running.mqs {
                Some(SetupFault::AlreadyRunning(Listener::Mqs))
            } else if !has_mqs_config {
                Some(SetupFault::NoMqsConfig)
            } else {
                None
            },
            _ => if running.foreign_api {
                Some(SetupFault::AlreadyRunning(Listener::Http))
            } else if !has_tor_config {
                Some(SetupFault::NoTorConfig)
            } else {
                None
            },
        }
    }
}

/// The calls that get the automatic swap ready: the listener is started
/// where that is asked for, then the destination is checked, then the
/// listener has to run.
pub open spec fn setup_plan(transport: Transport, start_listener: bool) -> Seq<Step> {
    let listener = listener_for(transport);
    (if start_listener {
        seq![
            Step {
                call: Call::StartListener { listener, wait: false },
                failure: if transport == Transport::Mqs {
                    Failure::LibWallet(Context::StartMqs)
                } else {
                    Failure::Propagate
                },
            },
            plain(Call::Pause { millis: 2000 }),
        ]
    } else {
        seq![]
    }) + seq![
        Step {
            call: Call::ValidateDestination { listener },
            failure: Failure::Argument(Context::InvalidDestination),
        },
        Step {
            call: Call::RequireListener { listener },
            failure: Failure::Generic(
                if transport == Transport::Mqs {
                    Context::MqsNotRunning
                } else {
                    Context::TorNotRunning
                },
            ),
        },
    ]
}

/// The text of the error for a setup fault.
pub open spec fn setup_text(f: SetupFault) -> Seq<char> {
    match f {
        SetupFault::AlreadyRunning(Listener::Mqs) =>
            "mwcmqs listener is already running, there is no need to specify '--start_listener' parameter"@,
        SetupFault::AlreadyRunning(_) =>
            "tor or http listener is already running, there is no need to specify '--start_listener' parameter"@,
        SetupFault::NoMqsConfig => "No MQS config found!"@,
        SetupFault::NoTorConfig => "Tor configuration is not defined"@,
        SetupFault::ByFile => "Auto Swap doesn't support communication method file"@,
    }
}

/// Gets the automatic swap ready to send messages. Messages cannot go by
/// file. A listener that is to be started must not run already and must
/// be configured. Else nothing is called and the command ends with an
/// error.
pub fn autoswap_setup(
    transport: Transport,
    start_listener: bool,
    running: Running,
    has_mqs_config: bool,
    has_tor_config: bool,
) -> (plan: Plan)
    ensures
        match setup_fault(transport, start_listener, running, has_mqs_config, has_tor_config) {
            None => plan.end is None && plan.steps@ == setup_plan(transport, start_listener),
            Some(f) => plan.steps@ == Seq::<Step>::empty() && match f {
                SetupFault::NoMqsConfig => plan.end matches Some(CommandError::MQSConfig(m)) && m@
                    == setup_text(f),
                SetupFault::ByFile => plan.end matches Some(CommandError::ArgumentError(m)) && m@
                    == setup_text(f),
                _ => plan.end matches Some(CommandError::GenericError(m)) && m@ == setup_text(f),
            },
        },
{
    if transport == Transport::File {
        return Plan::refuse(
            String::from_str("Auto Swap doesn't support communication method file"),
        );
    }
    let listener = match transport {
        Transport::Mqs => Listener::Mqs,
        _ => Listener::Http,
    };
    let mut steps: Vec<Step> = Vec::new();
    if start_listener {
        match transport {
            Transport::Mqs => {
                if running.mqs {
                    return Plan {
                        steps,
                        end: Some(
                            CommandError::GenericError(
                                String::from_str(
                                    "mwcmqs listener is already running, there is no need to specify '--start_listener' parameter",
                                ),
                            ),
                        ),
                    };
                }
                if !has_mqs_config {
                    return Plan {
                        steps,
                        end: Some(CommandError::MQSConfig(String::from_str("No MQS config found!"))),
                    };
                }
                steps.push(
                    Step {
                        call: Call::StartListener { listener, wait: false },
                        failure: Failure::LibWallet(Context::StartMqs),
                    },
                );
            },
            _ => {
                if running.foreign_api {
                    return Plan {
                        steps,
                        end: Some(
                            CommandError::GenericError(
                                String::from_str(
                                    "tor or http listener is already running, there is no need to specify '--start_listener' parameter",
                                ),
                            ),
                        ),
                    };
                }
                if !has_tor_config {
                    return Plan {
                        steps,
                        end: Some(
                            CommandError::GenericError(
                                String::from_str("Tor configuration is not defined"),
                            ),
                        ),
                    };
                }
                steps.push(Step::plain(Call::StartListener { listener, wait: false }));
            },
        }
        steps.push(Step::plain(Call::Pause { millis: 2000 }));
    }
    steps.push(
        Step {
            call: Call::ValidateDestination { listener },
            failure: Failure::Argument(Context::InvalidDestination),
        },
    );
    steps.push(
        Step {
            call: Call::RequireListener { listener },
            failure: Failure::Generic(
                match transport {
                    Transport::Mqs => Context::MqsNotRunning,
                    _ => Context::TorNotRunning,
                },
            ),
        },
    );
    assert(steps@ =~= setup_plan(transport, start_listener));
    Plan::of(steps)
}

/// Whether the automatic swap has what it needs to refund the buyer: the
/// seller needs nothing; the buyer needs a refund address that the
/// secondary chain's code could read as one of the trade's currency and
/// network.
pub open spec fn refund_ready(terms: Terms, given: bool, parsed: Option<ParsedAddress>) -> bool {
    terms.role == Role::Seller || (given && parsed == Some(
        ParsedAddress { currency: terms.secondary_currency, network: terms.network },
    ))
}

/// Checks the buyer's refund address before the automatic swap starts.
/// `parsed` is what the secondary chain's code made of the address. A
/// buyer without an address, or with one that does not fit the trade, ends
/// the command with an error before anything is locked.
pub fn check_refund_address(
    trade: &Trade,
    address: &Option<String>,
    parsed: Option<ParsedAddress>,
) -> (r: Result<(), CommandError>)
    ensures
        refund_ready(trade.terms, address is Some, parsed) <==> r is Ok,
        r matches Err(e) ==> e is GenericError,
{
    if trade.is_seller() {
        return Ok(());
    }
    match address {
        None => Err(
            CommandError::GenericError(
                String::from_str("Please define buyer_refund_address for automated swap"),
            ),
        ),
        Some(text) => {
            let fits = match parsed {
                Some(a) => a.currency == trade.terms.secondary_currency && a.network
                    == trade.terms.network,
                None => false,
            };
            if fits {
                Ok(())
            } else {
                Err(
                    CommandError::GenericError(
                        String::from_str(
                            "Unable to parse secondary currency redeem address ",
                        ).concat(text.as_str()),
                    ),
                )
            }
        },
    }
}

/// The calls that deliver one swap message.
pub open spec fn delivery_plan(transport: Transport) -> Seq<Step> {
    match transport {
        Transport::File => seq![
            Step { call: Call::WriteMessage, failure: Failure::Swap(Context::StoreMessage) },
        ],
        Transport::Mqs => seq![
            Step {
                call: Call::StartListener { listener: Listener::Mqs, wait: false },
                failure: Failure::Swap(Context::StartMqs),
            },
            plain(Call::Pause { millis: 2000 }),
            Step { call: Call::CreateSender, failure: Failure::Swap(Context::CreateSender) },
            Step { call: Call::SendMessage, failure: Failure::Swap(Context::DeliverMessage) },
        ],
        Transport::Tor => seq![
            plain(Call::StartListener { listener: Listener::Http, wait: false }),
            plain(Call::Pause { millis: 2000 }),
            Step { call: Call::CreateSender, failure: Failure::Swap(Context::CreateSender) },
            Step { call: Call::SendMessage, failure: Failure::Swap(Context::DeliverMessage) },
        ],
    }
}

/// Why a message cannot be delivered.
pub open spec fn delivery_fault_text(
    transport: Transport,
    has_destination: bool,
    has_mqs_config: bool,
    has_tor_config: bool,
) -> Option<Seq<char>> {
    if !has_destination {
        Some("Expected 'destination' argument is not found"@)
    } else if transport == Transport::Mqs && !has_mqs_config {
        Some("No MQS config found!"@)
    } else if transport == Transport::Tor && !has_tor_config {
        Some("Tor configuration is not defined"@)
    } else {
        None
    }
}

/// Delivers the message of the `process` step: by file it is written to
/// the destination, which counts as delivered; by the message queue or
/// the onion network the listener is started first, since the answer
/// comes back through it. Without a destination, or without the
/// configuration of the transport, nothing is called.
pub fn delivery(
    transport: Transport,
    has_destination: bool,
    has_mqs_config: bool,
    has_tor_config: bool,
) -> (plan: Plan)
    ensures
        match delivery_fault_text(transport, has_destination, has_mqs_config, has_tor_config) {
            None => plan.end is None && plan.steps@ == delivery_plan(transport),
            Some(text) => plan.steps@ == Seq::<Step>::empty() && (if has_destination
                && transport == Transport::Tor {
                plan.end matches Some(CommandError::GenericError(m)) && m@ == text
            } else {
                plan.end matches Some(CommandError::SwapError(m)) && m@ == text
            }),
        },
{
    if !has_destination {
        return Plan {
            steps: Vec::new(),
            end: Some(
                CommandError::SwapError(
                    String::from_str("Expected 'destination' argument is not found"),
                ),
            ),
        };
    }
    match transport {
        Transport::File => Plan::of(
            vec![Step { call: Call::WriteMessage, failure: Failure::Swap(Context::StoreMessage) }],
        ),
        Transport::Mqs => if !has_mqs_config {
            Plan {
                steps: Vec::new(),
                end: Some(CommandError::SwapError(String::from_str("No MQS config found!"))),
            }
        } else {
            Plan::of(
                vec![
                    Step {
                        call: Call::StartListener { listener: Listener::Mqs, wait: false },
                        failure: Failure::Swap(Context::StartMqs),
                    },
                    Step::plain(Call::Pause { millis: 2000 }),
                    Step {
                        call: Call::CreateSender,
                        failure: Failure::Swap(Context::CreateSender),
                    },
                    Step {
                        call: Call::SendMessage,
                        failure: Failure::Swap(Context::DeliverMessage),
                    },
                ],
            )
        },
        Transport::Tor => if !has_tor_config {
            Plan {
                steps: Vec::new(),
                end: Some(
                    CommandError::GenericError(String::from_str("Tor configuration is not defined")),
                ),
            }
        } else {
            Plan::of(
                vec![
                    Step::plain(Call::StartListener { listener: Listener::Http, wait: false }),
                    Step::plain(Call::Pause { millis: 2000 }),
                    Step {
                        call: Call::CreateSender,
                        failure: Failure::Swap(Context::CreateSender),
                    },
                    Step {
                        call: Call::SendMessage,
                        failure: Failure::Swap(Context::DeliverMessage),
                    },
                ],
            )
        },
    }
}

/// Whether a character is white space.
pub open spec fn is_space(c: char) -> bool {
    let n = c as u32;
    (0x9 <= n <= 0xd) || n == 0x20 || n == 0x85 || n == 0xa0 || n == 0x1680 || (0x2000 <= n
        <= 0x200a) || n == 0x2028 || n == 0x2029 || n == 0x202f || n == 0x205f || n == 0x3000
}

/// Whether `i` is the place of the first character of a text that is not
/// white space.
pub open spec fn first_mark(text: Seq<char>, i: int) -> bool {
    &&& 0 <= i < text.len()
    &&& !is_space(text[i])
    &&& forall|k: int| 0 <= k < i ==> is_space(text[k])
}

/// Whether an answer says yes: its first character that is not white
/// space is a `y`, small or capital.
pub open spec fn says_yes(answer: Seq<char>) -> bool {
    exists|i: int| first_mark(answer, i) && (answer[i] == 'y' || answer[i] == 'Y')
}

fn space(c: char) -> (b: bool)
    ensures
        b == is_space(c),
{
    let n = c as u32;
    (0x9 <= n && n <= 0xd) || n == 0x20 || n == 0x85 || n == 0xa0 || n == 0x1680 || (0x2000 <= n
        && n <= 0x200a) || n == 0x2028 || n == 0x2029 || n == 0x202f || n == 0x205f || n
        == 0x3000
}

/// Reads the operator's answer to the question whether all automatic
/// swaps are to be stopped.
pub fn confirms_stop(answer: &str) -> (yes: bool)
    ensures
        yes == says_yes(answer@),
{
    let n = answer.unicode_len();
    let mut i: usize = 0;
    while i < n
        invariant
            n == answer@.len(),
            i <= n,
            forall|k: int| 0 <= k < i ==> is_space(answer@[k]),
        decreases n - i,
    {
        let c = answer.get_char(i);
        if !space(c) {
            assert(first_mark(answer@, i as int));
            assert forall|j: int| first_mark(answer@, j) implies j == i by {
                if j < i {
                    assert(is_space(answer@[j]));
                } else if j > i {
                    assert(!is_space(answer@[i as int]));
                }
            }
            return c == 'y' || c == 'Y';
        }
        i = i + 1;
    }
    assert(forall|j: int| !first_mark(answer@, j));
    false
}

} // verus!
