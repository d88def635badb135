use atomic_swap::command::{Call, ChainTypes, CommandError, Context, Failure, Listener, Step};
use atomic_swap::error::ErrorKind;
use atomic_swap::json::Json;
use atomic_swap::machine::{action_text, state_from_name, state_text, Action, State, Terms, UpdateKind};
use atomic_swap::message::{
    BtcAcceptOfferUpdate, BtcOfferUpdate, BtcUpdate, Message, MultisigParticipant, SecondaryUpdate,
    TxParticipant, Update, VersionedSlate,
};
use atomic_swap::record::Trade;
use atomic_swap::swap::{
    autoswap_setup, check_refund_address, confirms_stop, delivery, minimum_confirmations,
    network_of, offer_message, swap, swap_create_from_offer,
    swap_start, ParsedAddress, Running, SwapArgs, SwapRequest, SwapStartArgs, SwapSubcommand,
    Transport, SWAP_VERSION,
};
use atomic_swap::types::{Currency, Network, PublicKey, Role, Timestamp, Uuid};

const START: i64 = 1_600_000_000;

fn start_args() -> SwapStartArgs {
    SwapStartArgs {
        mwc_amount: 1_000_000_000,
        secondary_currency: "BTC".to_string(),
        secondary_amount: 10_000,
        secondary_redeem_address: "mjdcskZJ4NGUGXbXeqg9x4hP5pGT6FTAHA".to_string(),
        seller_lock_first: true,
        minimum_confirmations: None,
        mwc_confirmations: 1,
        secondary_confirmations: 1,
        message_exchange_time_sec: 600,
        redeem_time_sec: 3600,
    }
}

fn btc_test() -> Option<ParsedAddress> {
    Some(ParsedAddress { currency: Currency::Btc, network: Network::Floonet })
}

fn start(args: &SwapStartArgs) -> Result<Trade, ErrorKind> {
    swap_start(args, Uuid { value: 9 }, Network::Floonet, START, btc_test())
}

fn seller_terms() -> Terms {
    Terms {
        role: Role::Seller,
        network: Network::Floonet,
        primary_amount: 1_000_000_000,
        secondary_amount: 10_000,
        secondary_currency: Currency::Btc,
        seller_lock_first: true,
        required_mwc_lock_confirmations: 1,
        required_secondary_lock_confirmations: 1,
        message_exchange_time_sec: 600,
        redeem_time_sec: 3600,
        start_time: START,
    }
}

fn offer_of(trade: &Trade) -> Message {
    offer_message(
        trade,
        MultisigParticipant { body: Json::Null },
        VersionedSlate { body: Json::Null },
        VersionedSlate { body: Json::Null },
        TxParticipant { body: Json::Null },
        PublicKey { bytes: vec![2; 33] },
    )
    .unwrap()
}

#[test]
fn seller_starts_in_created() {
    let t = start(&start_args()).unwrap();
    assert_eq!(t.id, Uuid { value: 9 });
    assert_eq!(t.terms, seller_terms());
    assert_eq!(t.progress.state, State::Created);
    assert_eq!(t.revision, 0);
    assert!(t.journal.is_empty());
    assert_eq!(t.last_message_sent_hash, None);
}

#[test]
fn zero_mwc_confirmations_are_rejected() {
    let args = SwapStartArgs { mwc_confirmations: 0, ..start_args() };
    assert!(matches!(start(&args), Err(ErrorKind::InvalidArgument(_))));
    let args = SwapStartArgs { secondary_confirmations: 0, ..start_args() };
    assert!(start(&args).is_ok());
}

#[test]
fn short_redeem_time_is_rejected() {
    let args = SwapStartArgs { redeem_time_sec: 1199, ..start_args() };
    assert_eq!(
        start(&args),
        Err(ErrorKind::InvalidArgument(
            "The redeem time must be at least twice the message exchange time".to_string()
        ))
    );
    let args = SwapStartArgs { redeem_time_sec: 1200, ..start_args() };
    assert!(start(&args).is_ok());
    let args = SwapStartArgs { redeem_time_sec: u64::MAX, message_exchange_time_sec: u64::MAX, ..start_args() };
    assert!(matches!(start(&args), Err(ErrorKind::InvalidArgument(_))));
}

#[test]
fn schedule_beyond_the_clock_is_rejected() {
    let args = SwapStartArgs { redeem_time_sec: u64::MAX / 2, message_exchange_time_sec: 1, ..start_args() };
    assert_eq!(
        start(&args),
        Err(ErrorKind::InvalidArgument("The schedule of the trade does not fit the clock".to_string()))
    );
}

#[test]
fn unknown_currency_is_rejected() {
    let args = SwapStartArgs { secondary_currency: "ETH".to_string(), ..start_args() };
    assert_eq!(start(&args), Err(ErrorKind::InvalidArgument("Unknown secondary currency".to_string())));
    let args = SwapStartArgs { secondary_currency: "bch".to_string(), ..start_args() };
    let bch = Some(ParsedAddress { currency: Currency::Bch, network: Network::Floonet });
    let t = swap_start(&args, Uuid { value: 1 }, Network::Floonet, START, bch).unwrap();
    assert_eq!(t.terms.secondary_currency, Currency::Bch);
    assert_eq!(Currency::from_ticker("Btc"), None);
}

#[test]
fn redeem_address_must_fit_currency_and_network() {
    let args = start_args();
    let id = Uuid { value: 1 };
    let r = swap_start(&args, id, Network::Floonet, START, None);
    assert_eq!(
        r,
        Err(ErrorKind::InvalidSecondaryAddress(
            "Unable to parse secondary currency redeem address mjdcskZJ4NGUGXbXeqg9x4hP5pGT6FTAHA".to_string()
        ))
    );
    let main = Some(ParsedAddress { currency: Currency::Btc, network: Network::Mainnet });
    assert!(matches!(
        swap_start(&args, id, Network::Floonet, START, main),
        Err(ErrorKind::InvalidSecondaryAddress(_))
    ));
    let bch = Some(ParsedAddress { currency: Currency::Bch, network: Network::Floonet });
    assert!(matches!(
        swap_start(&args, id, Network::Floonet, START, bch),
        Err(ErrorKind::InvalidSecondaryAddress(_))
    ));
    assert!(swap_start(&args, id, Network::Mainnet, START, main).is_ok());
}

#[test]
fn minimum_confirmations_default_to_ten() {
    assert_eq!(minimum_confirmations(&start_args()), 10);
    let args = SwapStartArgs { minimum_confirmations: Some(3), ..start_args() };
    assert_eq!(minimum_confirmations(&args), 3);
    assert_eq!(network_of(ChainTypes::Mainnet), Network::Mainnet);
    assert_eq!(network_of(ChainTypes::Floonet), Network::Floonet);
    assert_eq!(network_of(ChainTypes::UserTesting), Network::Floonet);
}

#[test]
fn buyer_joins_from_the_offer_on_the_same_terms() {
    let seller = start(&start_args()).unwrap();
    let offer = offer_of(&seller);
    match &offer.inner {
        Update::Offer(o) => {
            assert_eq!(o.version, SWAP_VERSION);
            assert_eq!(o.mwc_lock_time_seconds, 9001);
            assert_eq!(o.seller_redeem_time, 3600);
            assert_eq!(o.start_time, Timestamp { secs: START, nanos: 0 });
        }
        other => panic!("{:?}", other),
    }
    assert!(offer.is_consistent());
    let wire = offer.to_json().unwrap();
    let received = Message::from_json(&wire).unwrap();
    let buyer = swap_create_from_offer(received, true).unwrap();
    assert_eq!(buyer.id, seller.id);
    assert_eq!(buyer.terms, Terms { role: Role::Buyer, ..seller_terms() });
    assert_eq!(buyer.progress.state, State::Offered);
    let other_order = swap_create_from_offer(offer_of(&seller), false).unwrap();
    assert!(!other_order.terms.seller_lock_first);
}

#[test]
fn only_the_seller_on_sound_terms_makes_an_offer() {
    let seller = start(&start_args()).unwrap();
    let buyer = swap_create_from_offer(offer_of(&seller), true).unwrap();
    let make = |t: &Trade| {
        offer_message(
            t,
            MultisigParticipant { body: Json::Null },
            VersionedSlate { body: Json::Null },
            VersionedSlate { body: Json::Null },
            TxParticipant { body: Json::Null },
            PublicKey { bytes: vec![2; 33] },
        )
    };
    assert_eq!(make(&buyer), Err(ErrorKind::InvalidArgument("Only the seller makes an offer".to_string())));
    let mut unsound = start(&start_args()).unwrap();
    unsound.terms.redeem_time_sec = 1;
    assert!(matches!(make(&unsound), Err(ErrorKind::InvalidArgument(_))));
}

#[test]
fn autoswap_does_not_go_by_file() {
    let idle = Running { mqs: false, foreign_api: false };
    let plan = autoswap_setup(Transport::File, true, idle, true, true);
    assert!(plan.steps.is_empty());
    assert_eq!(
        plan.end,
        Some(CommandError::ArgumentError(
            "Auto Swap doesn't support communication method file".to_string()
        ))
    );
}

#[test]
fn offer_of_another_version_is_rejected() {
    let seller = start(&start_args()).unwrap();
    for version in [0u8, 2, 255] {
        let mut offer = offer_of(&seller);
        if let Update::Offer(o) = &mut offer.inner {
            o.version = version;
        }
        assert_eq!(
            swap_create_from_offer(offer, true),
            Err(ErrorKind::InvalidArgument(
                "The offer is of a swap version that is not supported".to_string()
            ))
        );
    }
}

#[test]
fn offer_of_another_version_is_rejected_whatever_else_it_holds() {
    let seller = start(&start_args()).unwrap();
    let mut offer = offer_of(&seller);
    offer.set_inner_secondary(SecondaryUpdate::Empty);
    if let Update::Offer(o) = &mut offer.inner {
        o.version = 2;
        o.required_mwc_lock_confirmations = 0;
    }
    assert!(matches!(swap_create_from_offer(offer, true), Err(ErrorKind::InvalidArgument(_))));
}

#[test]
fn offer_without_its_secondary_part_is_rejected() {
    let seller = start(&start_args()).unwrap();
    let mut offer = offer_of(&seller);
    offer.set_inner_secondary(SecondaryUpdate::Empty);
    assert_eq!(swap_create_from_offer(offer, true), Err(ErrorKind::UnexpectedCoinType));
    let mut offer = offer_of(&seller);
    offer.set_inner_secondary(SecondaryUpdate::BTC(BtcUpdate::AcceptOffer(BtcAcceptOfferUpdate {
        refund: PublicKey { bytes: vec![2; 33] },
    })));
    assert_eq!(swap_create_from_offer(offer, true), Err(ErrorKind::UnexpectedCoinType));
}

#[test]
fn message_that_is_no_offer_is_rejected() {
    let m = Message::new(
        Uuid { value: 1 },
        Update::Nothing,
        SecondaryUpdate::BTC(BtcUpdate::Offer(BtcOfferUpdate { cosign: PublicKey { bytes: vec![2; 33] } })),
    );
    assert_eq!(
        swap_create_from_offer(m, true),
        Err(ErrorKind::UnexpectedMessageType(
            "Fn unwrap_offer() expecting Update::Offer, get None".to_string()
        ))
    );
}

#[test]
fn offer_on_unacceptable_terms_is_rejected() {
    let seller = start(&start_args()).unwrap();
    let mut offer = offer_of(&seller);
    if let Update::Offer(o) = &mut offer.inner {
        o.required_mwc_lock_confirmations = 0;
    }
    assert!(matches!(swap_create_from_offer(offer, true), Err(ErrorKind::InvalidArgument(_))));
    let mut offer = offer_of(&seller);
    if let Update::Offer(o) = &mut offer.inner {
        o.mwc_lock_time_seconds = 9002;
    }
    assert_eq!(
        swap_create_from_offer(offer, true),
        Err(ErrorKind::InvalidArgument(
            "The lock time of the offer does not fit its redeem time".to_string()
        ))
    );
    let mut offer = offer_of(&seller);
    if let Update::Offer(o) = &mut offer.inner {
        // 3 * 2000 + 2 * 3600 + 1: a redeem time of less than twice the exchange time
        o.mwc_lock_time_seconds = 13_201;
    }
    assert_eq!(
        swap_create_from_offer(offer, true),
        Err(ErrorKind::InvalidArgument("The terms of the offer are not acceptable".to_string()))
    );
}

fn swap_args(subcommand: SwapSubcommand) -> SwapArgs {
    SwapArgs {
        subcommand,
        swap_id: Some("a1a2a3a4-b1b2-c1c2-d1d2-d3d4d5d6d7d8".to_string()),
        adjust: None,
        method: None,
        destination: None,
        apisecret: None,
        fee_millisatoshi_per_byte: None,
        message_file_name: None,
        buyer_refund_address: None,
        start_listener: false,
    }
}

fn argument_error(text: &str) -> Result<SwapRequest, CommandError> {
    Err(CommandError::ArgumentError(text.to_string()))
}

#[test]
fn swap_command_needs_the_trade() {
    for sub in [
        SwapSubcommand::Delete,
        SwapSubcommand::Check,
        SwapSubcommand::Process,
        SwapSubcommand::Autoswap,
        SwapSubcommand::Adjust,
        SwapSubcommand::Dump,
    ] {
        let args = SwapArgs { swap_id: None, ..swap_args(sub) };
        assert_eq!(swap(&args), argument_error("Not found expected 'swap_id' argument"));
    }
    let args = SwapArgs { swap_id: None, ..swap_args(SwapSubcommand::List) };
    assert_eq!(swap(&args), Ok(SwapRequest::List));
    let args = SwapArgs { swap_id: None, ..swap_args(SwapSubcommand::StopAllAutoSwap) };
    assert_eq!(swap(&args), Ok(SwapRequest::StopAll));
    assert_eq!(swap(&swap_args(SwapSubcommand::Delete)), Ok(SwapRequest::Delete));
    assert_eq!(swap(&swap_args(SwapSubcommand::Check)), Ok(SwapRequest::Check));
    assert_eq!(swap(&swap_args(SwapSubcommand::Dump)), Ok(SwapRequest::Dump));
}

#[test]
fn swap_adjust_needs_a_known_state() {
    assert_eq!(
        swap(&swap_args(SwapSubcommand::Adjust)),
        argument_error("Not found expected 'adjust' argument")
    );
    let args = SwapArgs { adjust: Some("SellerWaitingForRefund".to_string()), ..swap_args(SwapSubcommand::Adjust) };
    assert_eq!(swap(&args), Ok(SwapRequest::Adjust(State::SellerWaitingForRefund)));
    let args = SwapArgs { adjust: Some("Nowhere".to_string()), ..swap_args(SwapSubcommand::Adjust) };
    assert_eq!(swap(&args), argument_error("Unknown state Nowhere"));
}

#[test]
fn state_names_read_back() {
    for s in [
        State::Created, State::OfferSent, State::Offered, State::Accepted, State::MwcLocking,
        State::MwcLocked, State::Locked, State::InitRedeem, State::Redeem, State::InitRedeemSent,
        State::RedeemReady, State::SellerWaitingForRefund, State::BuyerWaitingForRefund,
        State::Completed, State::Refunded, State::Cancelled,
    ] {
        assert_eq!(state_from_name(state_text(s)), Some(s));
    }
    assert_eq!(state_text(State::MwcLocking), "MwcLocking");
    assert_eq!(action_text(Action::SendMessage(UpdateKind::AcceptOffer)), "SendMessage(AcceptOffer)");
    assert_eq!(action_text(Action::Nothing), "None");
    assert_eq!(action_text(Action::PublishRefund), "PublishRefund");
    assert_eq!(state_from_name("locked"), None);
}

#[test]
fn swap_process_goes_by_file_unless_told() {
    assert_eq!(swap(&swap_args(SwapSubcommand::Process)), Ok(SwapRequest::Process(Transport::File)));
    for (method, transport) in [("mwcmqs", Transport::Mqs), ("tor", Transport::Tor), ("file", Transport::File), ("pigeon", Transport::File)] {
        let args = SwapArgs { method: Some(method.to_string()), ..swap_args(SwapSubcommand::Process) };
        assert_eq!(swap(&args), Ok(SwapRequest::Process(transport)));
    }
}

#[test]
fn autoswap_needs_method_and_destination() {
    assert_eq!(
        swap(&swap_args(SwapSubcommand::Autoswap)),
        argument_error("Please define '--method' parameter for autoswp")
    );
    let args = SwapArgs { method: Some("tor".to_string()), ..swap_args(SwapSubcommand::Autoswap) };
    assert_eq!(
        swap(&args),
        argument_error("Please define destination address (--dest) for automated swap")
    );
    let args = SwapArgs { destination: Some("x".to_string()), ..args };
    assert_eq!(swap(&args), Ok(SwapRequest::Autoswap(Transport::Tor)));
    let args = SwapArgs { method: Some("file".to_string()), ..args };
    assert_eq!(swap(&args), argument_error("Auto Swap doesn't support communication method file"));
}

#[test]
fn autoswap_setup_checks_destination_and_listener() {
    let idle = Running { mqs: false, foreign_api: false };
    let plan = autoswap_setup(Transport::Mqs, false, idle, false, false);
    assert_eq!(plan.end, None);
    assert_eq!(
        plan.steps,
        vec![
            Step {
                call: Call::ValidateDestination { listener: Listener::Mqs },
                failure: Failure::Argument(Context::InvalidDestination),
            },
            Step {
                call: Call::RequireListener { listener: Listener::Mqs },
                failure: Failure::Generic(Context::MqsNotRunning),
            },
        ]
    );
    let plan = autoswap_setup(Transport::Tor, true, idle, false, true);
    assert_eq!(plan.end, None);
    assert_eq!(
        plan.steps,
        vec![
            Step::plain(Call::StartListener { listener: Listener::Http, wait: false }),
            Step::plain(Call::Pause { millis: 2000 }),
            Step {
                call: Call::ValidateDestination { listener: Listener::Http },
                failure: Failure::Argument(Context::InvalidDestination),
            },
            Step {
                call: Call::RequireListener { listener: Listener::Http },
                failure: Failure::Generic(Context::TorNotRunning),
            },
        ]
    );
    assert_eq!(
        plan.steps[3].fail("", ""),
        CommandError::GenericError(
            "tor listener is not running. Please start it with 'listen' command or '--start_listener' argument".to_string()
        )
    );
    assert_eq!(
        plan.steps[2].fail("", "no onion"),
        CommandError::ArgumentError("Invalid destination address, no onion".to_string())
    );
}

#[test]
fn autoswap_setup_does_not_start_a_listener_twice() {
    let busy = Running { mqs: true, foreign_api: true };
    let plan = autoswap_setup(Transport::Mqs, true, busy, true, true);
    assert!(plan.steps.is_empty());
    assert_eq!(
        plan.end,
        Some(CommandError::GenericError(
            "mwcmqs listener is already running, there is no need to specify '--start_listener' parameter".to_string()
        ))
    );
    let plan = autoswap_setup(Transport::Tor, true, busy, true, true);
    assert_eq!(
        plan.end,
        Some(CommandError::GenericError(
            "tor or http listener is already running, there is no need to specify '--start_listener' parameter".to_string()
        ))
    );
    let idle = Running { mqs: false, foreign_api: false };
    let plan = autoswap_setup(Transport::Mqs, true, idle, false, true);
    assert_eq!(plan.end, Some(CommandError::MQSConfig("No MQS config found!".to_string())));
    let plan = autoswap_setup(Transport::Tor, true, idle, true, false);
    assert_eq!(
        plan.end,
        Some(CommandError::GenericError("Tor configuration is not defined".to_string()))
    );
    let plan = autoswap_setup(Transport::Mqs, true, idle, true, false);
    assert_eq!(plan.steps.len(), 4);
    assert_eq!(plan.steps[0].failure, Failure::LibWallet(Context::StartMqs));
}

#[test]
fn buyer_needs_a_refund_address_for_autoswap() {
    let seller = start(&start_args()).unwrap();
    assert_eq!(check_refund_address(&seller, &None, None), Ok(()));
    let buyer = swap_create_from_offer(offer_of(&seller), true).unwrap();
    assert_eq!(
        check_refund_address(&buyer, &None, btc_test()),
        Err(CommandError::GenericError(
            "Please define buyer_refund_address for automated swap".to_string()
        ))
    );
    let address = Some("tb1qexample".to_string());
    assert_eq!(check_refund_address(&buyer, &address, btc_test()), Ok(()));
    assert_eq!(
        check_refund_address(&buyer, &address, None),
        Err(CommandError::GenericError(
            "Unable to parse secondary currency redeem address tb1qexample".to_string()
        ))
    );
    let bch = Some(ParsedAddress { currency: Currency::Bch, network: Network::Floonet });
    assert!(check_refund_address(&buyer, &address, bch).is_err());
}

#[test]
fn delivery_by_file_writes_the_message() {
    let plan = delivery(Transport::File, true, false, false);
    assert_eq!(plan.end, None);
    assert_eq!(
        plan.steps,
        vec![Step { call: Call::WriteMessage, failure: Failure::Swap(Context::StoreMessage) }]
    );
    assert_eq!(
        plan.steps[0].fail("", "disk full"),
        CommandError::SwapError(
            "Unable to store message data to the destination file, disk full".to_string()
        )
    );
}

#[test]
fn delivery_online_starts_the_listener_first() {
    let plan = delivery(Transport::Mqs, true, true, false);
    assert_eq!(plan.end, None);
    assert_eq!(plan.steps.len(), 4);
    assert_eq!(plan.steps[0].call, Call::StartListener { listener: Listener::Mqs, wait: false });
    assert_eq!(plan.steps[1].call, Call::Pause { millis: 2000 });
    assert_eq!(plan.steps[2].call, Call::CreateSender);
    assert_eq!(
        plan.steps[2].fail("", "no route"),
        CommandError::SwapError("Unable to create message sender, no route".to_string())
    );
    assert_eq!(plan.steps[3].call, Call::SendMessage);
    assert_eq!(
        plan.steps[3].fail("", "timeout"),
        CommandError::SwapError("Unable to deliver the message, timeout".to_string())
    );
    let plan = delivery(Transport::Tor, true, false, true);
    assert_eq!(plan.steps[0], Step::plain(Call::StartListener { listener: Listener::Http, wait: false }));
}

#[test]
fn delivery_needs_destination_and_configuration() {
    let plan = delivery(Transport::File, false, true, true);
    assert!(plan.steps.is_empty());
    assert_eq!(
        plan.end,
        Some(CommandError::SwapError("Expected 'destination' argument is not found".to_string()))
    );
    let plan = delivery(Transport::Tor, true, true, false);
    assert_eq!(
        plan.end,
        Some(CommandError::GenericError("Tor configuration is not defined".to_string()))
    );
    let plan = delivery(Transport::Mqs, true, false, true);
    assert_eq!(plan.end, Some(CommandError::SwapError("No MQS config found!".to_string())));
}

#[test]
fn stop_is_confirmed_by_a_leading_y() {
    for yes in ["y", "Y", "yes", "Yes\n", "  yep", "\t\nYES", "\u{a0}y", "y n"] {
        assert!(confirms_stop(yes), "{:?}", yes);
    }
    for no in ["", "n", "No", " ", "ok y", "\u{fd}", "\u{ff39}", "0y"] {
        assert!(!confirms_stop(no), "{:?}", no);
    }
    for text in ["y", " Y", "N", "", "\u{2003}yes", "\u{200b}yes"] {
        assert_eq!(confirms_stop(text), text.trim().to_lowercase().starts_with("y"));
    }
}
