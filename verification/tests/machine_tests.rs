use atomic_swap::error::ErrorKind;
use atomic_swap::json::Json;
use atomic_swap::message::{
    AcceptOfferUpdate, BtcOfferUpdate, BtcUpdate, Message, MultisigParticipant, SecondaryUpdate,
    TxParticipant, Update,
};
use atomic_swap::machine::{
    confirmations, fallback, may_adjust, observe, step, Action, Event, Funding, Incoming, Progress, Reject, Seen,
    State, Terms, Tick, Txid, UpdateKind,
};
use atomic_swap::record::{is_due, StepTag, Trade};
use atomic_swap::types::{Currency, Network, PublicKey, Role, Uuid};

const START: i64 = 1_600_000_000;

fn terms(role: Role) -> Terms {
    Terms {
        role,
        network: Network::Floonet,
        primary_amount: 1_000_000_000,
        secondary_amount: 10_000,
        secondary_currency: Currency::Btc,
        seller_lock_first: true,
        required_mwc_lock_confirmations: 1,
        required_secondary_lock_confirmations: 1,
        message_exchange_time_sec: 600,
        redeem_time_sec: 3600,
        start_time: START,
    }
}

fn quiet(now: i64) -> Tick {
    Tick {
        now,
        mwc_lock: None,
        secondary_lock: None,
        mwc_redeem: None,
        secondary_redeem: None,
        mwc_refund: None,
        secondary_refund: None,
    }
}

fn txid(n: u128) -> Txid {
    Txid { high: 0, low: n }
}

fn seen(n: u128, confirmations: u64) -> Option<Seen> {
    Some(Seen { txid: txid(n), confirmations })
}

fn funded(n: u128, value: u64, confirmations: u64) -> Option<Funding> {
    Some(Funding { txid: txid(n), value, confirmations })
}

fn both_locked(now: i64) -> Tick {
    Tick { mwc_lock: seen(1, 1), secondary_lock: funded(2, 10_000, 1), ..quiet(now) }
}

fn message(update: UpdateKind, secondary: Option<Currency>, verified: bool) -> Event {
    Event::MessageReceived(Incoming { update, secondary, verified })
}

fn trade(role: Role) -> Trade {
    Trade::new(Uuid { value: 7 }, terms(role))
}

/// Applies an event whose action, if any, is carried out at once.
fn run(t: &mut Trade, event: Event, now: i64) -> Action {
    t.apply(&event, true, now).unwrap().action
}

fn seller_up_to_locked() -> Trade {
    let mut t = trade(Role::Seller);
    assert_eq!(run(&mut t, Event::Tick(quiet(START + 1)), START + 1), Action::SendMessage(UpdateKind::Offer));
    assert_eq!(t.progress.state, State::OfferSent);
    assert_eq!(run(&mut t, Event::Tick(quiet(START + 2)), START + 2), Action::Wait);
    assert_eq!(
        run(&mut t, message(UpdateKind::AcceptOffer, Some(Currency::Btc), true), START + 3),
        Action::Nothing
    );
    assert_eq!(t.progress.state, State::Accepted);
    assert_eq!(run(&mut t, Event::Tick(quiet(START + 4)), START + 4), Action::BroadcastPrimary);
    assert_eq!(t.progress.state, State::MwcLocking);
    let half = Tick { mwc_lock: seen(1, 1), ..quiet(START + 5) };
    assert_eq!(run(&mut t, Event::Tick(half), START + 5), Action::Wait);
    assert_eq!(t.progress.state, State::MwcLocking);
    assert_eq!(run(&mut t, Event::Tick(both_locked(START + 6)), START + 6), Action::Nothing);
    assert_eq!(t.progress.state, State::Locked);
    t
}

#[test]
fn happy_path_seller() {
    let mut t = seller_up_to_locked();
    assert_eq!(run(&mut t, message(UpdateKind::InitRedeem, None, true), START + 7), Action::Nothing);
    assert_eq!(t.progress.state, State::InitRedeem);
    assert_eq!(
        run(&mut t, Event::Tick(both_locked(START + 8)), START + 8),
        Action::SendMessage(UpdateKind::Redeem)
    );
    assert_eq!(t.progress.state, State::Redeem);
    assert_eq!(run(&mut t, Event::Tick(both_locked(START + 9)), START + 9), Action::Wait);
    let redeemed = Tick { mwc_redeem: seen(3, 0), ..both_locked(START + 10) };
    assert_eq!(run(&mut t, Event::Tick(redeemed), START + 10), Action::PublishRedeem);
    assert_eq!(t.progress.state, State::Redeem);
    let settled = Tick { mwc_redeem: seen(3, 1), secondary_redeem: seen(4, 0), ..both_locked(START + 11) };
    assert_eq!(run(&mut t, Event::Tick(settled), START + 11), Action::Nothing);
    assert_eq!(t.progress.state, State::Completed);
    assert_eq!(t.progress.secondary_redeem_txid, Some(txid(4)));
    assert_eq!(t.progress.mwc_redeem_txid, Some(txid(3)));
    assert_eq!(t.progress.mwc_refund_txid, None);
    assert_eq!(t.journal.len(), 8);
    assert_eq!(t.id, Uuid { value: 7 });
    assert_eq!(t.terms, terms(Role::Seller));
}

#[test]
fn happy_path_buyer() {
    let mut t = trade(Role::Buyer);
    assert_eq!(t.progress.state, State::Offered);
    assert_eq!(
        run(&mut t, Event::Tick(quiet(START + 1)), START + 1),
        Action::SendMessage(UpdateKind::AcceptOffer)
    );
    assert_eq!(t.progress.state, State::Accepted);
    assert_eq!(run(&mut t, Event::Tick(quiet(START + 2)), START + 2), Action::Wait);
    let mwc = Tick { mwc_lock: seen(1, 1), ..quiet(START + 3) };
    assert_eq!(run(&mut t, Event::Tick(mwc), START + 3), Action::BroadcastSecondary);
    assert_eq!(t.progress.state, State::MwcLocked);
    assert_eq!(run(&mut t, Event::Tick(both_locked(START + 4)), START + 4), Action::Nothing);
    assert_eq!(t.progress.state, State::Locked);
    assert_eq!(
        run(&mut t, Event::Tick(both_locked(START + 5)), START + 5),
        Action::SendMessage(UpdateKind::InitRedeem)
    );
    assert_eq!(t.progress.state, State::InitRedeemSent);
    assert_eq!(run(&mut t, message(UpdateKind::Redeem, None, true), START + 6), Action::Nothing);
    assert_eq!(t.progress.state, State::RedeemReady);
    assert_eq!(run(&mut t, Event::Tick(both_locked(START + 7)), START + 7), Action::PublishRedeem);
    assert!(t.progress.redeem_published);
    assert_eq!(run(&mut t, Event::Tick(both_locked(START + 8)), START + 8), Action::Wait);
    let redeemed = Tick { mwc_redeem: seen(3, 1), ..both_locked(START + 9) };
    assert_eq!(run(&mut t, Event::Tick(redeemed), START + 9), Action::Nothing);
    assert_eq!(t.progress.state, State::Completed);
    assert_eq!(t.progress.mwc_redeem_txid, Some(txid(3)));
}

#[test]
fn counterparty_disappears_after_lock() {
    let mut t = trade(Role::Seller);
    run(&mut t, Event::Tick(quiet(START + 1)), START + 1);
    run(&mut t, message(UpdateKind::AcceptOffer, Some(Currency::Btc), true), START + 2);
    assert_eq!(run(&mut t, Event::Tick(quiet(START + 3)), START + 3), Action::BroadcastPrimary);
    let locked = Tick { mwc_lock: seen(1, 3), ..quiet(START + 1000) };
    assert_eq!(run(&mut t, Event::Tick(locked), START + 1000), Action::Wait);
    // The lock deadline is START + 1800.
    let late = Tick { mwc_lock: seen(1, 9), ..quiet(START + 1801) };
    assert_eq!(run(&mut t, Event::Tick(late), START + 1801), Action::Nothing);
    assert_eq!(t.progress.state, State::SellerWaitingForRefund);
    // The refund opens after START + 1800 + 3600 + 3600 + 1.
    let lock_time = START + 9001;
    assert_eq!(terms(Role::Seller).mwc_lock_time(), lock_time as i128);
    assert_eq!(run(&mut t, Event::Tick(quiet(lock_time)), lock_time), Action::Wait);
    assert_eq!(run(&mut t, Event::Tick(quiet(lock_time + 1)), lock_time + 1), Action::PublishRefund);
    assert_eq!(t.progress.state, State::SellerWaitingForRefund);
    let unconfirmed = Tick { mwc_refund: seen(5, 0), ..quiet(lock_time + 2) };
    assert_eq!(run(&mut t, Event::Tick(unconfirmed), lock_time + 2), Action::PublishRefund);
    assert_eq!(t.progress.state, State::SellerWaitingForRefund);
    let confirmed = Tick { mwc_refund: seen(5, 1), ..quiet(lock_time + 3) };
    assert_eq!(run(&mut t, Event::Tick(confirmed), lock_time + 3), Action::Nothing);
    assert_eq!(t.progress.state, State::Refunded);
    assert_eq!(t.progress.mwc_refund_txid, Some(txid(5)));
    assert_eq!(t.progress.mwc_confirmations, 9);
}

#[test]
fn adaptor_signature_tampering() {
    let mut t = seller_up_to_locked();
    let outcome = t.apply(&message(UpdateKind::InitRedeem, None, false), true, START + 7).unwrap();
    assert_eq!(outcome.action, Action::Nothing);
    assert_eq!(t.progress.state, State::SellerWaitingForRefund);
    // The redeem message is never asked for.
    let mut now = START + 8;
    let mut asked = Vec::new();
    while now < START + 9002 {
        asked.push(run(&mut t, Event::Tick(both_locked(now)), now));
        now += 997;
    }
    assert!(asked.iter().all(|a| *a == Action::Wait));
    assert_eq!(run(&mut t, Event::Tick(both_locked(START + 9002)), START + 9002), Action::PublishRefund);
    let confirmed = Tick { mwc_refund: seen(5, 2), ..both_locked(START + 9100) };
    run(&mut t, Event::Tick(confirmed), START + 9100);
    assert_eq!(t.progress.state, State::Refunded);
    assert_eq!(t.progress.mwc_refund_txid, Some(txid(5)));
}

#[test]
fn message_replay() {
    let mut t = trade(Role::Seller);
    run(&mut t, Event::Tick(quiet(START + 1)), START + 1);
    let accept = message(UpdateKind::AcceptOffer, Some(Currency::Btc), true);
    t.apply(&accept, false, START + 2).unwrap();
    let after_first = t.duplicate();
    assert_eq!(after_first.progress.state, State::Accepted);
    let second = t.apply(&accept, false, START + 3);
    assert!(matches!(second, Err(ErrorKind::UnexpectedMessageType(_))));
    assert_eq!(t, after_first);
    // The lock is asked for once only: the action is due in `Accepted` alone.
    let tag = StepTag { id: t.id, from: State::Accepted };
    assert!(is_due(&t, tag));
    assert_eq!(run(&mut t, Event::Tick(quiet(START + 4)), START + 4), Action::BroadcastPrimary);
    assert!(!is_due(&t, tag));
    assert_eq!(run(&mut t, Event::Tick(quiet(START + 5)), START + 5), Action::Wait);
}

#[test]
fn wrong_secondary_currency() {
    let mut t = trade(Role::Seller);
    run(&mut t, Event::Tick(quiet(START + 1)), START + 1);
    let before = t.duplicate();
    let r = t.apply(&message(UpdateKind::AcceptOffer, Some(Currency::Bch), true), true, START + 2);
    assert_eq!(r, Err(ErrorKind::UnexpectedCoinType));
    assert_eq!(t, before);
    assert_eq!(t.progress.state, State::OfferSent);
    let r = t.apply(&message(UpdateKind::AcceptOffer, None, true), true, START + 2);
    assert_eq!(r, Err(ErrorKind::UnexpectedCoinType));
    // Nothing is locked: the offer runs out and the trade is cancelled.
    assert_eq!(run(&mut t, Event::Tick(quiet(START + 1201)), START + 1201), Action::Nothing);
    assert_eq!(t.progress.state, State::Cancelled);
    assert_eq!(t.progress.mwc_lock_txid, None);
}

#[test]
fn unexpected_message_changes_nothing() {
    let t = terms(Role::Seller);
    let p = Progress::begin(State::Created);
    for kind in [
        UpdateKind::Nothing,
        UpdateKind::Offer,
        UpdateKind::AcceptOffer,
        UpdateKind::InitRedeem,
        UpdateKind::Redeem,
    ] {
        assert_eq!(
            step(&t, &p, &message(kind, None, true)),
            Err(Reject::UnexpectedMessageType)
        );
    }
    let locked = Progress { state: State::Locked, ..p };
    assert_eq!(
        step(&terms(Role::Buyer), &locked, &message(UpdateKind::InitRedeem, None, true)),
        Err(Reject::UnexpectedMessageType)
    );
    assert_eq!(
        step(&t, &locked, &message(UpdateKind::InitRedeem, Some(Currency::Btc), true)),
        Err(Reject::UnexpectedCoinType)
    );
}

#[test]
fn deadlines_follow_the_schedule() {
    let t = terms(Role::Seller);
    assert_eq!(t.offer_deadline(), (START + 600) as i128);
    assert_eq!(t.accept_deadline(), (START + 1200) as i128);
    assert_eq!(t.lock_deadline(), (START + 1800) as i128);
    assert_eq!(t.redeem_deadline(), (START + 5400) as i128);
    assert_eq!(t.secondary_lock_expiry(), (START + 5400) as i128);
    assert_eq!(t.mwc_lock_time(), (START + 9001) as i128);
    assert_eq!(t.lock_interval(), 9001);
    assert_eq!(t.deadline(State::Created), Some((START + 600) as i128));
    assert_eq!(t.deadline(State::Offered), Some((START + 1200) as i128));
    assert_eq!(t.deadline(State::MwcLocked), Some((START + 1800) as i128));
    assert_eq!(t.deadline(State::RedeemReady), Some((START + 5400) as i128));
    assert_eq!(t.deadline(State::SellerWaitingForRefund), Some((START + 9001) as i128));
    assert_eq!(t.deadline(State::BuyerWaitingForRefund), Some((START + 5400) as i128));
    assert_eq!(t.deadline(State::Completed), None);
}

#[test]
fn deadlines_do_not_overflow() {
    let t = Terms {
        message_exchange_time_sec: u64::MAX,
        redeem_time_sec: u64::MAX,
        start_time: i64::MAX,
        ..terms(Role::Seller)
    };
    assert_eq!(
        t.mwc_lock_time(),
        i64::MAX as i128 + 5 * (u64::MAX as i128) + 1
    );
    assert!(!t.is_well_formed());
}

#[test]
fn deadline_is_passed_only_after_it() {
    let t = terms(Role::Seller);
    let p = Progress::begin(State::OfferSent);
    let on_time = step(&t, &p, &Event::Tick(quiet(START + 1200))).unwrap();
    assert_eq!((on_time.progress.state, on_time.action), (State::OfferSent, Action::Wait));
    let late = step(&t, &p, &Event::Tick(quiet(START + 1201))).unwrap();
    assert_eq!((late.progress.state, late.action), (State::Cancelled, Action::Nothing));
    assert_eq!(late.deadline, None);
}

#[test]
fn message_that_completes_the_step_wins_over_the_deadline() {
    let mut t = trade(Role::Seller);
    run(&mut t, Event::Tick(quiet(START + 1)), START + 1);
    // The acceptance arrives after the deadline, before any tick has seen it pass.
    run(&mut t, message(UpdateKind::AcceptOffer, Some(Currency::Btc), true), START + 5000);
    assert_eq!(t.progress.state, State::Accepted);
}

#[test]
fn armed_refund_is_not_disarmed_by_a_late_message() {
    let t = terms(Role::Seller);
    let p = Progress { state: State::SellerWaitingForRefund, ..Progress::begin(State::Created) };
    assert_eq!(
        step(&t, &p, &message(UpdateKind::InitRedeem, None, true)),
        Err(Reject::UnexpectedMessageType)
    );
    let b = terms(Role::Buyer);
    let p = Progress { state: State::BuyerWaitingForRefund, ..p };
    assert_eq!(
        step(&b, &p, &message(UpdateKind::Redeem, None, true)),
        Err(Reject::UnexpectedMessageType)
    );
}

#[test]
fn confirmations_on_record_never_go_down() {
    let p = Progress { mwc_confirmations: 5, secondary_confirmations: 2, ..Progress::begin(State::MwcLocking) };
    let reorg = Tick { mwc_lock: seen(1, 2), secondary_lock: funded(2, 10_000, 3), ..quiet(START) };
    let after = observe(p, reorg);
    assert_eq!(after.mwc_confirmations, 5);
    assert_eq!(after.secondary_confirmations, 3);
    assert_eq!(after.mwc_lock_txid, Some(txid(1)));
    assert_eq!(after.secondary_lock_txid, Some(txid(2)));
    assert_eq!(observe(after, quiet(START)), after);
}

#[test]
fn reorg_below_the_required_confirmations_does_not_lock() {
    let t = Terms { required_mwc_lock_confirmations: 6, ..terms(Role::Seller) };
    let p = Progress { mwc_confirmations: 6, ..Progress::begin(State::MwcLocking) };
    let reorg = Tick { mwc_lock: seen(1, 2), secondary_lock: funded(2, 10_000, 1), ..quiet(START + 1) };
    let o = step(&t, &p, &Event::Tick(reorg)).unwrap();
    assert_eq!(o.progress.state, State::MwcLocking);
    assert_eq!(o.progress.mwc_confirmations, 6);
}

#[test]
fn underfunded_lock_does_not_count() {
    let t = terms(Role::Seller);
    let p = Progress::begin(State::MwcLocking);
    let short = Tick { mwc_lock: seen(1, 1), secondary_lock: funded(2, 9_999, 10), ..quiet(START + 1) };
    assert_eq!(step(&t, &p, &Event::Tick(short)).unwrap().progress.state, State::MwcLocking);
    assert!(!t.secondary_locked(short));
    assert!(t.mwc_locked(short));
}

#[test]
fn buyer_locks_first_where_the_seller_does_not() {
    let s = Terms { seller_lock_first: false, ..terms(Role::Seller) };
    let p = Progress::begin(State::Accepted);
    let o = step(&s, &p, &Event::Tick(quiet(START + 1))).unwrap();
    assert_eq!((o.progress.state, o.action), (State::Accepted, Action::Wait));
    let funded_tick = Tick { secondary_lock: funded(2, 10_000, 1), ..quiet(START + 2) };
    let o = step(&s, &p, &Event::Tick(funded_tick)).unwrap();
    assert_eq!((o.progress.state, o.action), (State::MwcLocking, Action::BroadcastPrimary));
    let b = Terms { seller_lock_first: false, ..terms(Role::Buyer) };
    let o = step(&b, &p, &Event::Tick(quiet(START + 1))).unwrap();
    assert_eq!((o.progress.state, o.action), (State::MwcLocked, Action::BroadcastSecondary));
}

#[test]
fn buyer_does_not_refund_once_the_redeem_is_out() {
    let b = terms(Role::Buyer);
    let p = Progress { state: State::RedeemReady, redeem_published: true, ..Progress::begin(State::Offered) };
    let late = step(&b, &p, &Event::Tick(quiet(START + 100_000))).unwrap();
    assert_eq!((late.progress.state, late.action), (State::RedeemReady, Action::Wait));
    let refunded_by_seller = Tick { mwc_refund: seen(9, 1), ..quiet(START + 100_000) };
    let o = step(&b, &p, &Event::Tick(refunded_by_seller)).unwrap();
    assert_eq!(o.progress.state, State::BuyerWaitingForRefund);
    assert_eq!(step(&b, &p, &Event::UserAdjust(State::BuyerWaitingForRefund)), Err(Reject::InvalidAdjust));
}

#[test]
fn seller_redeems_even_while_waiting_for_the_refund() {
    let s = terms(Role::Seller);
    let p = Progress { state: State::SellerWaitingForRefund, ..Progress::begin(State::Created) };
    let redeemed = Tick { mwc_redeem: seen(3, 1), ..quiet(START + 100_000) };
    let o = step(&s, &p, &Event::Tick(redeemed)).unwrap();
    assert_eq!((o.progress.state, o.action), (State::SellerWaitingForRefund, Action::PublishRedeem));
    assert!(o.progress.redeem_published);
}

#[test]
fn adjust_goes_to_the_fallback_only() {
    let s = terms(Role::Seller);
    let p = Progress::begin(State::Locked);
    let o = step(&s, &p, &Event::UserAdjust(State::SellerWaitingForRefund)).unwrap();
    assert_eq!((o.progress.state, o.action), (State::SellerWaitingForRefund, Action::Nothing));
    assert_eq!(o.deadline, Some((START + 9001) as i128));
    for target in [State::Completed, State::Cancelled, State::Redeem, State::BuyerWaitingForRefund, State::Locked] {
        assert_eq!(step(&s, &p, &Event::UserAdjust(target)), Err(Reject::InvalidAdjust));
    }
    let created = Progress::begin(State::Created);
    assert!(may_adjust(s, created, State::Cancelled));
    assert!(!may_adjust(s, created, State::SellerWaitingForRefund));
    for ended in [State::Completed, State::Refunded, State::Cancelled, State::SellerWaitingForRefund] {
        let p = Progress::begin(ended);
        for target in [State::Cancelled, State::Refunded, State::SellerWaitingForRefund] {
            assert!(!may_adjust(s, p, target));
        }
    }
    assert_eq!(fallback(State::Locked, Role::Buyer), Some(State::BuyerWaitingForRefund));
    assert_eq!(fallback(State::Refunded, Role::Buyer), None);
}

#[test]
fn adjust_target_is_reached_by_a_late_tick_too() {
    let s = terms(Role::Seller);
    for state in [State::Created, State::OfferSent, State::Accepted, State::MwcLocking, State::Locked, State::InitRedeem, State::Redeem] {
        let p = Progress::begin(state);
        let target = fallback(state, Role::Seller).unwrap();
        assert!(may_adjust(s, p, target));
        let o = step(&s, &p, &Event::Tick(quiet(i64::MAX))).unwrap();
        assert_eq!(o.progress.state, target);
    }
}

#[test]
fn terminal_states_are_kept() {
    let s = terms(Role::Seller);
    for state in [State::Completed, State::Refunded, State::Cancelled] {
        assert!(state.is_final_state());
        let p = Progress::begin(state);
        let busy = Tick { mwc_redeem: seen(1, 1), mwc_refund: seen(2, 1), secondary_redeem: seen(3, 1), ..both_locked(i64::MAX) };
        let o = step(&s, &p, &Event::Tick(busy)).unwrap();
        assert_eq!((o.progress.state, o.action, o.deadline), (state, Action::Nothing, None));
    }
    assert!(!State::Locked.is_final_state());
    assert!(State::SellerWaitingForRefund.is_armed());
    assert!(State::BuyerWaitingForRefund.is_armed());
    assert!(!State::Refunded.is_armed());
}

#[test]
fn no_state_rests_after_the_last_deadline() {
    let after = START + 9002;
    for (role, states) in [
        (Role::Seller, vec![State::Created, State::OfferSent, State::Accepted, State::MwcLocking, State::Locked, State::InitRedeem, State::Redeem, State::SellerWaitingForRefund]),
        (Role::Buyer, vec![State::Offered, State::Accepted, State::MwcLocked, State::Locked, State::InitRedeemSent, State::RedeemReady, State::BuyerWaitingForRefund]),
    ] {
        for state in states {
            let p = Progress::begin(state);
            let o = step(&terms(role), &p, &Event::Tick(quiet(after))).unwrap();
            assert!(o.progress.state != state || o.action.can_execute(), "{:?} rests", state);
        }
    }
}

#[test]
fn states_belong_to_their_role() {
    assert!(State::Created.belongs_to(Role::Seller));
    assert!(!State::Created.belongs_to(Role::Buyer));
    assert!(State::RedeemReady.belongs_to(Role::Buyer));
    assert!(!State::RedeemReady.belongs_to(Role::Seller));
    assert!(State::Locked.belongs_to(Role::Seller) && State::Locked.belongs_to(Role::Buyer));
    assert!(State::Accepted.is_pre_lock());
    assert!(!State::MwcLocking.is_pre_lock());
}

#[test]
fn action_without_acknowledgement_does_not_advance_the_record() {
    let mut t = trade(Role::Seller);
    let o = t.apply(&Event::Tick(quiet(START + 1)), false, START + 1).unwrap();
    assert_eq!(o.action, Action::SendMessage(UpdateKind::Offer));
    assert_eq!(o.progress.state, State::OfferSent);
    assert_eq!(t.progress.state, State::Created);
    assert!(t.journal.is_empty());
    let o = t.apply(&Event::Tick(quiet(START + 2)), true, START + 2).unwrap();
    assert_eq!(o.action, Action::SendMessage(UpdateKind::Offer));
    assert_eq!(t.progress.state, State::OfferSent);
    assert_eq!(t.journal.len(), 1);
    assert_eq!(t.journal[0].time, START + 2);
    assert_eq!(t.journal[0].state, State::OfferSent);
    assert_eq!(t.journal[0].message(), "OfferSent after SendMessage(Offer)");
    assert_eq!(t.preview(&Event::Tick(quiet(START + 3))).unwrap().action, Action::Wait);
    assert_eq!(t.journal.len(), 1);
}

#[test]
fn sent_message_is_remembered_by_its_hash() {
    let mut t = trade(Role::Seller);
    assert!(!t.already_sent(42));
    t.mark_sent(42);
    assert!(t.already_sent(42));
    assert!(!t.already_sent(43));
    assert!(t.is_seller());
    assert!(!trade(Role::Buyer).is_seller());
}

#[test]
fn confirmations_count_the_blocks_up_to_the_tip() {
    assert_eq!(confirmations(100, None), 0);
    assert_eq!(confirmations(100, Some(100)), 1);
    assert_eq!(confirmations(100, Some(91)), 10);
    assert_eq!(confirmations(100, Some(101)), 0);
    assert_eq!(confirmations(u64::MAX, Some(0)), u64::MAX);
    assert_eq!(confirmations(u64::MAX, Some(1)), u64::MAX);
    assert_eq!(confirmations(0, Some(0)), 1);
}

fn acceptance(id: u128) -> Message {
    Message::accept_offer(
        Uuid { value: id },
        AcceptOfferUpdate {
            multisig: MultisigParticipant { body: Json::Null },
            redeem_public: PublicKey { bytes: vec![3; 33] },
            lock_participant: TxParticipant { body: Json::Null },
            refund_participant: TxParticipant { body: Json::Null },
        },
        PublicKey { bytes: vec![2; 33] },
    )
}

#[test]
fn received_message_advances_its_trade() {
    let mut t = trade(Role::Seller);
    run(&mut t, Event::Tick(quiet(START + 1)), START + 1);
    let o = t.receive(&acceptance(7), Currency::Btc, true, START + 2).unwrap();
    assert_eq!(o.progress.state, State::Accepted);
    assert_eq!(t.progress.state, State::Accepted);
    assert_eq!(t.journal.len(), 2);
    assert_eq!(t.journal[1].message(), "Accepted");
}

#[test]
fn message_for_another_trade_is_refused() {
    let mut t = trade(Role::Seller);
    run(&mut t, Event::Tick(quiet(START + 1)), START + 1);
    let before = t.duplicate();
    assert_eq!(
        t.receive(&acceptance(8), Currency::Btc, true, START + 2),
        Err(ErrorKind::InvalidArgument("The message is for another trade".to_string()))
    );
    assert_eq!(t, before);
}

#[test]
fn message_with_script_parameters_of_another_coin_is_refused() {
    let mut t = trade(Role::Seller);
    run(&mut t, Event::Tick(quiet(START + 1)), START + 1);
    let before = t.duplicate();
    assert_eq!(
        t.receive(&acceptance(7), Currency::Bch, true, START + 2),
        Err(ErrorKind::UnexpectedCoinType)
    );
    assert_eq!(t, before);
    assert_eq!(t.progress.mwc_lock_txid, None);
}

#[test]
fn message_whose_parts_do_not_go_together_is_refused() {
    let mut t = trade(Role::Seller);
    run(&mut t, Event::Tick(quiet(START + 1)), START + 1);
    let before = t.duplicate();
    let mut m = acceptance(7);
    m.set_inner_secondary(SecondaryUpdate::BTC(BtcUpdate::Offer(BtcOfferUpdate {
        cosign: PublicKey { bytes: vec![2; 33] },
    })));
    assert_eq!(t.receive(&m, Currency::Btc, true, START + 2), Err(ErrorKind::UnexpectedCoinType));
    assert_eq!(t, before);
    let empty = Message::new(Uuid { value: 7 }, Update::Nothing, SecondaryUpdate::Empty);
    assert!(matches!(
        t.receive(&empty, Currency::Btc, true, START + 2),
        Err(ErrorKind::UnexpectedMessageType(_))
    ));
    assert_eq!(t, before);
}

#[test]
fn every_trade_ends_within_five_ticks_after_the_last_deadline() {
    let after = START + 9002;
    for (role, states) in [
        (Role::Seller, vec![State::Created, State::OfferSent, State::Accepted, State::MwcLocking, State::Locked, State::InitRedeem, State::Redeem, State::SellerWaitingForRefund]),
        (Role::Buyer, vec![State::Offered, State::Accepted, State::MwcLocked, State::Locked, State::InitRedeemSent, State::RedeemReady, State::BuyerWaitingForRefund]),
    ] {
        for state in states {
            for locks_show in [false, true] {
                let t = terms(role);
                let mut p = Progress::begin(state);
                let mut last = Action::Nothing;
                let mut ticks = 0;
                while !p.state.is_final_state() {
                    // The chains are reachable: what this side posted shows.
                    let mut tick = if locks_show { both_locked(after) } else { quiet(after) };
                    if last == Action::PublishRefund {
                        tick.mwc_refund = seen(5, 1);
                        tick.secondary_refund = seen(6, 1);
                    }
                    if p.redeem_published {
                        tick.mwc_redeem = seen(3, 1);
                        tick.secondary_redeem = seen(4, 1);
                    }
                    let o = step(&t, &p, &Event::Tick(tick)).unwrap();
                    p = o.progress;
                    last = o.action;
                    ticks += 1;
                    assert!(ticks <= 5, "{:?} does not end", state);
                }
            }
        }
    }
}
