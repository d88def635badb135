use atomic_swap::error::{ErrorKind, Handling};
use atomic_swap::machine::{Action, Event, State, Terms, Tick, UpdateKind};
use atomic_swap::record::{Store, Trade};
use atomic_swap::types::{Currency, Network, Role, Uuid};

fn terms(role: Role) -> Terms {
    Terms {
        role,
        network: Network::Floonet,
        primary_amount: 1,
        secondary_amount: 1,
        secondary_currency: Currency::Bch,
        seller_lock_first: true,
        required_mwc_lock_confirmations: 1,
        required_secondary_lock_confirmations: 1,
        message_exchange_time_sec: 600,
        redeem_time_sec: 3600,
        start_time: 0,
    }
}

fn trade(n: u128) -> Trade {
    Trade::new(Uuid { value: n }, terms(Role::Seller))
}

fn tick(now: i64) -> Event {
    Event::Tick(Tick {
        now,
        mwc_lock: None,
        secondary_lock: None,
        mwc_redeem: None,
        secondary_redeem: None,
        mwc_refund: None,
        secondary_refund: None,
    })
}

#[test]
fn store_keeps_each_trade_once() {
    let mut s = Store::new();
    assert!(s.list().is_empty());
    assert_eq!(s.create(trade(1)), Ok(()));
    assert_eq!(s.create(trade(2)), Ok(()));
    assert_eq!(s.create(trade(1)), Err(ErrorKind::StateConflict));
    assert_eq!(s.list(), vec![Uuid { value: 1 }, Uuid { value: 2 }]);
    assert_eq!(s.load(Uuid { value: 2 }), Some(trade(2)));
    assert_eq!(s.load(Uuid { value: 3 }), None);
}

#[test]
fn created_record_starts_at_revision_zero() {
    let mut s = Store::new();
    let mut t = trade(1);
    t.revision = 17;
    s.create(t).unwrap();
    assert_eq!(s.load(Uuid { value: 1 }).unwrap().revision, 0);
}

#[test]
fn save_replaces_the_record_under_the_next_revision() {
    let mut s = Store::new();
    s.create(trade(1)).unwrap();
    s.create(trade(2)).unwrap();
    let mut t = s.load(Uuid { value: 1 }).unwrap();
    t.apply(&tick(1), true, 1).unwrap();
    assert_eq!(s.save(t.duplicate()), Ok(1));
    let stored = s.load(Uuid { value: 1 }).unwrap();
    assert_eq!(stored.revision, 1);
    assert_eq!(stored.progress.state, State::OfferSent);
    assert_eq!(stored.journal, t.journal);
    assert_eq!(s.load(Uuid { value: 2 }), Some(trade(2)));
    assert_eq!(s.list(), vec![Uuid { value: 1 }, Uuid { value: 2 }]);
}

#[test]
fn stale_write_is_a_conflict() {
    let mut s = Store::new();
    s.create(trade(1)).unwrap();
    let first = s.load(Uuid { value: 1 }).unwrap();
    let second = s.load(Uuid { value: 1 }).unwrap();
    assert_eq!(s.save(first), Ok(1));
    assert_eq!(s.save(second), Err(ErrorKind::StateConflict));
    assert_eq!(s.load(Uuid { value: 1 }).unwrap().revision, 1);
    assert_eq!(s.save(trade(5)), Err(ErrorKind::StateConflict));
    let fresh = s.load(Uuid { value: 1 }).unwrap();
    assert_eq!(s.save(fresh), Ok(2));
}

#[test]
fn delete_removes_the_record() {
    let mut s = Store::new();
    s.create(trade(1)).unwrap();
    s.create(trade(2)).unwrap();
    s.create(trade(3)).unwrap();
    assert!(s.delete(Uuid { value: 2 }));
    assert!(!s.delete(Uuid { value: 2 }));
    assert_eq!(s.list(), vec![Uuid { value: 1 }, Uuid { value: 3 }]);
    assert_eq!(s.load(Uuid { value: 2 }), None);
    assert_eq!(s.create(trade(2)), Ok(()));
}

#[test]
fn failures_are_handled_by_their_kind() {
    let text = || "x".to_string();
    assert_eq!(ErrorKind::TransportFailure(text()).handling(), Handling::Retry);
    assert_eq!(ErrorKind::ChainFailure(text()).handling(), Handling::Retry);
    assert_eq!(ErrorKind::StateConflict.handling(), Handling::Retry);
    assert_eq!(ErrorKind::InvalidArgument(text()).handling(), Handling::Surface);
    assert_eq!(ErrorKind::UnexpectedMessageType(text()).handling(), Handling::Surface);
    assert_eq!(ErrorKind::UnexpectedCoinType.handling(), Handling::Surface);
    assert_eq!(ErrorKind::InvalidAdjust.handling(), Handling::Surface);
    assert_eq!(ErrorKind::CryptoFailure(text()).handling(), Handling::Branch);
    assert_eq!(ErrorKind::Timeout.handling(), Handling::Branch);
    assert_eq!(ErrorKind::Fatal(text()).handling(), Handling::Freeze);
    assert!(ErrorKind::Timeout.advances_state());
    assert!(!ErrorKind::ChainFailure(text()).advances_state());
    assert!(!ErrorKind::Fatal(text()).advances_state());
}

#[test]
fn advance_takes_the_stored_record_one_event_on() {
    let mut s = Store::new();
    s.create(trade(1)).unwrap();
    s.create(trade(2)).unwrap();
    let o = s.advance(Uuid { value: 2 }, &tick(1), true, 1).unwrap();
    assert_eq!(o.action, Action::SendMessage(UpdateKind::Offer));
    let stored = s.load(Uuid { value: 2 }).unwrap();
    assert_eq!(stored.progress.state, State::OfferSent);
    assert_eq!(stored.revision, 1);
    assert_eq!(stored.journal.len(), 1);
    assert_eq!(s.load(Uuid { value: 1 }), Some(trade(1)));
    // Without the acknowledgement the state stays, the revision goes on.
    let o = s.advance(Uuid { value: 1 }, &tick(1), false, 1).unwrap();
    assert_eq!(o.progress.state, State::OfferSent);
    let stored = s.load(Uuid { value: 1 }).unwrap();
    assert_eq!(stored.progress.state, State::Created);
    assert_eq!(stored.revision, 1);
}

#[test]
fn advance_reports_refusals_and_leaves_the_store() {
    let mut s = Store::new();
    s.create(trade(1)).unwrap();
    let r = s.advance(Uuid { value: 1 }, &Event::UserAdjust(State::Completed), true, 1);
    assert_eq!(r, Err(ErrorKind::InvalidAdjust));
    assert_eq!(s.load(Uuid { value: 1 }), Some(trade(1)));
    let r = s.advance(Uuid { value: 7 }, &tick(1), true, 1);
    assert_eq!(r, Err(ErrorKind::InvalidArgument("There is no trade of this id".to_string())));
    let o = s.advance(Uuid { value: 1 }, &Event::UserAdjust(State::Cancelled), true, 5).unwrap();
    assert_eq!(o.progress.state, State::Cancelled);
    assert_eq!(s.load(Uuid { value: 1 }).unwrap().journal[0].time, 5);
}

#[test]
fn failures_are_described_by_kind_and_sentence() {
    assert_eq!(ErrorKind::Timeout.describe(), "Timeout");
    assert_eq!(ErrorKind::MultisigIncomplete.describe(), "MultisigIncomplete");
    assert_eq!(
        ErrorKind::ChainFailure("node is down".to_string()).describe(),
        "ChainFailure: node is down"
    );
    assert_eq!(ErrorKind::Serde(String::new()).describe(), "Serde");
    assert_eq!(ErrorKind::InvalidAdjust.kind(), "InvalidAdjust");
}
