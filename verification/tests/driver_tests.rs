use atomic_swap::autoswap::{drive, Driver, Input, Line, Next, Phase, Processed, Status};
use atomic_swap::machine::{Action, State, UpdateKind};

fn status(state: State, action: Action, journal_len: usize) -> Status {
    Status { state, action, journal_len }
}

fn started() -> Driver {
    Driver::start(status(State::Created, Action::SendMessage(UpdateKind::Offer), 0))
}

/// Sleeps until the driver asks for something else; returns the seconds slept.
fn sleep_through(mut d: Driver) -> (Driver, u32) {
    let mut seconds = 0;
    loop {
        let t = drive(d, Input::Slept { stop: false });
        seconds += 1;
        d = t.driver;
        assert_eq!(t.line, Line::Silent);
        if t.next != Next::Sleep {
            assert_eq!(t.next, Next::Look);
            return (d, seconds);
        }
    }
}

#[test]
fn driver_begins_by_looking() {
    let d = started();
    assert_eq!(d.phase, Phase::Looking);
    assert_eq!(d.state, State::Created);
    assert_eq!(d.journal_len, 0);
}

#[test]
fn executable_action_is_carried_out_and_reported() {
    let d = started();
    let seen = status(State::Created, Action::SendMessage(UpdateKind::Offer), 0);
    let t = drive(d, Input::Looked(Some(seen)));
    assert_eq!(t.next, Next::Act);
    assert_eq!(t.line, Line::Silent);
    assert_eq!(t.driver.phase, Phase::Acting(seen));
    let done = Processed { next_state: State::OfferSent, action: Some(Action::Wait), journal_len: 2 };
    let t = drive(t.driver, Input::Acted(Some(done)));
    assert_eq!(t.next, Next::Sleep);
    assert_eq!((t.journal_from, t.journal_to), (0, 2));
    assert_eq!(t.line, Line::Doing(Action::Wait));
    assert_eq!(t.driver.phase, Phase::Sleeping(10));
    assert_eq!(t.driver.state, State::OfferSent);
    assert_eq!(t.driver.journal_len, 2);
    let (d, seconds) = sleep_through(t.driver);
    assert_eq!(seconds, 10);
    assert_eq!(d.phase, Phase::Looking);
}

#[test]
fn idle_look_sleeps_a_minute() {
    let d = Driver::start(status(State::OfferSent, Action::Wait, 1));
    let t = drive(d, Input::Looked(Some(status(State::OfferSent, Action::Wait, 1))));
    assert_eq!(t.next, Next::Sleep);
    assert_eq!(t.line, Line::Silent);
    assert_eq!((t.journal_from, t.journal_to), (1, 1));
    assert_eq!(t.driver.phase, Phase::Sleeping(60));
    let (_, seconds) = sleep_through(t.driver);
    assert_eq!(seconds, 60);
}

#[test]
fn new_state_without_action_is_reported_by_its_name() {
    let d = Driver::start(status(State::OfferSent, Action::Wait, 1));
    let t = drive(d, Input::Looked(Some(status(State::Accepted, Action::Nothing, 3))));
    assert_eq!(t.line, Line::Standing(State::Accepted));
    assert_eq!((t.journal_from, t.journal_to), (1, 3));
    let t = drive(Driver { phase: Phase::Looking, ..t.driver }, Input::Looked(Some(status(State::Accepted, Action::Wait, 3))));
    assert_eq!(t.line, Line::Doing(Action::Wait));
    let t = drive(Driver { phase: Phase::Looking, ..t.driver }, Input::Looked(Some(status(State::Accepted, Action::Nothing, 3))));
    assert_eq!(t.line, Line::Silent);
    assert_eq!(t.driver.action, Action::Nothing);
}

#[test]
fn shorter_journal_prints_nothing() {
    let d = Driver::start(status(State::OfferSent, Action::Wait, 5));
    let t = drive(d, Input::Looked(Some(status(State::OfferSent, Action::Wait, 3))));
    assert_eq!((t.journal_from, t.journal_to), (5, 5));
    assert_eq!(t.driver.journal_len, 5);
}

#[test]
fn failed_look_backs_off_ten_seconds() {
    let d = started();
    let t = drive(d, Input::Looked(None));
    assert_eq!(t.next, Next::Sleep);
    assert_eq!(t.driver.phase, Phase::Sleeping(10));
    assert_eq!(t.driver.state, State::Created);
    let (d, seconds) = sleep_through(t.driver);
    assert_eq!(seconds, 10);
    assert_eq!(d, started());
}

#[test]
fn failed_action_does_not_advance() {
    let seen = status(State::Accepted, Action::BroadcastPrimary, 2);
    let d = Driver::start(status(State::Accepted, Action::Nothing, 2));
    let t = drive(d, Input::Looked(Some(seen)));
    let t = drive(t.driver, Input::Acted(None));
    assert_eq!(t.driver.state, State::Accepted);
    assert_eq!(t.driver.action, Action::BroadcastPrimary);
    assert_eq!(t.line, Line::Doing(Action::BroadcastPrimary));
    assert_eq!(t.driver.phase, Phase::Sleeping(10));
}

#[test]
fn finished_trade_ends_the_loop() {
    for state in [State::Completed, State::Refunded, State::Cancelled] {
        let t = drive(started(), Input::Looked(Some(status(state, Action::Nothing, 9))));
        assert_eq!(t.next, Next::Exit);
        assert_eq!(t.line, Line::Finished);
        assert_eq!(t.driver.phase, Phase::Ended);
        let again = drive(t.driver, Input::Slept { stop: false });
        assert_eq!(again.next, Next::Exit);
        assert_eq!(again.driver, t.driver);
    }
}

#[test]
fn stop_all_autoswap() {
    // Two drivers, asleep at different points of their sleep.
    let first = drive(
        Driver::start(status(State::OfferSent, Action::Wait, 1)),
        Input::Looked(Some(status(State::OfferSent, Action::Wait, 1))),
    );
    let second = drive(started(), Input::Looked(None));
    let mut a = first.driver;
    let mut b = second.driver;
    for _ in 0..4 {
        a = drive(a, Input::Slept { stop: false }).driver;
    }
    for _ in 0..9 {
        b = drive(b, Input::Slept { stop: false }).driver;
    }
    assert_eq!(a.phase, Phase::Sleeping(56));
    assert_eq!(b.phase, Phase::Sleeping(1));
    // The flag is set: the next reading of each driver ends its loop.
    for d in [a, b] {
        let t = drive(d, Input::Slept { stop: true });
        assert_eq!(t.next, Next::Exit);
        assert_eq!(t.line, Line::Stopped);
        assert_eq!(t.driver.phase, Phase::Ended);
        // What was reported of the trade stays as it was.
        assert_eq!((t.driver.state, t.driver.action, t.driver.journal_len), (d.state, d.action, d.journal_len));
    }
}

#[test]
fn input_out_of_turn_changes_nothing() {
    let d = started();
    let t = drive(d, Input::Slept { stop: true });
    assert_eq!((t.driver, t.next, t.line), (d, Next::Look, Line::Silent));
    let t = drive(d, Input::Acted(None));
    assert_eq!((t.driver, t.next), (d, Next::Look));
    let asleep = Driver { phase: Phase::Sleeping(3), ..d };
    let t = drive(asleep, Input::Looked(None));
    assert_eq!((t.driver, t.next), (asleep, Next::Sleep));
    let acting = Driver { phase: Phase::Acting(status(State::Created, Action::Wait, 0)), ..d };
    let t = drive(acting, Input::Looked(None));
    assert_eq!((t.driver, t.next), (acting, Next::Act));
}

#[test]
fn result_without_an_action_keeps_the_one_seen() {
    let seen = status(State::Accepted, Action::BroadcastPrimary, 2);
    let t = drive(Driver::start(seen), Input::Looked(Some(seen)));
    let done = Processed { next_state: State::MwcLocking, action: None, journal_len: 3 };
    let t = drive(t.driver, Input::Acted(Some(done)));
    assert_eq!(t.driver.state, State::MwcLocking);
    assert_eq!(t.driver.action, Action::BroadcastPrimary);
    assert_eq!(t.line, Line::Doing(Action::BroadcastPrimary));
    assert_eq!((t.journal_from, t.journal_to), (2, 3));
}
