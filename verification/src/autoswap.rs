//! The driver that carries a trade forward without the operator.
//!
//! The driver is a loop around the trade: look at the trade, carry out what
//! it asks for, report what is new, sleep, and look again. The loop itself,
//! with its calls and its clock, belongs to the caller. [`drive`] holds the
//! decisions: it takes what the last call brought and says what to print
//! and what to do next.

use vstd::prelude::*;
use crate::machine::{Action, State};

verus! {

/// Seconds to sleep after an action was carried out.
pub const PAUSE_AFTER_ACTION: u8 = 10;

/// Seconds to sleep when there was nothing to carry out.
pub const PAUSE_WHEN_IDLE: u8 = 60;

/// Seconds to sleep after a failed look at the trade.
pub const PAUSE_AFTER_ERROR: u8 = 10;

/// What a look at the trade shows.
#[derive(Clone, Copy, Debug, PartialEq, Eq, Structural)]
pub struct Status {
    pub state: State,
    pub action: Action,
    /// The number of lines in the trade's journal.
    pub journal_len: usize,
}

/// What carrying out an action brought.
#[derive(Clone, Copy, Debug, PartialEq, Eq, Structural)]
pub struct Processed {
    pub next_state: State,
    /// The action that is due next, where it is known.
    pub action: Option<Action>,
    /// The number of lines in the trade's journal.
    pub journal_len: usize,
}

/// Where the driver stands in its loop.
#[derive(Clone, Copy, Debug, PartialEq, Eq, Structural)]
pub enum Phase {
    /// A look at the trade is under way.
    Looking,
    /// The action of this status is being carried out.
    Acting(Status),
    /// Asleep, with so many seconds of sleep still to come.
    Sleeping(u8),
    /// The loop has ended.
    Ended,
}

/// The driver between two calls.
#[derive(Clone, Copy, Debug, PartialEq, Eq, Structural)]
pub struct Driver {
    pub phase: Phase,
    /// The state that was last reported.
    pub state: State,
    /// The action that was last reported.
    pub action: Action,
    /// The number of journal lines that were printed.
    pub journal_len: usize,
}

/// What the last call brought.
#[derive(Clone, Copy, Debug, PartialEq, Eq, Structural)]
pub enum Input {
    /// The look at the trade; `None` where it failed.
    Looked(Option<Status>),
    /// The action; `None` where it failed.
    Acted(Option<Processed>),
    /// The stop signal was read, and a second was slept if it was not set.
    Slept { stop: bool },
}

/// What to do next.
#[derive(Clone, Copy, Debug, PartialEq, Eq, Structural)]
pub enum Next {
    /// Look at the trade.
    Look,
    /// Carry out the trade's action.
    Act,
    /// Read the stop signal and, if it is not set, sleep one second; then
    /// hand in the signal as it was read.
    Sleep,
    /// Leave the loop.
    Exit,
}

/// The line about state and action that a turn prints.
#[derive(Clone, Copy, Debug, PartialEq, Eq, Structural)]
pub enum Line {
    /// No line.
    Silent,
    /// The action.
    Doing(Action),
    /// The state, where there is no action to name.
    Standing(State),
    /// The trade is finished.
    Finished,
    /// The driver was stopped; the trade can be continued by hand.
    Stopped,
}

/// One turn of the loop.
#[derive(Clone, Copy, Debug, PartialEq, Eq, Structural)]
pub struct Turn {
    /// The driver after the turn.
    pub driver: Driver,
    /// The journal lines to print: from this one...
    pub journal_from: usize,
    /// ...up to, not including, this one.
    pub journal_to: usize,
    /// The line to print after them.
    pub line: Line,
    /// What to do next.
    pub next: Next,
}

/// The line for a status, after `state` and `action` were reported last: a
/// new state is reported by its action, or by itself where the action is
/// empty; in the same state a new action is reported unless it is empty.
pub open spec fn line_spec(state: State, action: Action, now: Status) -> Line {
    if now.state != state {
        if now.action != Action::Nothing {
            Line::Doing(now.action)
        } else {
            Line::Standing(now.state)
        }
    } else if now.action != action && now.action != Action::Nothing {
        Line::Doing(now.action)
    } else {
        Line::Silent
    }
}

/// The turn that reports a status and goes to sleep for `pause` seconds.
pub open spec fn report_spec(d: Driver, now: Status, pause: u8) -> Turn {
    Turn {
        driver: Driver {
            phase: Phase::Sleeping(pause),
            state: now.state,
            action: now.action,
            journal_len: if d.journal_len < now.journal_len {
                now.journal_len
            } else {
                d.journal_len
            },
        },
        journal_from: d.journal_len,
        journal_to: if d.journal_len < now.journal_len {
            now.journal_len
        } else {
            d.journal_len
        },
        line: line_spec(d.state, d.action, now),
        next: Next::Sleep,
    }
}

/// The turn that prints nothing.
pub open spec fn quiet_spec(d: Driver, phase: Phase, next: Next) -> Turn {
    Turn {
        driver: Driver { phase, ..d },
        journal_from: d.journal_len,
        journal_to: d.journal_len,
        line: Line::Silent,
        next,
    }
}

/// The turn that ends the loop with a last line.
pub open spec fn end_spec(d: Driver, line: Line) -> Turn {
    Turn {
        driver: Driver { phase: Phase::Ended, ..d },
        journal_from: d.journal_len,
        journal_to: d.journal_len,
        line,
        next: Next::Exit,
    }
}

/// What carrying out the action of `before` leaves: the new state, the new
/// action where one is known and else the old one.
pub open spec fn merged(before: Status, p: Processed) -> Status {
    Status {
        state: p.next_state,
        action: match p.action {
            Some(a) => a,
            None => before.action,
        },
        journal_len: p.journal_len,
    }
}

/// One turn of the driver.
///
/// A look that fails is tried again after a pause. A trade in a terminal
/// state ends the loop. An action that can be carried out is carried out,
/// and its result reported, before the next sleep; a failure is not
/// reported and changes nothing. Sleep goes by the second, and the stop
/// signal ends the loop at each second. An input that does not belong to
/// the phase changes nothing and asks for what the phase waits for.
pub open spec fn drive_spec(d: Driver, input: Input) -> Turn {
    match (d.phase, input) {
        (Phase::Looking, Input::Looked(None)) => quiet_spec(
            d,
            Phase::Sleeping(PAUSE_AFTER_ERROR),
            Next::Sleep,
        ),
        (Phase::Looking, Input::Looked(Some(s))) => if s.state.is_final_spec() {
            end_spec(d, Line::Finished)
        } else if s.action.can_execute_spec() {
            quiet_spec(d, Phase::Acting(s), Next::Act)
        } else {
            report_spec(d, s, PAUSE_WHEN_IDLE)
        },
        (Phase::Acting(s), Input::Acted(Some(p))) => report_spec(
            d,
            merged(s, p),
            PAUSE_AFTER_ACTION,
        ),
        (Phase::Acting(s), Input::Acted(None)) => report_spec(d, s, PAUSE_AFTER_ACTION),
        (Phase::Sleeping(left), Input::Slept { stop }) => if stop {
            end_spec(d, Line::Stopped)
        } else if left <= 1 {
            quiet_spec(d, Phase::Looking, Next::Look)
        } else {
            quiet_spec(d, Phase::Sleeping((left - 1) as u8), Next::Sleep)
        },
        (Phase::Looking, _) => quiet_spec(d, d.phase, Next::Look),
        (Phase::Acting(_), _) => quiet_spec(d, d.phase, Next::Act),
        (Phase::Sleeping(_), _) => quiet_spec(d, d.phase, Next::Sleep),
        (Phase::Ended, _) => quiet_spec(d, d.phase, Next::Exit),
    }
}

fn line(state: State, action: Action, now: Status) -> (l: Line)
    ensures
        l == line_spec(state, action, now),
{
    if now.state != state {
        if !now.action.is_none() {
            Line::Doing(now.action)
        } else {
            Line::Standing(now.state)
        }
    } else if now.action != action && !now.action.is_none() {
        Line::Doing(now.action)
    } else {
        Line::Silent
    }
}

fn report(d: Driver, now: Status, pause: u8) -> (t: Turn)
    ensures
        t == report_spec(d, now, pause),
{
    let journal_to = if d.journal_len < now.journal_len {
        now.journal_len
    } else {
        d.journal_len
    };
    Turn {
        driver: Driver {
            phase: Phase::Sleeping(pause),
            state: now.state,
            action: now.action,
            journal_len: journal_to,
        },
        journal_from: d.journal_len,
        journal_to,
        line: line(d.state, d.action, now),
        next: Next::Sleep,
    }
}

fn quiet(d: Driver, phase: Phase, next: Next) -> (t: Turn)
    ensures
        t == quiet_spec(d, phase, next),
{
    Turn {
        driver: Driver { phase, ..d },
        journal_from: d.journal_len,
        journal_to: d.journal_len,
        line: Line::Silent,
        next,
    }
}

fn end(d: Driver, line: Line) -> (t: Turn)
    ensures
        t == end_spec(d, line),
{
    Turn {
        driver: Driver { phase: Phase::Ended, ..d },
        journal_from: d.journal_len,
        journal_to: d.journal_len,
        line,
        next: Next::Exit,
    }
}

impl Driver {
    /// The driver at the start of its loop, after the trade was shown once:
    /// that status counts as reported, and the first thing to do is to look
    /// at the trade.
    pub fn start(shown: Status) -> (d: Driver)
        ensures
            d == (Driver {
                phase: Phase::Looking,
                state: shown.state,
                action: shown.action,
                journal_len: shown.journal_len,
            }),
    {
        Driver {
            phase: Phase::Looking,
            state: shown.state,
            action: shown.action,
            journal_len: shown.journal_len,
        }
    }
}

/// Takes one turn of the loop.
pub fn drive(d: Driver, input: Input) -> (t: Turn)
    ensures
        t == drive_spec(d, input),
{
    match (d.phase, input) {
        (Phase::Looking, Input::Looked(None)) => quiet(
            d,
            Phase::Sleeping(PAUSE_AFTER_ERROR),
            Next::Sleep,
        ),
        (Phase::Looking, Input::Looked(Some(s))) => if s.state.is_final_state() {
            end(d, Line::Finished)
        } else if s.action.can_execute() {
            quiet(d, Phase::Acting(s), Next::Act)
        } else {
            report(d, s, PAUSE_WHEN_IDLE)
        },
        (Phase::Acting(s), Input::Acted(Some(p))) => {
            let now = Status {
                state: p.next_state,
                action: match p.action {
                    Some(a) => a,
                    None => s.action,
                },
                journal_len: p.journal_len,
            };
            report(d, now, PAUSE_AFTER_ACTION)
        },
        (Phase::Acting(s), Input::Acted(None)) => report(d, s, PAUSE_AFTER_ACTION),
        (Phase::Sleeping(left), Input::Slept { stop }) => if stop {
            end(d, Line::Stopped)
        } else if left <= 1 {
            quiet(d, Phase::Looking, Next::Look)
        } else {
            quiet(d, Phase::Sleeping(left - 1), Next::Sleep)
        },
        (Phase::Looking, _) => quiet(d, d.phase, Next::Look),
        (Phase::Acting(_), _) => quiet(d, d.phase, Next::Act),
        (Phase::Sleeping(_), _) => quiet(d, d.phase, Next::Sleep),
        (Phase::Ended, _) => quiet(d, d.phase, Next::Exit),
    }
}

/// The driver after `n` seconds of sleep during which the stop signal
/// stayed unset.
pub open spec fn after_sleep(d: Driver, n: nat) -> Driver
    decreases n,
{
    if n == 0 {
        d
    } else {
        after_sleep(drive_spec(d, Input::Slept { stop: false }).driver, (n - 1) as nat)
    }
}

/// The stop signal is seen within one second: whenever the driver is asked
/// to sleep, the next thing it reads is the signal, and a signal that is
/// set ends the loop before any further call.
pub proof fn lemma_stop_within_a_second(d: Driver, input: Input)
    ensures
        drive_spec(d, input).next == Next::Sleep ==> drive_spec(
            drive_spec(d, input).driver,
            Input::Slept { stop: true },
        ).next == Next::Exit,
        d.phase is Sleeping ==> drive_spec(d, Input::Slept { stop: true }) == end_spec(
            d,
            Line::Stopped,
        ),
{
}

/// The loop ends when the trade has ended, and only then or on the stop
/// signal: a turn asks to leave exactly for a terminal state just seen,
/// for a stop signal during sleep, or after the loop has ended.
pub proof fn lemma_exit_only_when_due(d: Driver, input: Input)
    ensures
        drive_spec(d, input).next == Next::Exit <==> (d.phase is Ended || (d.phase is Looking
            && (input matches Input::Looked(Some(s)) && s.state.is_final_spec())) || (d.phase
            is Sleeping && (input matches Input::Slept { stop } && stop))),
{
}

/// A sleep of `left` seconds is over after `left` seconds during which
/// the stop signal stayed unset, and then the driver looks at the trade
/// again; until then it goes on sleeping.
pub proof fn lemma_sleep_ends(d: Driver, left: u8)
    requires
        d.phase == Phase::Sleeping(left),
        left >= 1,
    ensures
        after_sleep(d, left as nat) == (Driver { phase: Phase::Looking, ..d }),
        forall|n: nat| n < left ==> (#[trigger] after_sleep(d, n)).phase is Sleeping,
    decreases left,
{
    let next = drive_spec(d, Input::Slept { stop: false }).driver;
    assert(after_sleep(d, 0) == d);
    if left == 1 {
        assert(after_sleep(next, 0) == next);
        assert forall|n: nat| n < left implies (#[trigger] after_sleep(d, n)).phase is Sleeping by {
            assert(n == 0);
        }
    } else {
        lemma_sleep_ends(next, (left - 1) as u8);
        assert forall|n: nat| n < left implies (#[trigger] after_sleep(d, n)).phase is Sleeping by {
            if n > 0 {
                assert(after_sleep(d, n) == after_sleep(next, (n - 1) as nat));
            }
        }
    }
}

/// A failure never advances what the driver holds of the trade: after a
/// look or an action that failed, state and action are as they were
/// reported or seen before.
pub proof fn lemma_errors_do_not_advance(d: Driver)
    ensures
        drive_spec(d, Input::Looked(None)).driver.state == d.state,
        drive_spec(d, Input::Looked(None)).driver.action == d.action,
        d.phase matches Phase::Acting(s) ==> drive_spec(d, Input::Acted(None)).driver.state
            == s.state && drive_spec(d, Input::Acted(None)).driver.action == s.action,
{
}

/// The journal lines that a turn prints are the new ones, and none is
/// printed twice: the lines start where the last turn stopped.
pub proof fn lemma_journal_in_order(d: Driver, input: Input)
    ensures
        drive_spec(d, input).journal_from == d.journal_len,
        drive_spec(d, input).journal_from <= drive_spec(d, input).journal_to,
        drive_spec(d, input).driver.journal_len == drive_spec(d, input).journal_to,
{
}

} // verus!
