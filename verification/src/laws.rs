//! What holds of every step of the trade machine.

use vstd::prelude::*;
use crate::machine::{
    after, may_adjust_spec, on_tick_spec, step_spec, Action, Event, Incoming, Outcome, Progress,
    Reject, State, Terms, Tick, UpdateKind,
};
use crate::types::Role;

verus! {

/// A step that leaves the state where it was and asks for nothing to be
/// carried out.
pub open spec fn rests(before: Progress, o: Outcome) -> bool {
    o.progress.state == before.state && !o.action.can_execute_spec()
}

/// A tick on which both chains are reachable for what this side has
/// posted. Where this side's redeem is out, the chain shows it; for the
/// buyer it may show instead the seller's refund, which has spent the same
/// coins. Where the last step asked for this side's refund, the chain shows
/// the refund with its confirmations.
pub open spec fn chains_reachable(terms: Terms, p: Progress, last: Action, t: Tick) -> bool {
    &&& p.redeem_published ==> match terms.role {
        Role::Seller => t.secondary_redeem is Some,
        Role::Buyer => t.mwc_redeem is Some || t.mwc_refund is Some,
    }
    &&& last == Action::PublishRefund ==> terms.refunded_spec(t)
}

/// How many ticks a trade is from its end at most, once the last deadline
/// has passed and the chains are reachable; `last` is what the step before
/// asked for.
pub open spec fn distance(terms: Terms, p: Progress, last: Action) -> nat {
    match p.state {
        State::Completed | State::Refunded | State::Cancelled => 0,
        State::Created | State::OfferSent | State::Offered | State::Accepted => 1,
        State::SellerWaitingForRefund => if p.redeem_published {
            1
        } else if last == Action::PublishRefund {
            2
        } else {
            3
        },
        State::Redeem => if p.redeem_published {
            1
        } else {
            4
        },
        State::InitRedeem => 4,
        State::MwcLocking => 5,
        State::BuyerWaitingForRefund => if last == Action::PublishRefund {
            1
        } else {
            2
        },
        State::RedeemReady | State::InitRedeemSent => 3,
        State::MwcLocked => 4,
        State::Locked => match terms.role {
            Role::Seller => 4,
            Role::Buyer => 3,
        },
    }
}

/// Whether, along a run of ticks from `p`, each tick lies after the last
/// deadline and finds both chains reachable.
pub open spec fn reachable_run(terms: Terms, p: Progress, last: Action, ticks: Seq<Tick>) -> bool
    decreases ticks.len(),
{
    if ticks.len() == 0 {
        true
    } else {
        let o = on_tick_spec(terms, p, ticks[0]);
        &&& ticks[0].now > terms.mwc_lock_time_spec()
        &&& chains_reachable(terms, p, last, ticks[0])
        &&& reachable_run(terms, o.progress, o.action, ticks.drop_first())
    }
}

/// The progress after a run of ticks.
pub open spec fn after_ticks(terms: Terms, p: Progress, ticks: Seq<Tick>) -> Progress
    decreases ticks.len(),
{
    if ticks.len() == 0 {
        p
    } else {
        after_ticks(terms, on_tick_spec(terms, p, ticks[0]).progress, ticks.drop_first())
    }
}

/// A terminal state is kept by every event, and asks for nothing.
pub proof fn lemma_terminal_is_kept(terms: Terms, p: Progress, event: Event)
    requires
        p.state.is_final_spec(),
    ensures
        after(terms, p, event).state == p.state,
        step_spec(terms, p, event) matches Ok(o) ==> o.action == Action::Nothing && o.deadline
            is None,
{
}

/// A trade ends in exactly one of three states: a state is terminal if and
/// only if it is `Completed`, `Refunded` or `Cancelled`, and these differ.
pub proof fn lemma_three_ends(s: State)
    ensures
        s.is_final_spec() <==> (s == State::Completed || s == State::Refunded || s
            == State::Cancelled),
        State::Completed != State::Refunded,
        State::Completed != State::Cancelled,
        State::Refunded != State::Cancelled,
{
}

/// Once the last deadline has passed and both chains are reachable, no
/// trade rests in an intermediate state: every tick brings it nearer to
/// its end, and it either moves on or asks for a transaction to be posted.
pub proof fn lemma_no_rest_after_deadlines(terms: Terms, p: Progress, last: Action, t: Tick)
    requires
        p.wf(terms.role),
        !p.state.is_final_spec(),
        t.now > terms.mwc_lock_time_spec(),
        chains_reachable(terms, p, last, t),
    ensures
        !rests(p, on_tick_spec(terms, p, t)),
        distance(terms, on_tick_spec(terms, p, t).progress, on_tick_spec(terms, p, t).action)
            < distance(terms, p, last),
{
}

/// Every trade ends: once the last deadline has passed and both chains
/// are reachable, a trade is in a terminal state after five ticks at most,
/// whatever state it was in and whatever else the ticks show.
pub proof fn lemma_trade_ends(terms: Terms, p: Progress, last: Action, ticks: Seq<Tick>)
    requires
        p.wf(terms.role),
        reachable_run(terms, p, last, ticks),
        ticks.len() >= distance(terms, p, last),
    ensures
        after_ticks(terms, p, ticks).state.is_final_spec(),
        distance(terms, p, last) <= 5,
    decreases ticks.len(),
{
    if ticks.len() == 0 {
    } else {
        let o = on_tick_spec(terms, p, ticks[0]);
        lemma_progress_stays_wf(terms, p, Event::Tick(ticks[0]));
        if p.state.is_final_spec() {
            lemma_terminal_is_kept(terms, p, Event::Tick(ticks[0]));
        } else {
            lemma_no_rest_after_deadlines(terms, p, last, ticks[0]);
        }
        lemma_trade_ends(terms, o.progress, o.action, ticks.drop_first());
    }
}

/// The seller's refund opens strictly after the secondary lock has
/// expired, and every deadline of the schedule lies at or before it.
pub proof fn lemma_refund_after_expiry(terms: Terms, s: State)
    ensures
        terms.mwc_lock_time_spec() > terms.secondary_lock_expiry_spec(),
        terms.deadline_spec(s) matches Some(d) ==> d <= terms.mwc_lock_time_spec(),
        terms.offer_deadline_spec() <= terms.accept_deadline_spec() <= terms.lock_deadline_spec()
            <= terms.redeem_deadline_spec(),
{
}

/// No partial settlement, as far as the machine decides it. A refund is
/// asked for only while waiting for it, only when no redeem of the primary
/// coins shows, and by the buyer only if the buyer's own redeem is not out
/// or the seller's refund has ruled it out. A redeem is asked for by the
/// buyer only once the seller's redeem message was verified, and by the
/// seller only when the buyer's redeem shows on chain. The seller's redeem
/// message is sent only after the buyer's request was verified.
pub proof fn lemma_no_partial_settlement(terms: Terms, p: Progress, event: Event)
    requires
        p.wf(terms.role),
    ensures
        step_spec(terms, p, event) matches Ok(o) ==> {
            &&& o.action == Action::PublishRefund ==> {
                &&& p.state.is_armed_spec()
                &&& event matches Event::Tick(t) && t.mwc_redeem is None
                &&& o.progress.mwc_redeem_txid == p.mwc_redeem_txid
            }
            &&& o.action == Action::PublishRedeem ==> match terms.role {
                Role::Buyer => p.state == State::RedeemReady,
                Role::Seller => event matches Event::Tick(t) && t.mwc_redeem is Some,
            }
            &&& o.action == Action::SendMessage(UpdateKind::Redeem) ==> p.state
                == State::InitRedeem
            &&& o.progress.state == State::InitRedeem && p.state != State::InitRedeem ==> (
            event matches Event::MessageReceived(m) && m.verified && p.state == State::Locked)
            &&& o.progress.state == State::BuyerWaitingForRefund && p.state
                != State::BuyerWaitingForRefund ==> (!p.redeem_published || (
            event matches Event::Tick(t) && t.mwc_refund is Some))
            &&& p.redeem_published ==> o.progress.redeem_published
        },
{
}

/// A trade is completed only with the other side's coins in hand: the
/// seller's record then holds the redeem of the secondary coins, the
/// buyer's the redeem of the primary ones. It is refunded only with its
/// own refund on record.
pub proof fn lemma_ends_are_settled(terms: Terms, p: Progress, event: Event)
    requires
        p.state.belongs_to_spec(terms.role),
        !p.state.is_final_spec(),
    ensures
        step_spec(terms, p, event) matches Ok(o) ==> {
            &&& o.progress.state == State::Completed ==> match terms.role {
                Role::Seller => o.progress.secondary_redeem_txid is Some,
                Role::Buyer => o.progress.mwc_redeem_txid is Some,
            }
            &&& o.progress.state == State::Refunded ==> match terms.role {
                Role::Seller => o.progress.mwc_refund_txid is Some,
                Role::Buyer => o.progress.secondary_refund_txid is Some,
            }
            &&& o.progress.state == State::Cancelled ==> p.state.is_pre_lock_spec()
        },
{
}

/// Handling a message is idempotent: what a message leaves behind, the
/// same message delivered again leaves as it is.
pub proof fn lemma_message_idempotent(terms: Terms, p: Progress, m: Incoming)
    ensures
        after(terms, after(terms, p, Event::MessageReceived(m)), Event::MessageReceived(m))
            == after(terms, p, Event::MessageReceived(m)),
{
}

/// A message that was taken is refused when it comes again.
pub proof fn lemma_replay_is_refused(terms: Terms, p: Progress, m: Incoming)
    requires
        step_spec(terms, p, Event::MessageReceived(m)) is Ok,
    ensures
        step_spec(terms, after(terms, p, Event::MessageReceived(m)), Event::MessageReceived(m))
            == Err::<Outcome, Reject>(Reject::UnexpectedMessageType),
{
}

/// The confirmations on record never go down, whatever the event; a tick
/// raises them to what it shows.
pub proof fn lemma_confirmations_monotonic(terms: Terms, p: Progress, event: Event)
    ensures
        after(terms, p, event).mwc_confirmations >= p.mwc_confirmations,
        after(terms, p, event).secondary_confirmations >= p.secondary_confirmations,
        event matches Event::Tick(t) ==> {
            &&& t.mwc_lock matches Some(s) ==> after(terms, p, event).mwc_confirmations
                >= s.confirmations
            &&& t.secondary_lock matches Some(f) ==> after(terms, p, event).secondary_confirmations
                >= f.confirmations
        },
{
}

/// The locks count as confirmed only on a tick that shows both with the
/// confirmations agreed on: what was seen earlier does not advance the
/// state.
pub proof fn lemma_locked_needs_confirmations(terms: Terms, p: Progress, event: Event)
    requires
        p.state != State::Locked,
    ensures
        after(terms, p, event).state == State::Locked ==> (event matches Event::Tick(t)
            && terms.mwc_locked_spec(t) && terms.secondary_locked_spec(t)),
{
}

/// Once the refund branch is armed, no message disarms it: every message
/// is refused and the progress stays as it is.
pub proof fn lemma_armed_ignores_messages(terms: Terms, p: Progress, m: Incoming)
    requires
        p.state.is_armed_spec(),
    ensures
        step_spec(terms, p, Event::MessageReceived(m)) == Err::<Outcome, Reject>(
            Reject::UnexpectedMessageType,
        ),
        after(terms, p, Event::MessageReceived(m)) == p,
{
}

/// From an armed state a trade goes on only to its refund, or, where the
/// chain shows the other side's redeem, to completion; never back.
pub proof fn lemma_armed_stays_armed(terms: Terms, p: Progress, event: Event)
    requires
        p.state.is_armed_spec(),
    ensures
        ({
            let s = after(terms, p, event).state;
            s == p.state || s == State::Refunded || (s == State::Completed && (
            event matches Event::Tick(t) && (t.mwc_redeem is Some || t.secondary_redeem is Some)))
        }),
{
}

/// The tick on which nothing shows on either chain, at the last moment a
/// clock can show.
pub open spec fn last_tick() -> Tick {
    Tick {
        now: i64::MAX,
        mwc_lock: None,
        secondary_lock: None,
        mwc_redeem: None,
        secondary_redeem: None,
        mwc_refund: None,
        secondary_refund: None,
    }
}

/// Every state that the operator may set is also reached by a legitimate
/// event: a tick after the current state's deadline leads there.
pub proof fn lemma_adjust_is_reachable(terms: Terms, p: Progress, target: State)
    requires
        terms.wf(),
        p.state.belongs_to_spec(terms.role),
        may_adjust_spec(terms, p, target),
    ensures
        exists|t: Tick| after(terms, p, Event::Tick(t)).state == target,
        step_spec(terms, p, Event::UserAdjust(target)) matches Ok(o) && o.progress.state == target
            && o.progress.mwc_confirmations == p.mwc_confirmations
            && o.progress.secondary_confirmations == p.secondary_confirmations,
{
    assert(after(terms, p, Event::Tick(last_tick())).state == target);
}

/// A state that the operator may not set is refused, and an adjustment
/// never leads out of a terminal or an armed state.
pub proof fn lemma_adjust_is_limited(terms: Terms, p: Progress, target: State)
    ensures
        !may_adjust_spec(terms, p, target) ==> step_spec(terms, p, Event::UserAdjust(target))
            == Err::<Outcome, Reject>(Reject::InvalidAdjust),
        p.state.is_final_spec() || p.state.is_armed_spec() ==> !may_adjust_spec(terms, p, target),
{
}

/// Every step keeps the progress one that a trade of the role can have
/// made.
pub proof fn lemma_progress_stays_wf(terms: Terms, p: Progress, event: Event)
    requires
        p.wf(terms.role),
    ensures
        after(terms, p, event).wf(terms.role),
{
}

} // verus!
