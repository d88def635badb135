//! The record of a trade, and the store that keeps the records.

use vstd::prelude::*;
use crate::error::ErrorKind;
use crate::machine::{
    action_name, action_text, state_name, state_text, step, step_spec, Action, Event, Outcome,
    Progress, Reject, State, Terms,
};
use crate::message::{goes_with, Message};
use crate::types::Currency;
use crate::types::{Role, Uuid};

verus! {

/// One line of a trade's journal.
#[derive(Clone, Copy, Debug, PartialEq, Eq, Structural)]
pub struct JournalEntry {
    /// When the line was written, in seconds since the Unix epoch.
    pub time: i64,
    /// The state that the trade came into.
    pub state: State,
    /// What was asked for on the way.
    pub action: Action,
}

impl JournalEntry {
    /// The line as the operator reads it: the state that the trade came
    /// into and, where something was carried out on the way, what.
    pub open spec fn message_spec(&self) -> Seq<char> {
        if self.action.can_execute_spec() {
            state_name(self.state) + " after "@ + action_name(self.action)
        } else {
            state_name(self.state)
        }
    }

    /// The line as the operator reads it.
    pub fn message(&self) -> (s: String)
        ensures
            s@ == self.message_spec(),
    {
        if self.action.can_execute() {
            String::from_str(state_text(self.state)).concat(" after ").concat(
                action_text(self.action),
            )
        } else {
            String::from_str(state_text(self.state))
        }
    }
}

/// The durable state of one trade.
#[derive(Debug, PartialEq, Eq)]
pub struct Trade {
    /// The trade's identifier. Never changes.
    pub id: Uuid,
    /// What was agreed on. Never changes.
    pub terms: Terms,
    /// How far the trade has come.
    pub progress: Progress,
    /// What happened, oldest first. Lines are only ever added.
    pub journal: Vec<JournalEntry>,
    /// The hash of the last message that was sent, so that it is not sent
    /// twice.
    pub last_message_sent_hash: Option<u64>,
    /// The revision of the stored record that this copy was read from.
    pub revision: u64,
}

/// The mathematical value of a trade record.
pub struct TradeView {
    pub id: Uuid,
    pub terms: Terms,
    pub progress: Progress,
    pub journal: Seq<JournalEntry>,
    pub last_message_sent_hash: Option<u64>,
    pub revision: u64,
}

impl View for Trade {
    type V = TradeView;

    open spec fn view(&self) -> TradeView {
        TradeView {
            id: self.id,
            terms: self.terms,
            progress: self.progress,
            journal: self.journal@,
            last_message_sent_hash: self.last_message_sent_hash,
            revision: self.revision,
        }
    }
}

/// The error that a refusal is reported as.
pub fn refusal(reject: Reject) -> (e: ErrorKind)
    ensures
        match reject {
            Reject::UnexpectedMessageType => e matches ErrorKind::UnexpectedMessageType(_),
            Reject::UnexpectedCoinType => e == ErrorKind::UnexpectedCoinType,
            Reject::InvalidAdjust => e == ErrorKind::InvalidAdjust,
        },
{
    match reject {
        Reject::UnexpectedMessageType => ErrorKind::UnexpectedMessageType(
            String::from_str("The message is not the one that the trade waits for"),
        ),
        Reject::UnexpectedCoinType => ErrorKind::UnexpectedCoinType,
        Reject::InvalidAdjust => ErrorKind::InvalidAdjust,
    }
}

/// Whether the error is the one that the refusal is reported as.
pub open spec fn reports(e: ErrorKind, reject: Reject) -> bool {
    match reject {
        Reject::UnexpectedMessageType => e is UnexpectedMessageType,
        Reject::UnexpectedCoinType => e == ErrorKind::UnexpectedCoinType,
        Reject::InvalidAdjust => e == ErrorKind::InvalidAdjust,
    }
}

/// What applying an event does to a record. An event that is refused
/// changes nothing. An outcome whose action has to be carried out takes
/// effect only once that is acknowledged. An outcome that takes effect
/// replaces the progress and, where it changes the state or asks for
/// something, adds one line to the journal.
pub open spec fn apply_spec(t: TradeView, event: Event, acknowledged: bool, now: i64) -> TradeView {
    match step_spec(t.terms, t.progress, event) {
        Err(_) => t,
        Ok(o) => if o.action.can_execute_spec() && !acknowledged {
            t
        } else {
            TradeView {
                progress: o.progress,
                journal: if o.progress.state != t.progress.state || o.action.can_execute_spec() {
                    t.journal.push(
                        JournalEntry { time: now, state: o.progress.state, action: o.action },
                    )
                } else {
                    t.journal
                },
                ..t
            }
        },
    }
}

/// The record of a trade that has just come into being: the seller's
/// begins in `Created`, the buyer's in `Offered`; nothing is seen or sent
/// yet and the journal is empty.
pub open spec fn fresh(id: Uuid, terms: Terms) -> TradeView {
    TradeView {
        id,
        terms,
        progress: Progress::begin_spec(
            match terms.role {
                Role::Seller => State::Created,
                Role::Buyer => State::Offered,
            },
        ),
        journal: Seq::empty(),
        last_message_sent_hash: None,
        revision: 0,
    }
}

impl Trade {
    /// A record is sound when its progress is one that its role can have
    /// made.
    pub open spec fn wf(&self) -> bool {
        self.progress.wf(self.terms.role)
    }

    /// The record of a trade that has just come into being.
    pub fn new(id: Uuid, terms: Terms) -> (t: Trade)
        ensures
            t@ == fresh(id, terms),
            t.wf(),
    {
        let state = match terms.role {
            Role::Seller => State::Created,
            Role::Buyer => State::Offered,
        };
        Trade {
            id,
            terms,
            progress: Progress::begin(state),
            journal: Vec::new(),
            last_message_sent_hash: None,
            revision: 0,
        }
    }

    /// Whether this wallet sells the primary coins.
    pub fn is_seller(&self) -> (b: bool)
        ensures
            b == (self.terms.role == Role::Seller),
    {
        match self.terms.role {
            Role::Seller => true,
            Role::Buyer => false,
        }
    }

    /// What an event would lead to. The record is not changed.
    pub fn preview(&self, event: &Event) -> (r: Result<Outcome, ErrorKind>)
        ensures
            match step_spec(self.terms, self.progress, *event) {
                Ok(o) => r == Ok::<Outcome, ErrorKind>(o),
                Err(reject) => r matches Err(e) && reports(e, reject),
            },
    {
        match step(&self.terms, &self.progress, event) {
            Ok(o) => Ok(o),
            Err(reject) => Err(refusal(reject)),
        }
    }

    /// Applies an event. `acknowledged` says whether the action that
    /// [`Trade::preview`] gave for the event has been carried out; it is
    /// not read where there is nothing to carry out. Identifier, terms and
    /// revision stay; the journal only grows.
    pub fn apply(&mut self, event: &Event, acknowledged: bool, now: i64) -> (r: Result<
        Outcome,
        ErrorKind,
    >)
        ensures
            final(self)@ == apply_spec(old(self)@, *event, acknowledged, now),
            match step_spec(old(self).terms, old(self).progress, *event) {
                Ok(o) => r == Ok::<Outcome, ErrorKind>(o),
                Err(reject) => r matches Err(e) && reports(e, reject),
            },
    {
        match step(&self.terms, &self.progress, event) {
            Ok(o) => {
                if !o.action.can_execute() || acknowledged {
                    if o.progress.state != self.progress.state || o.action.can_execute() {
                        self.journal.push(
                            JournalEntry { time: now, state: o.progress.state, action: o.action },
                        );
                    }
                    self.progress = o.progress;
                }
                Ok(o)
            },
            Err(reject) => Err(refusal(reject)),
        }
    }

    /// Takes in a message of the counterparty. `classified` and `verified`
    /// are as for [`Message::incoming`]. A message under another
    /// identifier than the trade's is an argument error. A message that
    /// the trade does not wait for is an unexpected message. A message
    /// whose two parts do not go together, or whose secondary part is not
    /// for the trade's currency, is an unexpected coin. In each of these
    /// cases the record stays as it is. Any other message is applied.
    pub fn receive(&mut self, message: &Message, classified: Currency, verified: bool, now: i64) -> (r:
        Result<Outcome, ErrorKind>)
        ensures
            ({
                let event = Event::MessageReceived(message.incoming_spec(classified, verified));
                if message.id != old(self).id {
                    (r matches Err(ErrorKind::InvalidArgument(_))) && final(self)@ == old(self)@
                } else {
                    match step_spec(old(self).terms, old(self).progress, event) {
                        Err(reject) => (r matches Err(e) && reports(e, reject)) && final(self)@
                            == old(self)@,
                        Ok(o) => if goes_with(message.inner.kind_spec(), message.inner_secondary@) {
                            r == Ok::<Outcome, ErrorKind>(o) && final(self)@ == apply_spec(
                                old(self)@,
                                event,
                                true,
                                now,
                            )
                        } else {
                            r == Err::<Outcome, ErrorKind>(ErrorKind::UnexpectedCoinType) && final(self)@ == old(self)@
                        },
                    }
                }
            }),
    {
        if message.id != self.id {
            return Err(
                ErrorKind::InvalidArgument(String::from_str("The message is for another trade")),
            );
        }
        let event = Event::MessageReceived(message.incoming(classified, verified));
        match self.preview(&event) {
            Ok(_) => {},
            Err(e) => {
                return Err(e);
            },
        }
        if !message.is_consistent() {
            return Err(ErrorKind::UnexpectedCoinType);
        }
        self.apply(&event, true, now)
    }

    /// Whether a message with this hash is the one that was sent last.
    pub fn already_sent(&self, hash: u64) -> (b: bool)
        ensures
            b == (self.last_message_sent_hash == Some(hash)),
    {
        match self.last_message_sent_hash {
            Some(h) => h == hash,
            None => false,
        }
    }

    /// Notes the hash of the message that was just sent.
    pub fn mark_sent(&mut self, hash: u64)
        ensures
            final(self)@ == (TradeView { last_message_sent_hash: Some(hash), ..old(self)@ }),
    {
        self.last_message_sent_hash = Some(hash);
    }

    /// A copy of the record.
    pub fn duplicate(&self) -> (t: Trade)
        ensures
            t@ == self@,
    {
        let mut journal: Vec<JournalEntry> = Vec::new();
        let mut i: usize = 0;
        while i < self.journal.len()
            invariant
                i <= self.journal@.len(),
                journal@ == self.journal@.take(i as int),
            decreases self.journal@.len() - i,
        {
            journal.push(self.journal[i]);
            assert(self.journal@.take(i + 1) =~= self.journal@.take(i as int).push(
                self.journal@[i as int],
            ));
            i = i + 1;
        }
        assert(self.journal@.take(i as int) =~= self.journal@);
        Trade {
            id: self.id,
            terms: self.terms,
            progress: self.progress,
            journal,
            last_message_sent_hash: self.last_message_sent_hash,
            revision: self.revision,
        }
    }
}

/// Applying an event keeps identifier, terms and revision, and keeps the
/// journal as it was but for lines added at its end.
pub proof fn lemma_apply_keeps_identity(t: TradeView, event: Event, acknowledged: bool, now: i64)
    ensures
        apply_spec(t, event, acknowledged, now).id == t.id,
        apply_spec(t, event, acknowledged, now).terms == t.terms,
        apply_spec(t, event, acknowledged, now).revision == t.revision,
        t.journal.is_prefix_of(apply_spec(t, event, acknowledged, now).journal),
        step_spec(t.terms, t.progress, event) is Err ==> apply_spec(t, event, acknowledged, now)
            == t,
{
}

/// What identifies an action that was asked for: the trade and the state
/// in which it was asked.
#[derive(Clone, Copy, Debug, PartialEq, Eq, Structural)]
pub struct StepTag {
    pub id: Uuid,
    pub from: State,
}

/// Whether an action that carries the tag is still to be carried out on
/// the record: it is as long as the record is the tag's trade and stands
/// in the tag's state. On a record that has moved on, carrying the action
/// out again is to do nothing.
pub fn is_due(trade: &Trade, tag: StepTag) -> (b: bool)
    ensures
        b == (trade.id == tag.id && trade.progress.state == tag.from),
{
    trade.id == tag.id && trade.progress.state == tag.from
}

/// The records of all trades, each under its identifier.
pub struct Store {
    records: Vec<Trade>,
}

impl Store {
    /// The records, in the order in which they were created.
    pub closed spec fn records(&self) -> Seq<TradeView> {
        Seq::new(self.records@.len(), |i: int| self.records@[i]@)
    }

    /// No two records share an identifier.
    pub open spec fn wf(&self) -> bool {
        forall|i: int, j: int|
            0 <= i < j < self.records().len() ==> self.records()[i].id != self.records()[j].id
    }

    /// Whether `i` is the place of the record of `id`.
    pub open spec fn at(&self, id: Uuid, i: int) -> bool {
        0 <= i < self.records().len() && self.records()[i].id == id
    }

    /// Whether there is a record of `id`.
    pub open spec fn has(&self, id: Uuid) -> bool {
        exists|i: int| self.at(id, i)
    }

    /// An empty store.
    pub fn new() -> (s: Store)
        ensures
            s.records() == Seq::<TradeView>::empty(),
            s.wf(),
    {
        let s = Store { records: Vec::new() };
        assert(s.records() =~= Seq::<TradeView>::empty());
        s
    }

    fn find(&self, id: Uuid) -> (r: Option<usize>)
        ensures
            match r {
                Some(i) => self.at(id, i as int),
                None => !self.has(id),
            },
    {
        let mut i: usize = 0;
        while i < self.records.len()
            invariant
                i <= self.records@.len(),
                self.records().len() == self.records@.len(),
                forall|k: int| 0 <= k < i ==> !self.at(id, k),
            decreases self.records@.len() - i,
        {
            if self.records[i].id == id {
                return Some(i);
            }
            i = i + 1;
        }
        None
    }

    /// The identifiers of all records, in the order of their creation.
    pub fn list(&self) -> (ids: Vec<Uuid>)
        ensures
            ids@.len() == self.records().len(),
            forall|i: int| 0 <= i < ids@.len() ==> ids@[i] == self.records()[i].id,
    {
        let mut ids: Vec<Uuid> = Vec::new();
        let mut i: usize = 0;
        while i < self.records.len()
            invariant
                i <= self.records@.len(),
                self.records().len() == self.records@.len(),
                ids@.len() == i,
                forall|k: int| 0 <= k < i ==> ids@[k] == self.records()[k].id,
            decreases self.records@.len() - i,
        {
            ids.push(self.records[i].id);
            i = i + 1;
        }
        ids
    }

    /// A copy of the record of `id`; `None` where there is none.
    pub fn load(&self, id: Uuid) -> (r: Option<Trade>)
        ensures
            match r {
                Some(t) => exists|i: int| self.at(id, i) && self.records()[i] == t@,
                None => !self.has(id),
            },
    {
        match self.find(id) {
            Some(i) => Some(self.records[i].duplicate()),
            None => None,
        }
    }

    /// Adds the record of a new trade, as revision 0. A trade that has a
    /// record already is refused as a conflict, and nothing changes.
    pub fn create(&mut self, trade: Trade) -> (r: Result<(), ErrorKind>)
        requires
            old(self).wf(),
        ensures
            final(self).wf(),
            old(self).has(trade.id) ==> r == Err::<(), ErrorKind>(ErrorKind::StateConflict)
                && final(self).records() == old(self).records(),
            !old(self).has(trade.id) ==> r is Ok && final(self).records() == old(self).records().push(TradeView { revision: 0, ..trade@ }),
    {
        match self.find(trade.id) {
            Some(_) => Err(ErrorKind::StateConflict),
            None => {
                let mut trade = trade;
                trade.revision = 0;
                self.records.push(trade);
                assert(self.records() =~= old(self).records().push(
                    TradeView { revision: 0, ..trade@ },
                ));
                assert forall|i: int, j: int| 0 <= i < j < self.records().len() implies self.records()[i].id
                    != self.records()[j].id by {
                    if j == old(self).records().len() {
                        assert(!old(self).at(trade.id, i));
                    }
                }
                Ok(())
            },
        }
    }

    /// Replaces the record of the trade by `trade`, whole, under the next
    /// revision. The write is refused as a conflict, and nothing changes,
    /// where the trade has no record, where `trade` was not read from the
    /// revision that is stored, or where the revisions are used up.
    pub fn save(&mut self, trade: Trade) -> (r: Result<u64, ErrorKind>)
        requires
            old(self).wf(),
        ensures
            final(self).wf(),
            final(self).records().len() == old(self).records().len(),
            match r {
                Ok(revision) => exists|i: int|
                    {
                        &&& old(self).at(trade.id, i)
                        &&& old(self).records()[i].revision == trade.revision
                        &&& revision == trade.revision + 1
                        &&& final(self).records() == old(self).records().update(
                            i,
                            TradeView { revision, ..trade@ },
                        )
                    },
                Err(e) => {
                    &&& e == ErrorKind::StateConflict
                    &&& final(self).records() == old(self).records()
                    &&& forall|i: int|
                        old(self).at(trade.id, i) ==> old(self).records()[i].revision
                            != trade.revision || trade.revision == u64::MAX
                },
            },
    {
        match self.find(trade.id) {
            Some(i) => {
                if self.records[i].revision != trade.revision || trade.revision == u64::MAX {
                    assert forall|k: int| old(self).at(trade.id, k) implies old(self).records()[k].revision != trade.revision || trade.revision == u64::MAX by {
                        assert(k == i) by {
                            if k < i {
                                assert(old(self).records()[k].id != old(self).records()[i as int].id);
                            } else if k > i {
                                assert(old(self).records()[i as int].id != old(self).records()[k].id);
                            }
                        }
                    }
                    return Err(ErrorKind::StateConflict);
                }
                let mut trade = trade;
                let revision = trade.revision + 1;
                trade.revision = revision;
                let ghost stored = trade@;
                self.records[i] = trade;
                assert(self.records() =~= old(self).records().update(i as int, stored));
                Ok(revision)
            },
            None => Err(ErrorKind::StateConflict),
        }
    }

    /// Takes the record of `id` through one event and stores what comes of
    /// it, under the next revision. `acknowledged` is as for
    /// [`Trade::apply`]. Without a record of `id` the event is an argument
    /// error. An event that the trade refuses is reported as the refusal.
    /// A record whose revisions are used up is a conflict. In each of these
    /// cases the store is as it was.
    pub fn advance(&mut self, id: Uuid, event: &Event, acknowledged: bool, now: i64) -> (r: Result<
        Outcome,
        ErrorKind,
    >)
        requires
            old(self).wf(),
        ensures
            final(self).wf(),
            !old(self).has(id) ==> (r matches Err(ErrorKind::InvalidArgument(_))) && final(self).records() == old(self).records(),
            forall|i: int|
                old(self).at(id, i) ==> {
                    let t = #[trigger] old(self).records()[i];
                    match step_spec(t.terms, t.progress, *event) {
                        Err(reject) => (r matches Err(e) && reports(e, reject)) && final(self).records() == old(self).records(),
                        Ok(o) => if t.revision == u64::MAX {
                            r == Err::<Outcome, ErrorKind>(ErrorKind::StateConflict) && final(self).records() == old(self).records()
                        } else {
                            r == Ok::<Outcome, ErrorKind>(o) && final(self).records() == old(self).records().update(
                                i,
                                TradeView {
                                    revision: (t.revision + 1) as u64,
                                    ..apply_spec(t, *event, acknowledged, now)
                                },
                            )
                        },
                    }
                },
    {
        let i = match self.find(id) {
            Some(i) => i,
            None => {
                return Err(
                    ErrorKind::InvalidArgument(String::from_str("There is no trade of this id")),
                );
            },
        };
        proof {
            assert forall|k: int| old(self).at(id, k) implies k == i by {
                if k < i {
                    assert(old(self).records()[k].id != old(self).records()[i as int].id);
                } else if k > i {
                    assert(old(self).records()[i as int].id != old(self).records()[k].id);
                }
            }
        }
        let mut trade = self.records[i].duplicate();
        let outcome = match trade.apply(event, acknowledged, now) {
            Ok(o) => o,
            Err(e) => {
                return Err(e);
            },
        };
        if trade.revision == u64::MAX {
            return Err(ErrorKind::StateConflict);
        }
        trade.revision = trade.revision + 1;
        let ghost stored = trade@;
        self.records[i] = trade;
        assert(self.records() =~= old(self).records().update(i as int, stored));
        Ok(outcome)
    }

    /// Removes the record of `id`. Says whether there was one.
    pub fn delete(&mut self, id: Uuid) -> (removed: bool)
        requires
            old(self).wf(),
        ensures
            final(self).wf(),
            removed == old(self).has(id),
            !final(self).has(id),
            removed ==> exists|i: int|
                old(self).at(id, i) && final(self).records() == old(self).records().remove(i),
            !removed ==> final(self).records() == old(self).records(),
    {
        match self.find(id) {
            Some(i) => {
                self.records.remove(i);
                assert(self.records() =~= old(self).records().remove(i as int));
                assert forall|k: int| !self.at(id, k) by {
                    if 0 <= k < self.records().len() {
                        if k < i {
                            assert(old(self).records()[k].id != old(self).records()[i as int].id);
                        } else {
                            assert(old(self).records()[i as int].id != old(self).records()[k + 1].id);
                        }
                    }
                }
                true
            },
            None => false,
        }
    }
}

} // verus!
