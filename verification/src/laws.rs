//! What holds of every run of the pipeline, stated over its mathematical
//! model and proved.

use crate::collector::{action_after, ActionView, Delivery, Received};
use crate::event::{EventType, Metadata};
use crate::input::Message;
use crate::pipeline::{StateView, SubmissionView};
use vstd::prelude::*;

verus! {

/// One operation on the pipeline.
pub enum Op {
    /// An event is pushed.
    Push(EventType),
    /// A submit is asked for, as on an idle timeout.
    Flush,
}

impl StateView {
    /// The pipeline after one operation, and what it handed out.
    pub open spec fn apply(self, op: Op) -> (StateView, Option<SubmissionView>) {
        match op {
            Op::Push(event) => self.push(event),
            Op::Flush => self.submit(),
        }
    }

    /// The pipeline after the operations `ops`, first to last.
    pub open spec fn after(self, ops: Seq<Op>) -> StateView
        decreases ops.len(),
    {
        if ops.len() == 0 {
            self
        } else {
            self.after(ops.drop_last()).apply(ops.last()).0
        }
    }

    /// The submissions handed out during the operations `ops`, in order.
    pub open spec fn sent(self, ops: Seq<Op>) -> Seq<SubmissionView>
        decreases ops.len(),
    {
        if ops.len() == 0 {
            Seq::empty()
        } else {
            let earlier = self.sent(ops.drop_last());
            match self.after(ops.drop_last()).apply(ops.last()).1 {
                Some(submission) => earlier.push(submission),
                None => earlier,
            }
        }
    }
}

/// The events that `ops` push, in order.
pub open spec fn pushed(ops: Seq<Op>) -> Seq<EventType>
    decreases ops.len(),
{
    if ops.len() == 0 {
        Seq::empty()
    } else {
        match ops.last() {
            Op::Push(event) => pushed(ops.drop_last()).push(event),
            Op::Flush => pushed(ops.drop_last()),
        }
    }
}

/// The chunks of `sent`, one after the other.
pub open spec fn chunks(sent: Seq<SubmissionView>) -> Seq<EventType>
    decreases sent.len(),
{
    if sent.len() == 0 {
        Seq::empty()
    } else {
        chunks(sent.drop_last()) + sent.last().envelope.chunk
    }
}

/// Whatever the buffer held before, after a push it holds no more events
/// than the limit: a push that exceeds the limit empties the buffer at once.
pub proof fn lemma_push_restores_limit(s: StateView, event: EventType)
    ensures
        s.push(event).0.within_limit(),
        s.within_limit() ==> s.appended(event).buffer.len() <= s.buffer_size_limit + 1,
{
}

/// A pipeline that starts within its limit is within its limit after any
/// operations.
pub proof fn lemma_buffer_within_limit(s: StateView, ops: Seq<Op>)
    requires
        s.within_limit(),
    ensures
        s.after(ops).within_limit(),
    decreases ops.len(),
{
    if ops.len() > 0 {
        lemma_buffer_within_limit(s, ops.drop_last());
    }
}

/// Submitting an empty buffer changes nothing and hands nothing out.
pub proof fn lemma_submit_empty_is_noop(s: StateView)
    requires
        s.buffer.len() == 0,
    ensures
        s.submit() == (s, None::<SubmissionView>),
{
}

/// A submit right after a submit changes nothing and hands nothing out.
pub proof fn lemma_submit_twice(s: StateView)
    ensures
        s.submit().0.submit() == (s.submit().0, None::<SubmissionView>),
{
}

/// A submission is handed out exactly when the buffer is not empty; it then
/// carries the whole buffer under the sequence number of that moment, and
/// the number advances by one.
pub proof fn lemma_submit_nonempty(s: StateView)
    requires
        s.buffer.len() > 0,
    ensures
        s.submit().1 == Some(s.submission_of(s.buffer)),
        s.submit().0.buffer.len() == 0,
        s.submit().0.sequence_number == s.sequence_number + 1,
{
}

/// During any operations only the buffer and the sequence number change,
/// and every submission carries the identity of the pipeline.
pub proof fn lemma_identity_kept(s: StateView, ops: Seq<Op>)
    ensures
        s.after(ops) == (StateView {
            buffer: s.after(ops).buffer,
            sequence_number: s.after(ops).sequence_number,
            ..s
        }),
        forall|i: int|
            0 <= i < s.sent(ops).len() ==> #[trigger] s.sent(ops)[i] == s.submission_of(
                s.sent(ops)[i].envelope.chunk,
            ).renumbered(s.sent(ops)[i].envelope.sequence_number),
    decreases ops.len(),
{
    if ops.len() > 0 {
        let earlier = ops.drop_last();
        lemma_identity_kept(s, earlier);
        let before = s.after(earlier);
        let sent = s.sent(ops);
        assert forall|i: int| 0 <= i < sent.len() implies #[trigger] sent[i] == s.submission_of(
            sent[i].envelope.chunk,
        ).renumbered(sent[i].envelope.sequence_number) by {
            if i < s.sent(earlier).len() {
                assert(sent[i] == s.sent(earlier)[i]);
            } else {
                assert(before.apply(ops.last()).1 == Some(sent[i]));
            }
        }
    }
}

impl SubmissionView {
    /// The submission under another sequence number.
    pub open spec fn renumbered(self, sequence_number: nat) -> SubmissionView {
        SubmissionView {
            envelope: crate::pipeline::EnvelopeView { sequence_number, ..self.envelope },
            ..self
        }
    }
}

/// The submissions of a run are numbered consecutively from the sequence
/// number that the pipeline started with, and the pipeline ends with the
/// number after the last.
pub proof fn lemma_sequence_numbers_consecutive(s: StateView, ops: Seq<Op>)
    ensures
        s.after(ops).sequence_number == s.sequence_number + s.sent(ops).len(),
        forall|i: int|
            0 <= i < s.sent(ops).len() ==> (#[trigger] s.sent(ops)[i]).envelope.sequence_number
                == s.sequence_number + i,
    decreases ops.len(),
{
    if ops.len() > 0 {
        lemma_sequence_numbers_consecutive(s, ops.drop_last());
    }
}

/// Of two submissions that follow each other, the second carries the
/// sequence number of the first plus one.
pub proof fn lemma_next_sequence_number(s: StateView, ops: Seq<Op>, i: int)
    requires
        0 <= i,
        i + 1 < s.sent(ops).len(),
    ensures
        s.sent(ops)[i + 1].envelope.sequence_number == s.sent(ops)[i].envelope.sequence_number + 1,
{
    lemma_sequence_numbers_consecutive(s, ops);
}

/// No submission of a run is empty.
pub proof fn lemma_sent_nonempty(s: StateView, ops: Seq<Op>)
    ensures
        forall|i: int|
            0 <= i < s.sent(ops).len() ==> (#[trigger] s.sent(ops)[i]).envelope.chunk.len() > 0,
    decreases ops.len(),
{
    if ops.len() > 0 {
        let earlier = ops.drop_last();
        lemma_sent_nonempty(s, earlier);
        let before = s.after(earlier);
        let sent = s.sent(ops);
        assert forall|i: int| 0 <= i < sent.len() implies (#[trigger] sent[i]).envelope.chunk.len()
            > 0 by {
            if i < s.sent(earlier).len() {
                assert(sent[i] == s.sent(earlier)[i]);
            } else {
                assert(before.apply(ops.last()).1 == Some(sent[i]));
            }
        }
    }
}

/// Nothing is lost, repeated or reordered: the chunks handed out during a
/// run, followed by what is left in the buffer, are what the buffer held at
/// the start followed by the pushed events in the order of the pushes.
pub proof fn lemma_order_preserved(s: StateView, ops: Seq<Op>)
    ensures
        chunks(s.sent(ops)) + s.after(ops).buffer == s.buffer + pushed(ops),
    decreases ops.len(),
{
    if ops.len() == 0 {
        assert(chunks(s.sent(ops)) + s.after(ops).buffer =~= s.buffer + pushed(ops));
    } else {
        let earlier = ops.drop_last();
        lemma_order_preserved(s, earlier);
        let before = s.after(earlier);
        let sent_before = s.sent(earlier);
        let whole = chunks(sent_before) + before.buffer;
        assert(whole == s.buffer + pushed(earlier));
        match ops.last() {
            Op::Push(event) => {
                let grown = before.appended(event);
                assert(chunks(sent_before) + grown.buffer =~= whole.push(event));
                assert(s.buffer + pushed(ops) =~= whole.push(event));
                if grown.buffer.len() > grown.buffer_size_limit {
                    let out = grown.submission_of(grown.buffer);
                    assert(s.sent(ops) == sent_before.push(out));
                    assert(s.sent(ops).drop_last() =~= sent_before);
                    assert(chunks(s.sent(ops)) == chunks(sent_before) + grown.buffer);
                    assert(chunks(s.sent(ops)) + s.after(ops).buffer =~= chunks(sent_before)
                        + grown.buffer);
                }
            },
            Op::Flush => {
                assert(pushed(ops) == pushed(earlier));
                if before.buffer.len() > 0 {
                    let out = before.submission_of(before.buffer);
                    assert(s.sent(ops) == sent_before.push(out));
                    assert(s.sent(ops).drop_last() =~= sent_before);
                    assert(chunks(s.sent(ops)) == chunks(sent_before) + before.buffer);
                    assert(chunks(s.sent(ops)) + s.after(ops).buffer =~= whole);
                }
            },
        }
    }
}

/// What a delivery does to the pipeline: a device event that has a record
/// pushes it, a snapshot pushes a metadata-changed record under its
/// timestamp, a timeout asks for a submit, anything else does nothing.
pub open spec fn op_of(delivery: Delivery) -> Option<Op> {
    match delivery {
        Delivery::Event(event, pointer) => match event.record_spec(pointer) {
            Some(record) => Some(Op::Push(record)),
            None => None,
        },
        Delivery::Snapshot(metadata, timestamp) => Some(
            Op::Push(EventType::MetadataChangedEvent(timestamp, metadata)),
        ),
        Delivery::Timeout => Some(Op::Flush),
        Delivery::Disconnected => None,
    }
}

/// The operations that the deliveries stand for, in order.
pub open spec fn ops_of(deliveries: Seq<Delivery>) -> Seq<Op>
    decreases deliveries.len(),
{
    if deliveries.len() == 0 {
        Seq::empty()
    } else {
        match op_of(deliveries.last()) {
            Some(op) => ops_of(deliveries.drop_last()).push(op),
            None => ops_of(deliveries.drop_last()),
        }
    }
}

/// The submissions that the actions ask to transmit, in order.
pub open spec fn transmitted(actions: Seq<ActionView>) -> Seq<SubmissionView>
    decreases actions.len(),
{
    if actions.len() == 0 {
        Seq::empty()
    } else {
        match actions.last() {
            ActionView::Transmit(submission) => transmitted(actions.drop_last()).push(submission),
            _ => transmitted(actions.drop_last()),
        }
    }
}

/// A run over deliveries does to the pipeline what the operations do that
/// the deliveries stand for, and asks to transmit exactly the submissions
/// that those operations hand out. So what holds of every run of operations
/// holds of every run over deliveries, snapshots included.
pub proof fn lemma_run_is_ops(s: StateView, deliveries: Seq<Delivery>)
    ensures
        s.run(deliveries).0 == s.after(ops_of(deliveries)),
        transmitted(s.run(deliveries).1) == s.sent(ops_of(deliveries)),
    decreases deliveries.len(),
{
    if deliveries.len() > 0 {
        let earlier = deliveries.drop_last();
        lemma_run_is_ops(s, earlier);
        let (before, actions) = s.run(earlier);
        let (next, action) = before.take(deliveries.last());
        assert(s.run(deliveries) == (next, actions.push(action)));
        assert(actions.push(action).drop_last() =~= actions);
        assert(actions.push(action).last() == action);
        match op_of(deliveries.last()) {
            Some(op) => {
                let ops = ops_of(earlier).push(op);
                assert(ops_of(deliveries) == ops);
                assert(ops.drop_last() =~= ops_of(earlier));
                assert(ops.last() == op);
                assert(before.apply(op).0 == next);
            },
            None => {},
        }
    }
}

/// What the main loop does at a timer message is one snapshot delivery: the
/// step changes nothing and asks for a snapshot, and recording the snapshot
/// under the time read for it is the push that the delivery makes.
pub proof fn lemma_tick_is_snapshot(s: StateView, metadata: Metadata, timestamp: u64)
    ensures
        s.step(Received::Message(Message::MetadataChangedMessage)) == (
            s,
            ActionView::QueryMetadata,
        ),
        s.take(Delivery::Snapshot(metadata, timestamp)) == (
            s.push(EventType::MetadataChangedEvent(timestamp, metadata)).0,
            action_after(s.push(EventType::MetadataChangedEvent(timestamp, metadata)).1),
        ),
        op_of(Delivery::Snapshot(metadata, timestamp)) == Some(
            Op::Push(EventType::MetadataChangedEvent(timestamp, metadata)),
        ),
{
}

/// The operations of two runs of deliveries, one after the other, are the
/// operations of the first followed by those of the second.
pub proof fn lemma_ops_of_concat(first: Seq<Delivery>, second: Seq<Delivery>)
    ensures
        ops_of(first + second) == ops_of(first) + ops_of(second),
    decreases second.len(),
{
    if second.len() == 0 {
        assert(first + second =~= first);
        assert(ops_of(first) + ops_of(second) =~= ops_of(first));
    } else {
        let whole = first + second;
        assert(whole.drop_last() =~= first + second.drop_last());
        assert(whole.last() == second.last());
        lemma_ops_of_concat(first, second.drop_last());
        match op_of(second.last()) {
            Some(op) => {
                assert(ops_of(first) + ops_of(second.drop_last()).push(op) =~= (ops_of(first)
                    + ops_of(second.drop_last())).push(op));
            },
            None => {},
        }
    }
}

/// The events that two runs of operations push, one after the other, are
/// the events of the first followed by those of the second.
pub proof fn lemma_pushed_concat(first: Seq<Op>, second: Seq<Op>)
    ensures
        pushed(first + second) == pushed(first) + pushed(second),
    decreases second.len(),
{
    if second.len() == 0 {
        assert(first + second =~= first);
        assert(pushed(first) + pushed(second) =~= pushed(first));
    } else {
        let whole = first + second;
        assert(whole.drop_last() =~= first + second.drop_last());
        assert(whole.last() == second.last());
        lemma_pushed_concat(first, second.drop_last());
        match second.last() {
            Op::Push(event) => {
                assert(pushed(first) + pushed(second.drop_last()).push(event) =~= (pushed(first)
                    + pushed(second.drop_last())).push(event));
            },
            Op::Flush => {},
        }
    }
}

/// A snapshot keeps its place: among the records that a run over
/// deliveries pushes, the record of a snapshot stands after the records of
/// everything delivered before it and before the records of everything
/// delivered after it. With the order of what is handed out, this puts a
/// snapshot taken between two events between their records in the batch.
pub proof fn lemma_snapshot_keeps_its_place(
    before: Seq<Delivery>,
    metadata: Metadata,
    timestamp: u64,
    after: Seq<Delivery>,
)
    ensures
        pushed(ops_of(before + seq![Delivery::Snapshot(metadata, timestamp)] + after)) == pushed(
            ops_of(before),
        ) + seq![EventType::MetadataChangedEvent(timestamp, metadata)] + pushed(ops_of(after)),
{
    let tick = seq![Delivery::Snapshot(metadata, timestamp)];
    let record = EventType::MetadataChangedEvent(timestamp, metadata);
    let push = seq![Op::Push(record)];
    assert(tick.drop_last().len() == 0);
    assert(ops_of(tick.drop_last()) =~= Seq::<Op>::empty());
    assert(tick.last() == Delivery::Snapshot(metadata, timestamp));
    assert(ops_of(tick) =~= push);
    assert(push.drop_last().len() == 0);
    assert(pushed(push.drop_last()) =~= Seq::<EventType>::empty());
    assert(push.last() == Op::Push(record));
    assert(pushed(push) =~= seq![record]);
    lemma_ops_of_concat(before, tick);
    lemma_ops_of_concat(before + tick, after);
    lemma_pushed_concat(ops_of(before), ops_of(tick));
    lemma_pushed_concat(ops_of(before) + ops_of(tick), ops_of(after));
}

/// One delivery advances the sequence number by one at most.
pub proof fn lemma_take_advances_by_one(s: StateView, delivery: Delivery)
    ensures
        s.sequence_number <= s.take(delivery).0.sequence_number <= s.sequence_number + 1,
{
}

/// A run over deliveries advances the sequence number by one for each
/// delivery at most.
pub proof fn lemma_run_advances(s: StateView, deliveries: Seq<Delivery>)
    ensures
        s.run(deliveries).0.sequence_number <= s.sequence_number + deliveries.len(),
    decreases deliveries.len(),
{
    if deliveries.len() > 0 {
        lemma_run_advances(s, deliveries.drop_last());
        lemma_take_advances_by_one(s.run(deliveries.drop_last()).0, deliveries.last());
    }
}

/// A pipeline whose sequence number leaves room for one batch for each
/// delivery can run over the deliveries.
pub proof fn lemma_room_suffices(s: StateView, deliveries: Seq<Delivery>)
    requires
        s.sequence_number + deliveries.len() <= u64::MAX,
    ensures
        s.can_run(deliveries),
{
    assert forall|i: int| 0 <= i < deliveries.len() implies (#[trigger] s.run(
        deliveries.take(i),
    )).0.can_take(deliveries[i]) by {
        lemma_run_advances(s, deliveries.take(i));
    }
}

/// A device event, a timeout and a failed receive are delivered as they
/// were received.
pub proof fn lemma_take_is_step(s: StateView, delivery: Delivery)
    ensures
        match delivery {
            Delivery::Event(event, pointer) => s.take(delivery) == s.step(
                Received::Message(Message::X11EventMessage(event, pointer)),
            ),
            Delivery::Timeout => s.take(delivery) == s.step(Received::Timeout),
            Delivery::Disconnected => s.take(delivery) == s.step(Received::Disconnected),
            Delivery::Snapshot(..) => true,
        },
{
}

/// Every one of `ops` is a push.
pub open spec fn all_pushes(ops: Seq<Op>) -> bool {
    forall|i: int| 0 <= i < ops.len() ==> (#[trigger] ops[i]) is Push
}

/// While events keep arriving and the buffer stays within its limit,
/// nothing is handed out: the events gather in the buffer in their order
/// and the sequence number stays.
pub proof fn lemma_no_flush_below_limit(s: StateView, ops: Seq<Op>)
    requires
        all_pushes(ops),
        s.buffer.len() + ops.len() <= s.buffer_size_limit,
    ensures
        s.sent(ops).len() == 0,
        s.after(ops).buffer == s.buffer + pushed(ops),
        s.after(ops).sequence_number == s.sequence_number,
    decreases ops.len(),
{
    if ops.len() == 0 {
        assert(s.buffer + pushed(ops) =~= s.buffer);
    } else {
        let earlier = ops.drop_last();
        assert(all_pushes(earlier)) by {
            assert forall|i: int| 0 <= i < earlier.len() implies (#[trigger] earlier[i]) is Push by {
                assert(earlier[i] == ops[i]);
            }
        }
        lemma_no_flush_below_limit(s, earlier);
        lemma_pushed_len(earlier);
        lemma_identity_kept(s, earlier);
        let before = s.after(earlier);
        assert(ops.last() == ops[ops.len() - 1]);
        match ops.last() {
            Op::Push(event) => {
                assert(before.buffer.len() == s.buffer.len() + earlier.len());
                assert(before.push(event) == (before.appended(event), None::<SubmissionView>));
                assert(pushed(ops) == pushed(earlier).push(event));
                assert(before.buffer.push(event) =~= s.buffer + pushed(earlier).push(event));
            },
            Op::Flush => {},
        }
    }
}

/// A run of pushes pushes as many events as it has operations.
pub proof fn lemma_pushed_len(ops: Seq<Op>)
    requires
        all_pushes(ops),
    ensures
        pushed(ops).len() == ops.len(),
    decreases ops.len(),
{
    if ops.len() > 0 {
        let earlier = ops.drop_last();
        assert forall|i: int| 0 <= i < earlier.len() implies (#[trigger] earlier[i]) is Push by {
            assert(earlier[i] == ops[i]);
        }
        lemma_pushed_len(earlier);
        assert(ops.last() == ops[ops.len() - 1]);
    }
}

/// When nothing arrives within the idle timeout and the buffer holds events,
/// the step hands out exactly those events and leaves the buffer empty; with
/// an empty buffer it does nothing.
pub proof fn lemma_idle_flush(s: StateView)
    ensures
        s.buffer.len() > 0 ==> s.step(Received::Timeout) == (
            s.emptied().advanced(),
            ActionView::Transmit(s.submission_of(s.buffer)),
        ),
        s.buffer.len() == 0 ==> s.step(Received::Timeout) == (s, ActionView::Continue),
{
}

} // verus!
