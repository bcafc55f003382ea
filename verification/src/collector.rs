//! The consumer side of the pipeline: one handler per kind of event, the
//! step that the main loop takes for each thing it receives, the start of a
//! run, and a run over what was delivered.

use crate::config::Config;
use crate::event::{EventType, Metadata};
use crate::input::{Event, Message, Pointer, RawEvent};
use crate::pipeline::{submission_view, State, StateView, Submission, SubmissionView};
use crate::utils::{now, ClockError};
use vstd::prelude::*;

verus! {

/// What a receive on the multiplexed stream ended with.
#[derive(Clone, Debug, PartialEq, Eq)]
pub enum Received {
    /// A message arrived within the idle timeout.
    Message(Message),
    /// Nothing arrived within the idle timeout.
    Timeout,
    /// The receive failed for another reason.
    Disconnected,
}

/// What the main loop has to do after a step.
#[derive(Clone, Debug, PartialEq, Eq)]
pub enum Action {
    /// Nothing: receive again.
    Continue,
    /// Take a metadata snapshot and hand it to
    /// [`State::handle_metadata_changed_event`].
    QueryMetadata,
    /// Transmit the submission once, then receive again.
    Transmit(Submission),
}

/// An [`Action`] as a mathematical value.
pub enum ActionView {
    Continue,
    QueryMetadata,
    Transmit(SubmissionView),
}

impl View for Action {
    type V = ActionView;

    open spec fn view(&self) -> ActionView {
        match self {
            Action::Continue => ActionView::Continue,
            Action::QueryMetadata => ActionView::QueryMetadata,
            Action::Transmit(submission) => ActionView::Transmit(submission@),
        }
    }
}

/// The action that follows a push or a submit.
pub open spec fn action_after(submission: Option<SubmissionView>) -> ActionView {
    match submission {
        Some(s) => ActionView::Transmit(s),
        None => ActionView::Continue,
    }
}

impl Received {
    /// A device event that arrived is well formed.
    pub open spec fn well_formed(&self) -> bool {
        match self {
            Received::Message(Message::X11EventMessage(event, _)) => event.well_formed(),
            _ => true,
        }
    }

    /// Whether a device event that arrived is well formed; `true` for
    /// everything else.
    pub fn is_well_formed(&self) -> (ok: bool)
        ensures
            ok == self.well_formed(),
    {
        match self {
            Received::Message(Message::X11EventMessage(event, _)) => event.is_well_formed(),
            _ => true,
        }
    }
}

impl StateView {
    /// One step of the main loop. A device event is pushed as its record, or
    /// passed over if it has none; a timer message asks for a snapshot; a
    /// timeout submits the buffer; a failed receive changes nothing.
    pub open spec fn step(self, received: Received) -> (StateView, ActionView) {
        match received {
            Received::Message(Message::MetadataChangedMessage) => (
                self,
                ActionView::QueryMetadata,
            ),
            Received::Message(Message::X11EventMessage(event, pointer)) => {
                match event.record_spec(pointer) {
                    Some(record) => {
                        let (next, submission) = self.push(record);
                        (next, action_after(submission))
                    },
                    None => (self, ActionView::Continue),
                }
            },
            Received::Timeout => {
                let (next, submission) = self.submit();
                (next, action_after(submission))
            },
            Received::Disconnected => (self, ActionView::Continue),
        }
    }

    /// The step can number the batch that it would hand out.
    pub open spec fn can_step(self, received: Received) -> bool {
        match received {
            Received::Message(Message::X11EventMessage(event, pointer)) => {
                event.record_spec(pointer).is_some() ==> self.can_push()
            },
            Received::Timeout => self.can_submit(),
            _ => true,
        }
    }
}

/// What the main loop holds once the outside work for a received item is
/// done. It is what was received, but for a timer message, in whose place
/// stand the snapshot that was taken for it and the time that was read then.
#[derive(Clone, Debug, PartialEq, Eq)]
pub enum Delivery {
    /// A device event, with the pointer position resolved for it.
    Event(Event, Pointer),
    /// The metadata timer fired: the snapshot taken for it, and its
    /// timestamp.
    Snapshot(Metadata, u64),
    /// Nothing arrived within the idle timeout.
    Timeout,
    /// The receive failed for another reason.
    Disconnected,
}

impl Delivery {
    /// A device event that was delivered is well formed.
    pub open spec fn well_formed(&self) -> bool {
        match self {
            Delivery::Event(event, _) => event.well_formed(),
            _ => true,
        }
    }

    /// Whether a device event that was delivered is well formed; `true` for
    /// everything else.
    pub fn is_well_formed(&self) -> (ok: bool)
        ensures
            ok == self.well_formed(),
    {
        match self {
            Delivery::Event(event, _) => event.is_well_formed(),
            _ => true,
        }
    }
}

impl StateView {
    /// What the pipeline does with one delivery. A device event and a
    /// timeout are handled as in a step; a snapshot is pushed as a
    /// metadata-changed record under its timestamp, in the place where the
    /// timer message stood; a failed receive changes nothing.
    pub open spec fn take(self, delivery: Delivery) -> (StateView, ActionView) {
        match delivery {
            Delivery::Event(event, pointer) => self.step(
                Received::Message(Message::X11EventMessage(event, pointer)),
            ),
            Delivery::Snapshot(metadata, timestamp) => {
                let (next, submission) = self.push(
                    EventType::MetadataChangedEvent(timestamp, metadata),
                );
                (next, action_after(submission))
            },
            Delivery::Timeout => self.step(Received::Timeout),
            Delivery::Disconnected => self.step(Received::Disconnected),
        }
    }

    /// The pipeline can number the batch that it would hand out on the
    /// delivery.
    pub open spec fn can_take(self, delivery: Delivery) -> bool {
        match delivery {
            Delivery::Event(event, pointer) => self.can_step(
                Received::Message(Message::X11EventMessage(event, pointer)),
            ),
            Delivery::Snapshot(..) => self.can_push(),
            Delivery::Timeout => self.can_submit(),
            Delivery::Disconnected => true,
        }
    }

    /// The pipeline after it took each of `deliveries`, first to last, and
    /// the actions that this asked for, in order.
    pub open spec fn run(self, deliveries: Seq<Delivery>) -> (StateView, Seq<ActionView>)
        decreases deliveries.len(),
    {
        if deliveries.len() == 0 {
            (self, Seq::empty())
        } else {
            let (before, actions) = self.run(deliveries.drop_last());
            let (next, action) = before.take(deliveries.last());
            (next, actions.push(action))
        }
    }

    /// The pipeline can number every batch that it would hand out while it
    /// takes `deliveries`, first to last.
    pub open spec fn can_run(self, deliveries: Seq<Delivery>) -> bool {
        forall|i: int|
            0 <= i < deliveries.len() ==> (#[trigger] self.run(deliveries.take(i))).0.can_take(
                deliveries[i],
            )
    }

    /// The pipeline at the start of a run, before anything is buffered.
    pub open spec fn fresh(
        config: Config,
        session_id: Seq<char>,
        epoch: u64,
        stream_id: Seq<char>,
    ) -> StateView {
        StateView {
            buffer: Seq::empty(),
            buffer_size_limit: config.buffer_size_limit.unwrap() as nat,
            api_key_name: config.api_key_name.unwrap()@,
            api_key_value: config.api_key_value.unwrap()@,
            submit_url: config.submit_url.unwrap()@,
            epoch,
            session_id,
            stream_id,
            sequence_number: 0,
            user_id: config.user_id.unwrap()@,
        }
    }
}

/// Every device event among `deliveries` is well formed.
pub open spec fn all_well_formed(deliveries: Seq<Delivery>) -> bool {
    forall|i: int| 0 <= i < deliveries.len() ==> (#[trigger] deliveries[i]).well_formed()
}

/// The views of the actions, in order.
pub open spec fn actions_view(actions: Seq<Action>) -> Seq<ActionView> {
    actions.map_values(|action: Action| action@)
}

/// Starts a run: makes the pipeline for what the clock read and the stream
/// identifier of the run, and pushes the first snapshot under the time that
/// the clock read for it, before anything is received. Where one of the two
/// readings is an error, the first of them comes back and no run starts.
pub fn start(
    config: Config,
    session_id: String,
    reading: Result<u64, ClockError>,
    stream_id: String,
    snapshot: Metadata,
    snapshot_reading: Result<u64, ClockError>,
) -> (out: Result<(State, Option<Submission>), ClockError>)
    requires
        config.buffer_size_limit.is_some(),
        config.api_key_name.is_some(),
        config.api_key_value.is_some(),
        config.submit_url.is_some(),
        config.user_id.is_some(),
    ensures
        match (reading, snapshot_reading) {
            (Ok(epoch), Ok(timestamp)) => {
                &&& out is Ok
                &&& (out->Ok_0.0@, submission_view(out->Ok_0.1)) == StateView::fresh(
                    config,
                    session_id@,
                    epoch,
                    stream_id@,
                ).push(EventType::MetadataChangedEvent(timestamp, snapshot))
                &&& out->Ok_0.0@.within_limit()
            },
            (Ok(_), Err(error)) => out is Err && out->Err_0 == error,
            (Err(error), _) => out is Err && out->Err_0 == error,
        },
{
    let mut state = match State::from_reading(config, session_id, reading, stream_id) {
        Ok(state) => state,
        Err(error) => {
            return Err(error);
        },
    };
    match state.record_metadata_at(snapshot, snapshot_reading) {
        Ok(submission) => Ok((state, submission)),
        Err(error) => Err(error),
    }
}

/// Takes each of `deliveries`, first to last, and returns the actions that
/// this asked for, in order. A snapshot is recorded where it was delivered,
/// between the events around it.
pub fn run(state: &mut State, deliveries: Vec<Delivery>) -> (actions: Vec<Action>)
    requires
        all_well_formed(deliveries@),
        old(state)@.can_run(deliveries@),
    ensures
        (final(state)@, actions_view(actions@)) == old(state)@.run(deliveries@),
{
    let mut actions: Vec<Action> = Vec::new();
    let ghost start = state@;
    let ghost all = deliveries@;
    proof {
        assert(all.take(0) =~= Seq::<Delivery>::empty());
        assert(actions_view(actions@) =~= Seq::<ActionView>::empty());
    }
    for item in it: deliveries
        invariant
            it.seq() == all,
            all_well_formed(all),
            start.can_run(all),
            (state@, actions_view(actions@)) == start.run(all.take(it.index() as int)),
    {
        let ghost done = actions_view(actions@);
        let ghost i = it.index() as int;
        proof {
            assert(all[i].well_formed());
            assert(start.run(all.take(i)).0.can_take(all[i]));
            assert(all.take(i + 1).drop_last() =~= all.take(i));
            assert(all.take(i + 1).last() == item);
        }
        let action = state.take(item);
        actions.push(action);
        proof {
            assert(actions_view(actions@) =~= done.push(action@));
        }
    }
    proof {
        assert(all.take(all.len() as int) =~= all);
    }
    actions
}

/// The action that follows a push or a submit.
fn action_of(submission: Option<Submission>) -> (action: Action)
    ensures
        action@ == action_after(submission_view(submission)),
{
    match submission {
        Some(s) => Action::Transmit(s),
        None => Action::Continue,
    }
}

impl State {
    /// Pushes the motion record of a raw motion event with two axes.
    pub fn handle_raw_motion_event(&mut self, event: RawEvent, pointer: Pointer) -> (submission:
        Option<Submission>)
        requires
            event.has_axes(2),
            old(self)@.can_push(),
        ensures
            (final(self)@, submission_view(submission)) == old(self)@.push(
                event.motion_record(pointer),
            ),
            final(self)@.within_limit(),
    {
        let record = event.to_motion(pointer);
        self.push(record)
    }

    /// Pushes the scroll record of a raw motion event with one axis.
    pub fn handle_scroll_event(&mut self, event: RawEvent, pointer: Pointer) -> (submission: Option<
        Submission,
    >)
        requires
            event.has_axes(1),
            old(self)@.can_push(),
        ensures
            (final(self)@, submission_view(submission)) == old(self)@.push(
                event.scroll_record(pointer),
            ),
            final(self)@.within_limit(),
    {
        let record = event.to_scroll(pointer);
        self.push(record)
    }

    /// Pushes the record of a touch-begin event.
    pub fn handle_touch_begin_event(&mut self, event: RawEvent, pointer: Pointer) -> (submission:
        Option<Submission>)
        requires
            event.has_axes(2),
            old(self)@.can_push(),
        ensures
            (final(self)@, submission_view(submission)) == old(self)@.push(
                event.touch_begin_record(pointer),
            ),
            final(self)@.within_limit(),
    {
        let record = event.to_touch_begin(pointer);
        self.push(record)
    }

    /// Pushes the record of a touch-update event.
    pub fn handle_touch_update_event(&mut self, event: RawEvent, pointer: Pointer) -> (submission:
        Option<Submission>)
        requires
            event.has_axes(2),
            old(self)@.can_push(),
        ensures
            (final(self)@, submission_view(submission)) == old(self)@.push(
                event.touch_update_record(pointer),
            ),
            final(self)@.within_limit(),
    {
        let record = event.to_touch_update(pointer);
        self.push(record)
    }

    /// Pushes the record of a touch-end event.
    pub fn handle_touch_end_event(&mut self, event: RawEvent, pointer: Pointer) -> (submission:
        Option<Submission>)
        requires
            event.has_axes(2),
            old(self)@.can_push(),
        ensures
            (final(self)@, submission_view(submission)) == old(self)@.push(
                event.touch_end_record(pointer),
            ),
            final(self)@.within_limit(),
    {
        let record = event.to_touch_end(pointer);
        self.push(record)
    }

    /// Pushes the record of a button-press event.
    pub fn handle_button_press_event(&mut self, event: RawEvent, pointer: Pointer) -> (submission:
        Option<Submission>)
        requires
            old(self)@.can_push(),
        ensures
            (final(self)@, submission_view(submission)) == old(self)@.push(
                event.button_press_record(pointer),
            ),
            final(self)@.within_limit(),
    {
        let record = event.to_button_press(pointer);
        self.push(record)
    }

    /// Pushes the record of a button-release event.
    pub fn handle_button_release_event(&mut self, event: RawEvent, pointer: Pointer) -> (submission:
        Option<Submission>)
        requires
            old(self)@.can_push(),
        ensures
            (final(self)@, submission_view(submission)) == old(self)@.push(
                event.button_release_record(pointer),
            ),
            final(self)@.within_limit(),
    {
        let record = event.to_button_release(pointer);
        self.push(record)
    }

    /// Pushes a metadata-changed record that carries `metadata` under the
    /// given timestamp.
    pub fn record_metadata(&mut self, metadata: Metadata, timestamp: u64) -> (submission: Option<
        Submission,
    >)
        requires
            old(self)@.can_push(),
        ensures
            (final(self)@, submission_view(submission)) == old(self)@.push(
                EventType::MetadataChangedEvent(timestamp, metadata),
            ),
            final(self)@.within_limit(),
    {
        self.push(EventType::MetadataChangedEvent(timestamp, metadata))
    }

    /// Pushes a metadata-changed record that carries `metadata` under the
    /// present time. Where the clock gives no timestamp, nothing is pushed.
    pub fn handle_metadata_changed_event(&mut self, metadata: Metadata) -> (outcome: Result<
        Option<Submission>,
        ClockError,
    >)
        requires
            old(self)@.can_push(),
        ensures
            outcome is Err ==> final(self)@ == old(self)@,
            outcome matches Ok(submission) ==> exists|timestamp: u64|
                (final(self)@, submission_view(submission)) == old(self)@.push(
                    EventType::MetadataChangedEvent(timestamp, metadata),
                ),
    {
        let reading = now();
        self.record_metadata_at(metadata, reading)
    }

    /// Pushes a metadata-changed record that carries `metadata` under the
    /// time that the clock read. Where the clock gave an error instead, that
    /// error comes back and the pipeline stays as it is.
    pub fn record_metadata_at(
        &mut self,
        metadata: Metadata,
        reading: Result<u64, ClockError>,
    ) -> (outcome: Result<Option<Submission>, ClockError>)
        requires
            reading is Ok ==> old(self)@.can_push(),
        ensures
            match reading {
                Ok(timestamp) => {
                    &&& outcome is Ok
                    &&& (final(self)@, submission_view(outcome->Ok_0)) == old(self)@.push(
                        EventType::MetadataChangedEvent(timestamp, metadata),
                    )
                    &&& final(self)@.within_limit()
                },
                Err(error) => {
                    &&& outcome is Err
                    &&& outcome->Err_0 == error
                    &&& final(self)@ == old(self)@
                },
            },
    {
        match reading {
            Ok(timestamp) => Ok(self.record_metadata(metadata, timestamp)),
            Err(error) => Err(error),
        }
    }

    /// Takes one step of the main loop for what was received, and says what
    /// the loop has to do before it receives again.
    pub fn step(&mut self, received: Received) -> (action: Action)
        requires
            received.well_formed(),
            old(self)@.can_step(received),
        ensures
            (final(self)@, action@) == old(self)@.step(received),
    {
        match received {
            Received::Message(Message::MetadataChangedMessage) => Action::QueryMetadata,
            Received::Message(Message::X11EventMessage(event, pointer)) => {
                match event.record(pointer) {
                    Some(record) => {
                        let submission = self.push(record);
                        action_of(submission)
                    },
                    None => Action::Continue,
                }
            },
            Received::Timeout => {
                let submission = self.submit();
                action_of(submission)
            },
            Received::Disconnected => Action::Continue,
        }
    }

    /// Whether the pipeline can number the batch that a step for `received`
    /// would hand out.
    pub fn is_ready(&self, received: &Received) -> (ok: bool)
        ensures
            ok == self@.can_step(*received),
    {
        match received {
            Received::Message(Message::X11EventMessage(event, pointer)) => {
                !event.has_record(*pointer) || self.buffer_len() < self.buffer_size_limit()
                    || self.sequence_number() < u64::MAX
            },
            Received::Timeout => self.buffer_len() == 0 || self.sequence_number() < u64::MAX,
            _ => true,
        }
    }

    /// Takes one delivery, and says what the loop has to do before it
    /// receives again.
    pub fn take(&mut self, delivery: Delivery) -> (action: Action)
        requires
            delivery.well_formed(),
            old(self)@.can_take(delivery),
        ensures
            (final(self)@, action@) == old(self)@.take(delivery),
    {
        match delivery {
            Delivery::Event(event, pointer) => self.step(
                Received::Message(Message::X11EventMessage(event, pointer)),
            ),
            Delivery::Snapshot(metadata, timestamp) => {
                let submission = self.record_metadata(metadata, timestamp);
                action_of(submission)
            },
            Delivery::Timeout => self.step(Received::Timeout),
            Delivery::Disconnected => self.step(Received::Disconnected),
        }
    }
}

} // verus!
