//! The buffering state machine: it appends event records to a bounded buffer
//! and hands the buffer out as a numbered submission when it overflows or
//! when it is asked to.

use crate::config::Config;
use crate::event::EventType;
use crate::utils::{new_stream_id, now, ClockError};
use vstd::prelude::*;

verus! {

/// What is posted to the collection endpoint: the session's identity, the
/// number of the batch, and the batch.
#[derive(Clone, Debug, PartialEq, Eq)]
pub struct Envelope {
    /// Start of the run, in milliseconds since the Unix epoch.
    pub epoch: u64,
    pub session_id: String,
    pub stream_id: String,
    pub sequence_number: u64,
    pub user_id: String,
    /// The events of the batch, oldest first.
    pub chunk: Vec<EventType>,
}

/// One transmission to make: where to post, the credential header, the body.
#[derive(Clone, Debug, PartialEq, Eq)]
pub struct Submission {
    pub submit_url: String,
    pub api_key_name: String,
    pub api_key_value: String,
    pub envelope: Envelope,
}

/// An [`Envelope`] as a mathematical value.
pub struct EnvelopeView {
    pub epoch: u64,
    pub session_id: Seq<char>,
    pub stream_id: Seq<char>,
    pub sequence_number: nat,
    pub user_id: Seq<char>,
    pub chunk: Seq<EventType>,
}

/// A [`Submission`] as a mathematical value.
pub struct SubmissionView {
    pub submit_url: Seq<char>,
    pub api_key_name: Seq<char>,
    pub api_key_value: Seq<char>,
    pub envelope: EnvelopeView,
}

/// The pipeline as a mathematical value.
pub struct StateView {
    pub buffer: Seq<EventType>,
    pub buffer_size_limit: nat,
    pub api_key_name: Seq<char>,
    pub api_key_value: Seq<char>,
    pub submit_url: Seq<char>,
    pub epoch: u64,
    pub session_id: Seq<char>,
    pub stream_id: Seq<char>,
    pub sequence_number: nat,
    pub user_id: Seq<char>,
}

impl View for Envelope {
    type V = EnvelopeView;

    open spec fn view(&self) -> EnvelopeView {
        EnvelopeView {
            epoch: self.epoch,
            session_id: self.session_id@,
            stream_id: self.stream_id@,
            sequence_number: self.sequence_number as nat,
            user_id: self.user_id@,
            chunk: self.chunk@,
        }
    }
}

impl View for Submission {
    type V = SubmissionView;

    open spec fn view(&self) -> SubmissionView {
        SubmissionView {
            submit_url: self.submit_url@,
            api_key_name: self.api_key_name@,
            api_key_value: self.api_key_value@,
            envelope: self.envelope@,
        }
    }
}

/// The view of an optional submission.
pub open spec fn submission_view(s: Option<Submission>) -> Option<SubmissionView> {
    match s {
        Some(submission) => Some(submission@),
        None => None,
    }
}

impl StateView {
    /// The buffer holds no more events than the limit.
    pub open spec fn within_limit(self) -> bool {
        self.buffer.len() <= self.buffer_size_limit
    }

    /// The submission that carries `chunk` under the current sequence number.
    pub open spec fn submission_of(self, chunk: Seq<EventType>) -> SubmissionView {
        SubmissionView {
            submit_url: self.submit_url,
            api_key_name: self.api_key_name,
            api_key_value: self.api_key_value,
            envelope: EnvelopeView {
                epoch: self.epoch,
                session_id: self.session_id,
                stream_id: self.stream_id,
                sequence_number: self.sequence_number,
                user_id: self.user_id,
                chunk,
            },
        }
    }

    /// The pipeline with an empty buffer and everything else as it is.
    pub open spec fn emptied(self) -> StateView {
        StateView { buffer: Seq::empty(), ..self }
    }

    /// The pipeline with its sequence number advanced by one.
    pub open spec fn advanced(self) -> StateView {
        StateView { sequence_number: self.sequence_number + 1, ..self }
    }

    /// A submit: with an empty buffer nothing changes and nothing is sent;
    /// otherwise the whole buffer leaves under the current sequence number,
    /// which then advances by one.
    pub open spec fn submit(self) -> (StateView, Option<SubmissionView>) {
        if self.buffer.len() == 0 {
            (self, None)
        } else {
            (self.emptied().advanced(), Some(self.submission_of(self.buffer)))
        }
    }

    /// A submit can number the batch that it would hand out.
    pub open spec fn can_submit(self) -> bool {
        self.buffer.len() > 0 ==> self.sequence_number < u64::MAX
    }

    /// A push can number the batch that it would hand out.
    pub open spec fn can_push(self) -> bool {
        self.buffer.len() >= self.buffer_size_limit ==> self.sequence_number < u64::MAX
    }

    /// The pipeline with `event` appended to the buffer.
    pub open spec fn appended(self, event: EventType) -> StateView {
        StateView { buffer: self.buffer.push(event), ..self }
    }

    /// A push: the event is appended, and if the buffer then holds more
    /// events than the limit, it is submitted at once.
    pub open spec fn push(self, event: EventType) -> (StateView, Option<SubmissionView>) {
        let grown = self.appended(event);
        if grown.buffer.len() > grown.buffer_size_limit {
            grown.submit()
        } else {
            (grown, None)
        }
    }
}

/// The pipeline: the buffer, its limit, where and how to submit, and the
/// session under which batches are numbered.
pub struct State {
    buffer: Vec<EventType>,
    buffer_size_limit: usize,
    api_key_name: String,
    api_key_value: String,
    submit_url: String,
    epoch: u64,
    session_id: String,
    stream_id: String,
    sequence_number: u64,
    user_id: String,
}

impl View for State {
    type V = StateView;

    closed spec fn view(&self) -> StateView {
        StateView {
            buffer: self.buffer@,
            buffer_size_limit: self.buffer_size_limit as nat,
            api_key_name: self.api_key_name@,
            api_key_value: self.api_key_value@,
            submit_url: self.submit_url@,
            epoch: self.epoch,
            session_id: self.session_id@,
            stream_id: self.stream_id@,
            sequence_number: self.sequence_number as nat,
            user_id: self.user_id@,
        }
    }
}

impl State {
    /// A pipeline with an empty buffer and sequence number 0.
    pub fn with_session(
        buffer_size_limit: usize,
        api_key_name: String,
        api_key_value: String,
        submit_url: String,
        user_id: String,
        epoch: u64,
        session_id: String,
        stream_id: String,
    ) -> (state: State)
        ensures
            state@ == (StateView {
                buffer: Seq::empty(),
                buffer_size_limit: buffer_size_limit as nat,
                api_key_name: api_key_name@,
                api_key_value: api_key_value@,
                submit_url: submit_url@,
                epoch,
                session_id: session_id@,
                stream_id: stream_id@,
                sequence_number: 0,
                user_id: user_id@,
            }),
            state@.within_limit(),
    {
        State {
            buffer: Vec::new(),
            buffer_size_limit,
            api_key_name,
            api_key_value,
            submit_url,
            epoch,
            session_id,
            stream_id,
            sequence_number: 0,
            user_id,
        }
    }

    /// A pipeline for a new run: the buffer is empty, the sequence number is
    /// 0, the run starts now and gets a fresh stream identifier of 36
    /// characters. Fails where the clock gives no timestamp.
    pub fn new(config: Config, session_id: String) -> (state: Result<State, ClockError>)
        requires
            config.buffer_size_limit.is_some(),
            config.api_key_name.is_some(),
            config.api_key_value.is_some(),
            config.submit_url.is_some(),
            config.user_id.is_some(),
        ensures
            state matches Ok(s) ==> {
                &&& s@ == (StateView {
                    buffer: Seq::empty(),
                    buffer_size_limit: config.buffer_size_limit.unwrap() as nat,
                    api_key_name: config.api_key_name.unwrap()@,
                    api_key_value: config.api_key_value.unwrap()@,
                    submit_url: config.submit_url.unwrap()@,
                    epoch: s@.epoch,
                    session_id: session_id@,
                    stream_id: s@.stream_id,
                    sequence_number: 0,
                    user_id: config.user_id.unwrap()@,
                })
                &&& s@.stream_id.len() == 36
                &&& s@.within_limit()
            },
    {
        let reading = now();
        let stream_id = new_stream_id();
        State::from_reading(config, session_id, reading, stream_id)
    }

    /// The pipeline for a new run, given what the clock read and the stream
    /// identifier of the run. Where the clock read a time, the run starts at
    /// that time with an empty buffer and sequence number 0; where it gave an
    /// error, that error comes back and no pipeline is made.
    pub fn from_reading(
        config: Config,
        session_id: String,
        reading: Result<u64, ClockError>,
        stream_id: String,
    ) -> (state: Result<State, ClockError>)
        requires
            config.buffer_size_limit.is_some(),
            config.api_key_name.is_some(),
            config.api_key_value.is_some(),
            config.submit_url.is_some(),
            config.user_id.is_some(),
        ensures
            match reading {
                Ok(epoch) => {
                    &&& state is Ok
                    &&& state->Ok_0@ == (StateView {
                        buffer: Seq::empty(),
                        buffer_size_limit: config.buffer_size_limit.unwrap() as nat,
                        api_key_name: config.api_key_name.unwrap()@,
                        api_key_value: config.api_key_value.unwrap()@,
                        submit_url: config.submit_url.unwrap()@,
                        epoch,
                        session_id: session_id@,
                        stream_id: stream_id@,
                        sequence_number: 0,
                        user_id: config.user_id.unwrap()@,
                    })
                    &&& state->Ok_0@.within_limit()
                },
                Err(error) => state is Err && state->Err_0 == error,
            },
    {
        match reading {
            Ok(epoch) => Ok(
                State::with_session(
                    config.buffer_size_limit.unwrap(),
                    config.api_key_name.unwrap(),
                    config.api_key_value.unwrap(),
                    config.submit_url.unwrap(),
                    config.user_id.unwrap(),
                    epoch,
                    session_id,
                    stream_id,
                ),
            ),
            Err(error) => Err(error),
        }
    }

    /// The sequence number can still advance.
    pub open spec fn can_advance(&self) -> bool {
        self@.sequence_number < u64::MAX
    }

    /// Advances the sequence number by one.
    pub fn increment_sequence_number(&mut self)
        requires
            old(self).can_advance(),
        ensures
            final(self)@ == old(self)@.advanced(),
    {
        self.sequence_number = self.sequence_number + 1;
    }

    /// Takes the buffered events out, oldest first, and leaves the buffer
    /// empty.
    pub fn flush_buffer(&mut self) -> (batch: Vec<EventType>)
        ensures
            batch@ == old(self)@.buffer,
            final(self)@ == old(self)@.emptied(),
    {
        let mut batch: Vec<EventType> = Vec::new();
        core::mem::swap(&mut self.buffer, &mut batch);
        batch
    }

    /// Wraps a batch into the submission that carries it under the current
    /// sequence number.
    pub fn envelope(&self, batch: Vec<EventType>) -> (submission: Submission)
        ensures
            submission@ == self@.submission_of(batch@),
    {
        Submission {
            submit_url: self.submit_url.clone(),
            api_key_name: self.api_key_name.clone(),
            api_key_value: self.api_key_value.clone(),
            envelope: Envelope {
                epoch: self.epoch,
                session_id: self.session_id.clone(),
                stream_id: self.stream_id.clone(),
                sequence_number: self.sequence_number,
                user_id: self.user_id.clone(),
                chunk: batch,
            },
        }
    }

    /// Empties the buffer into a submission. With an empty buffer nothing is
    /// handed out and the sequence number stays; otherwise the submission
    /// carries the whole buffer under the current sequence number, and the
    /// number advances by one whatever becomes of the transmission.
    pub fn submit(&mut self) -> (submission: Option<Submission>)
        requires
            old(self)@.can_submit(),
        ensures
            (final(self)@, submission_view(submission)) == old(self)@.submit(),
            final(self)@.within_limit(),
    {
        let batch = self.flush_buffer();
        if batch.len() == 0 {
            assert(old(self)@.buffer =~= Seq::empty());
            return None;
        }
        let submission = self.envelope(batch);
        self.increment_sequence_number();
        Some(submission)
    }

    /// Appends an event, and submits the buffer at once if it then holds
    /// more events than the limit. The buffer is within its limit afterwards.
    pub fn push(&mut self, event: EventType) -> (submission: Option<Submission>)
        requires
            old(self)@.can_push(),
        ensures
            (final(self)@, submission_view(submission)) == old(self)@.push(event),
            final(self)@.within_limit(),
    {
        self.buffer.push(event);
        if self.buffer.len() > self.buffer_size_limit {
            self.submit()
        } else {
            None
        }
    }

    /// Number of buffered events.
    pub fn buffer_len(&self) -> (n: usize)
        ensures
            n == self@.buffer.len(),
    {
        self.buffer.len()
    }

    /// The buffered events, oldest first.
    pub fn buffer(&self) -> (events: &Vec<EventType>)
        ensures
            events@ == self@.buffer,
    {
        &self.buffer
    }

    /// The limit that a push must exceed to force a submission.
    pub fn buffer_size_limit(&self) -> (n: usize)
        ensures
            n == self@.buffer_size_limit,
    {
        self.buffer_size_limit
    }

    /// The number that the next submission will carry.
    pub fn sequence_number(&self) -> (n: u64)
        ensures
            n == self@.sequence_number,
    {
        self.sequence_number
    }

    /// Start of the run, in milliseconds since the Unix epoch.
    pub fn epoch(&self) -> (n: u64)
        ensures
            n == self@.epoch,
    {
        self.epoch
    }

    /// Identifier of the desktop session.
    pub fn session_id(&self) -> (s: &String)
        ensures
            s@ == self@.session_id,
    {
        &self.session_id
    }

    /// Identifier of this run's stream.
    pub fn stream_id(&self) -> (s: &String)
        ensures
            s@ == self@.stream_id,
    {
        &self.stream_id
    }

    /// Identifier of the user.
    pub fn user_id(&self) -> (s: &String)
        ensures
            s@ == self@.user_id,
    {
        &self.user_id
    }

    /// URL of the submission endpoint.
    pub fn submit_url(&self) -> (s: &String)
        ensures
            s@ == self@.submit_url,
    {
        &self.submit_url
    }

    /// Name of the credential header.
    pub fn api_key_name(&self) -> (s: &String)
        ensures
            s@ == self@.api_key_name,
    {
        &self.api_key_name
    }

    /// Value of the credential header.
    pub fn api_key_value(&self) -> (s: &String)
        ensures
            s@ == self@.api_key_value,
    {
        &self.api_key_value
    }
}

} // verus!
