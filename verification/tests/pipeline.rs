use x11_sentinel_client::collector::{run, start, Action, Delivery, Received};
use x11_sentinel_client::config::Config;
use x11_sentinel_client::event::{EventType, Metadata, MonitorMetadata};
use x11_sentinel_client::input::{Event, Fp3232, Message, Pointer, RawEvent};
use x11_sentinel_client::pipeline::{State, Submission};
use x11_sentinel_client::utils::ClockError;

fn state(limit: usize) -> State {
    State::with_session(
        limit,
        String::from("api-key"),
        String::from("secret"),
        String::from("http://localhost:3000/chunk"),
        String::from("alice"),
        1_700_000_000_000,
        String::from("alicetty1"),
        String::from("0b0e7a06-5f0c-4c57-9f0e-1f2a3b4c5d6e"),
    )
}

fn motion(t: u64) -> EventType {
    EventType::MotionEvent(t, 1, 2, 3, 4, 5, 6)
}

fn metadata() -> Metadata {
    Metadata {
        user_id: String::from("alice"),
        host_id: String::from("host"),
        monitor: vec![MonitorMetadata {
            name: 7,
            primary: true,
            x: 0,
            y: 0,
            width: 1920,
            height: 1080,
            width_in_millimeters: 510,
            height_in_millimeters: 290,
        }],
        input_device: String::from("mouse0"),
        os: os_info::Info::unknown(),
    }
}

fn raw(time: u32, axes: usize) -> RawEvent {
    let mut axisvalues_raw = Vec::new();
    for i in 0..axes {
        axisvalues_raw.push(Fp3232 { integral: 10 + i as i32, frac: 20 + i as u32 });
    }
    RawEvent { time, detail: 3, axisvalues_raw }
}

fn pointer() -> Pointer {
    Pointer { root_x: -5, root_y: 9 }
}

fn sent(action: Action) -> Submission {
    match action {
        Action::Transmit(submission) => submission,
        other => panic!("no submission: {:?}", other),
    }
}

#[test]
fn new_state_is_empty_and_starts_at_zero() {
    let s = state(100);
    assert_eq!(s.buffer_len(), 0);
    assert_eq!(s.sequence_number(), 0);
    assert_eq!(s.buffer_size_limit(), 100);
    assert_eq!(s.epoch(), 1_700_000_000_000);
    assert_eq!(s.session_id(), "alicetty1");
    assert_eq!(s.stream_id(), "0b0e7a06-5f0c-4c57-9f0e-1f2a3b4c5d6e");
    assert_eq!(s.user_id(), "alice");
    assert_eq!(s.submit_url(), "http://localhost:3000/chunk");
    assert_eq!(s.api_key_name(), "api-key");
    assert_eq!(s.api_key_value(), "secret");
}

#[test]
fn exceeding_the_limit_flushes_once_with_all_four_events() {
    let mut s = state(3);
    assert!(s.push(motion(1)).is_none());
    assert!(s.push(motion(2)).is_none());
    assert!(s.push(motion(3)).is_none());
    assert_eq!(s.buffer_len(), 3);
    let submission = s.push(motion(4)).expect("the fourth push exceeds the limit");
    assert_eq!(
        submission.envelope.chunk,
        vec![motion(1), motion(2), motion(3), motion(4)]
    );
    assert_eq!(submission.envelope.sequence_number, 0);
    assert_eq!(s.buffer_len(), 0);
    assert_eq!(s.sequence_number(), 1);
    assert!(s.push(motion(5)).is_none());
    assert_eq!(s.buffer_len(), 1);
}

#[test]
fn reaching_the_limit_does_not_flush() {
    let mut s = state(2);
    assert!(s.push(motion(1)).is_none());
    assert!(s.push(motion(2)).is_none());
    assert_eq!(s.buffer_len(), 2);
    assert_eq!(s.sequence_number(), 0);
}

#[test]
fn limit_zero_flushes_every_push() {
    let mut s = state(0);
    let first = s.push(motion(1)).expect("one event exceeds a limit of zero");
    assert_eq!(first.envelope.chunk, vec![motion(1)]);
    assert_eq!(first.envelope.sequence_number, 0);
    let second = s.push(motion(2)).expect("one event exceeds a limit of zero");
    assert_eq!(second.envelope.chunk, vec![motion(2)]);
    assert_eq!(second.envelope.sequence_number, 1);
    assert_eq!(s.buffer_len(), 0);
}

#[test]
fn idle_timeout_flushes_the_accumulated_events() {
    let mut s = state(100);
    for t in 1..=5 {
        assert!(s.push(motion(t)).is_none());
    }
    assert_eq!(s.sequence_number(), 0);
    let submission = sent(s.step(Received::Timeout));
    assert_eq!(
        submission.envelope.chunk,
        vec![motion(1), motion(2), motion(3), motion(4), motion(5)]
    );
    assert_eq!(submission.envelope.sequence_number, 0);
    assert_eq!(s.sequence_number(), 1);
    assert_eq!(s.buffer_len(), 0);
}

#[test]
fn second_idle_flush_without_events_is_a_no_op() {
    let mut s = state(100);
    assert!(s.push(motion(1)).is_none());
    let first = sent(s.step(Received::Timeout));
    assert_eq!(first.envelope.sequence_number, 0);
    assert_eq!(s.sequence_number(), 1);
    assert_eq!(s.step(Received::Timeout), Action::Continue);
    assert_eq!(s.sequence_number(), 1);
    assert_eq!(s.buffer_len(), 0);
}

#[test]
fn submit_on_an_empty_buffer_hands_nothing_out() {
    let mut s = state(10);
    assert!(s.submit().is_none());
    assert_eq!(s.sequence_number(), 0);
    assert_eq!(s.buffer_len(), 0);
}

#[test]
fn metadata_between_two_motions_keeps_its_place() {
    let mut s = state(100);
    assert!(s.push(motion(1)).is_none());
    assert!(s.record_metadata(metadata(), 2).is_none());
    assert!(s.push(motion(3)).is_none());
    let submission = s.submit().expect("three events are buffered");
    assert_eq!(
        submission.envelope.chunk,
        vec![
            motion(1),
            EventType::MetadataChangedEvent(2, metadata()),
            motion(3)
        ]
    );
    let tags: Vec<u8> = submission.envelope.chunk.iter().map(|e| e.tag()).collect();
    assert_eq!(tags, vec![0, 7, 0]);
}

#[test]
fn consecutive_submissions_are_numbered_consecutively() {
    let mut s = state(1);
    let mut numbers = Vec::new();
    for t in 0..7 {
        if let Some(submission) = s.push(motion(t)) {
            numbers.push(submission.envelope.sequence_number);
            assert_eq!(submission.envelope.chunk.len(), 2);
        }
        assert!(s.buffer_len() <= s.buffer_size_limit());
    }
    if let Some(submission) = s.submit() {
        numbers.push(submission.envelope.sequence_number);
    }
    assert_eq!(numbers, vec![0, 1, 2, 3]);
    assert_eq!(s.sequence_number(), 4);
}

#[test]
fn chunks_hold_every_event_once_and_in_order() {
    let mut s = state(2);
    let mut out = Vec::new();
    for t in 0..8 {
        if let Some(submission) = s.push(motion(t)) {
            out.extend(submission.envelope.chunk);
        }
    }
    out.extend(s.buffer().iter().cloned());
    let expected: Vec<EventType> = (0..8).map(motion).collect();
    assert_eq!(out, expected);
}

#[test]
fn submission_carries_the_session_and_the_credential() {
    let mut s = state(0);
    let submission = s.push(motion(1)).expect("a limit of zero flushes");
    assert_eq!(submission.submit_url, "http://localhost:3000/chunk");
    assert_eq!(submission.api_key_name, "api-key");
    assert_eq!(submission.api_key_value, "secret");
    assert_eq!(submission.envelope.epoch, 1_700_000_000_000);
    assert_eq!(submission.envelope.session_id, "alicetty1");
    assert_eq!(
        submission.envelope.stream_id,
        "0b0e7a06-5f0c-4c57-9f0e-1f2a3b4c5d6e"
    );
    assert_eq!(submission.envelope.user_id, "alice");
}

#[test]
fn flush_buffer_takes_everything_and_keeps_the_number() {
    let mut s = state(10);
    assert!(s.push(motion(1)).is_none());
    assert!(s.push(motion(2)).is_none());
    let batch = s.flush_buffer();
    assert_eq!(batch, vec![motion(1), motion(2)]);
    assert_eq!(s.buffer_len(), 0);
    assert_eq!(s.sequence_number(), 0);
    assert!(s.flush_buffer().is_empty());
}

#[test]
fn increment_sequence_number_adds_one() {
    let mut s = state(10);
    s.increment_sequence_number();
    s.increment_sequence_number();
    assert_eq!(s.sequence_number(), 2);
}

#[test]
fn envelope_wraps_a_batch_under_the_current_number() {
    let mut s = state(10);
    s.increment_sequence_number();
    let submission = s.envelope(vec![motion(9)]);
    assert_eq!(submission.envelope.sequence_number, 1);
    assert_eq!(submission.envelope.chunk, vec![motion(9)]);
    assert_eq!(s.sequence_number(), 1);
}

#[test]
fn step_turns_one_axis_into_scroll_and_two_into_motion() {
    let mut s = state(100);
    let scroll = Message::X11EventMessage(Event::RawMotion(raw(100, 1)), pointer());
    let motion = Message::X11EventMessage(Event::RawMotion(raw(101, 2)), pointer());
    let neither = Message::X11EventMessage(Event::RawMotion(raw(102, 3)), pointer());
    let none = Message::X11EventMessage(Event::RawMotion(raw(103, 0)), pointer());
    assert_eq!(s.step(Received::Message(scroll)), Action::Continue);
    assert_eq!(s.step(Received::Message(motion)), Action::Continue);
    assert_eq!(s.step(Received::Message(neither)), Action::Continue);
    assert_eq!(s.step(Received::Message(none)), Action::Continue);
    assert_eq!(
        s.buffer(),
        &vec![
            EventType::ScrollEvent(100, 10, 20, -5, 9),
            EventType::MotionEvent(101, 10, 20, 11, 21, -5, 9),
        ]
    );
}

#[test]
fn step_records_touch_and_button_events() {
    let mut s = state(100);
    let events = vec![
        Event::RawTouchBegin(raw(1, 2)),
        Event::RawTouchUpdate(raw(2, 2)),
        Event::RawTouchEnd(raw(3, 2)),
        Event::RawButtonPress(raw(4, 0)),
        Event::RawButtonRelease(raw(5, 0)),
        Event::Other,
    ];
    for event in events {
        let received = Received::Message(Message::X11EventMessage(event, pointer()));
        assert!(received.is_well_formed());
        assert_eq!(s.step(received), Action::Continue);
    }
    assert_eq!(
        s.buffer(),
        &vec![
            EventType::TouchBeginEvent(1, 10, 20, 11, 21, -5, 9),
            EventType::TouchUpdateEvent(2, 10, 20, 11, 21, -5, 9),
            EventType::TouchEndEvent(3, 10, 20, 11, 21, -5, 9),
            EventType::ButtonPressEvent(4, -5, 9, 3),
            EventType::ButtonReleaseEvent(5, -5, 9, 3),
        ]
    );
}

#[test]
fn step_asks_for_metadata_on_a_timer_message() {
    let mut s = state(100);
    assert_eq!(
        s.step(Received::Message(Message::MetadataChangedMessage)),
        Action::QueryMetadata
    );
    assert_eq!(s.buffer_len(), 0);
    assert_eq!(s.step(Received::Disconnected), Action::Continue);
    assert_eq!(s.buffer_len(), 0);
    assert_eq!(s.sequence_number(), 0);
}

#[test]
fn step_transmits_when_an_event_exceeds_the_limit() {
    let mut s = state(1);
    let press = Message::X11EventMessage(Event::RawButtonPress(raw(1, 0)), pointer());
    let release = Message::X11EventMessage(Event::RawButtonRelease(raw(2, 0)), pointer());
    assert_eq!(s.step(Received::Message(press)), Action::Continue);
    let submission = sent(s.step(Received::Message(release)));
    assert_eq!(
        submission.envelope.chunk,
        vec![
            EventType::ButtonPressEvent(1, -5, 9, 3),
            EventType::ButtonReleaseEvent(2, -5, 9, 3),
        ]
    );
    assert_eq!(s.buffer_len(), 0);
}

#[test]
fn touch_event_with_one_axis_is_not_well_formed() {
    let short = Received::Message(Message::X11EventMessage(
        Event::RawTouchBegin(raw(1, 1)),
        pointer(),
    ));
    assert!(!short.is_well_formed());
    assert!(!Event::RawTouchEnd(raw(1, 0)).is_well_formed());
    assert!(Event::RawTouchUpdate(raw(1, 2)).is_well_formed());
    assert!(Event::RawMotion(raw(1, 0)).is_well_formed());
    assert!(Received::Timeout.is_well_formed());
}

#[test]
fn handlers_push_the_record_of_their_kind() {
    let mut s = state(100);
    assert!(s.handle_raw_motion_event(raw(1, 2), pointer()).is_none());
    assert!(s.handle_scroll_event(raw(2, 1), pointer()).is_none());
    assert!(s.handle_touch_begin_event(raw(3, 2), pointer()).is_none());
    assert!(s.handle_touch_update_event(raw(4, 2), pointer()).is_none());
    assert!(s.handle_touch_end_event(raw(5, 2), pointer()).is_none());
    assert!(s.handle_button_press_event(raw(6, 0), pointer()).is_none());
    assert!(s.handle_button_release_event(raw(7, 0), pointer()).is_none());
    let tags: Vec<u8> = s.buffer().iter().map(|e| e.tag()).collect();
    assert_eq!(tags, vec![0, 1, 2, 3, 4, 5, 6]);
    let times: Vec<u64> = s.buffer().iter().map(|e| e.timestamp()).collect();
    assert_eq!(times, vec![1, 2, 3, 4, 5, 6, 7]);
}

#[test]
fn handle_metadata_changed_event_pushes_a_timestamped_snapshot() {
    let mut s = state(100);
    let outcome = s.handle_metadata_changed_event(metadata());
    assert_eq!(outcome, Ok(None));
    assert_eq!(s.buffer_len(), 1);
    let record = &s.buffer()[0];
    assert_eq!(record.tag(), 7);
    assert_eq!(record.metadata(), Some(&metadata()));
    assert!(record.timestamp() > 1_600_000_000_000);
}

#[test]
fn new_takes_its_parameters_from_the_config() {
    let config = Config {
        api_key_name: Some(String::from("api-key")),
        api_key_value: Some(String::from("value")),
        buffer_size_limit: Some(42),
        idle_timeout: None,
        lock_enabled: None,
        lock_utility: None,
        metadata_query_interval: None,
        status_base_url: None,
        status_interval: None,
        submit_url: Some(String::from("http://example.test/chunk")),
        user_id: Some(String::from("bob")),
    };
    let a = State::new(config.clone(), String::from("bobpts0")).expect("the clock works");
    let b = State::new(config, String::from("bobpts0")).expect("the clock works");
    assert_eq!(a.buffer_len(), 0);
    assert_eq!(a.sequence_number(), 0);
    assert_eq!(a.buffer_size_limit(), 42);
    assert_eq!(a.api_key_name(), "api-key");
    assert_eq!(a.api_key_value(), "value");
    assert_eq!(a.submit_url(), "http://example.test/chunk");
    assert_eq!(a.user_id(), "bob");
    assert_eq!(a.session_id(), "bobpts0");
    assert!(a.epoch() > 1_600_000_000_000);
    assert_eq!(a.stream_id().len(), 36);
    assert_ne!(a.stream_id(), b.stream_id());
}

fn press(t: u32) -> Delivery {
    Delivery::Event(Event::RawButtonPress(raw(t, 0)), pointer())
}

fn moved(t: u32) -> Delivery {
    Delivery::Event(Event::RawMotion(raw(t, 2)), pointer())
}

#[test]
fn run_puts_a_snapshot_between_the_events_around_it() {
    let mut s = state(100);
    let deliveries = vec![moved(1), Delivery::Snapshot(metadata(), 2), moved(3), Delivery::Timeout];
    let actions = run(&mut s, deliveries);
    assert_eq!(actions.len(), 4);
    assert_eq!(actions[0], Action::Continue);
    assert_eq!(actions[1], Action::Continue);
    assert_eq!(actions[2], Action::Continue);
    let submission = sent(actions[3].clone());
    assert_eq!(
        submission.envelope.chunk,
        vec![
            EventType::MotionEvent(1, 10, 20, 11, 21, -5, 9),
            EventType::MetadataChangedEvent(2, metadata()),
            EventType::MotionEvent(3, 10, 20, 11, 21, -5, 9),
        ]
    );
    let tags: Vec<u8> = submission.envelope.chunk.iter().map(|e| e.tag()).collect();
    assert_eq!(tags, vec![0, 7, 0]);
    assert_eq!(submission.envelope.sequence_number, 0);
    assert_eq!(s.sequence_number(), 1);
    assert_eq!(s.buffer_len(), 0);
}

#[test]
fn run_takes_the_deliveries_in_order() {
    let mut s = state(2);
    let deliveries = vec![
        press(1),
        Delivery::Snapshot(metadata(), 5),
        Delivery::Disconnected,
        press(2),
        Delivery::Timeout,
        press(3),
        Delivery::Timeout,
    ];
    let actions = run(&mut s, deliveries);
    assert_eq!(actions.len(), 7);
    assert_eq!(actions[0], Action::Continue);
    assert_eq!(actions[1], Action::Continue);
    assert_eq!(actions[2], Action::Continue);
    assert_eq!(actions[4], Action::Continue);
    assert_eq!(actions[5], Action::Continue);
    assert!(actions.iter().all(|a| *a != Action::QueryMetadata));
    let first = sent(actions[3].clone());
    assert_eq!(
        first.envelope.chunk,
        vec![
            EventType::ButtonPressEvent(1, -5, 9, 3),
            EventType::MetadataChangedEvent(5, metadata()),
            EventType::ButtonPressEvent(2, -5, 9, 3),
        ]
    );
    assert_eq!(first.envelope.sequence_number, 0);
    let second = sent(actions[6].clone());
    assert_eq!(second.envelope.chunk, vec![EventType::ButtonPressEvent(3, -5, 9, 3)]);
    assert_eq!(second.envelope.sequence_number, 1);
    assert_eq!(s.sequence_number(), 2);
    assert_eq!(s.buffer_len(), 0);
}

#[test]
fn run_hands_nothing_out_while_events_stay_within_the_limit() {
    let mut s = state(5);
    let actions = run(&mut s, vec![press(1), press(2), moved(3), press(4), press(5)]);
    assert_eq!(actions, vec![Action::Continue; 5]);
    assert_eq!(s.buffer_len(), 5);
    assert_eq!(s.sequence_number(), 0);
}

#[test]
fn run_on_nothing_does_nothing() {
    let mut s = state(2);
    assert!(run(&mut s, Vec::new()).is_empty());
    assert_eq!(s.buffer_len(), 0);
    assert_eq!(s.sequence_number(), 0);
}

#[test]
fn take_handles_each_kind_of_delivery() {
    let mut s = state(1);
    assert!(press(1).is_well_formed());
    assert_eq!(s.take(press(1)), Action::Continue);
    let submission = sent(s.take(Delivery::Snapshot(metadata(), 9)));
    assert_eq!(
        submission.envelope.chunk,
        vec![
            EventType::ButtonPressEvent(1, -5, 9, 3),
            EventType::MetadataChangedEvent(9, metadata()),
        ]
    );
    assert_eq!(s.take(Delivery::Timeout), Action::Continue);
    assert_eq!(s.take(Delivery::Disconnected), Action::Continue);
    assert_eq!(s.take(Delivery::Event(Event::Other, pointer())), Action::Continue);
    assert_eq!(s.buffer_len(), 0);
    assert!(!Delivery::Event(Event::RawTouchBegin(raw(1, 1)), pointer()).is_well_formed());
    assert!(Delivery::Snapshot(metadata(), 1).is_well_formed());
}

#[test]
fn start_pushes_the_first_snapshot_before_anything_is_received() {
    let (s, submission) = start(
        five_given(),
        String::from("bobpts0"),
        Ok(1_700_000_000_000),
        String::from("0b0e7a06-5f0c-4c57-9f0e-1f2a3b4c5d6e"),
        metadata(),
        Ok(1_700_000_000_007),
    )
    .expect("the clock read both times");
    assert_eq!(submission, None);
    assert_eq!(s.epoch(), 1_700_000_000_000);
    assert_eq!(s.sequence_number(), 0);
    assert_eq!(
        s.buffer(),
        &vec![EventType::MetadataChangedEvent(1_700_000_000_007, metadata())]
    );
    assert_eq!(s.buffer()[0].tag(), 7);
    assert_eq!(s.session_id(), "bobpts0");
    assert_eq!(s.stream_id(), "0b0e7a06-5f0c-4c57-9f0e-1f2a3b4c5d6e");
    assert_eq!(s.buffer_size_limit(), 42);
}

#[test]
fn the_first_envelope_of_a_run_starts_with_the_snapshot() {
    let (mut s, _) = start(
        five_given(),
        String::from("s"),
        Ok(100),
        String::from("id"),
        metadata(),
        Ok(101),
    )
    .expect("the clock read both times");
    let actions = run(&mut s, vec![moved(102), Delivery::Timeout]);
    let first = sent(actions[1].clone());
    assert_eq!(first.envelope.sequence_number, 0);
    assert_eq!(first.envelope.chunk.len(), 2);
    assert_eq!(first.envelope.chunk[0], EventType::MetadataChangedEvent(101, metadata()));
    assert_eq!(first.envelope.chunk[0].tag(), 7);
}

#[test]
fn start_with_a_limit_of_zero_hands_the_snapshot_out_at_once() {
    let config = Config { buffer_size_limit: Some(0), ..five_given() };
    let (s, submission) =
        start(config, String::from("s"), Ok(100), String::from("id"), metadata(), Ok(101))
            .expect("the clock read both times");
    let submission = submission.expect("one record exceeds a limit of zero");
    assert_eq!(submission.envelope.chunk, vec![EventType::MetadataChangedEvent(101, metadata())]);
    assert_eq!(submission.envelope.sequence_number, 0);
    assert_eq!(s.buffer_len(), 0);
    assert_eq!(s.sequence_number(), 1);
}

#[test]
fn start_fails_with_the_first_error_of_the_clock() {
    let run_start = |reading, snapshot_reading| {
        start(five_given(), String::from("s"), reading, String::from("id"), metadata(), snapshot_reading)
            .err()
    };
    assert_eq!(run_start(Err(ClockError::BeforeEpoch), Ok(1)), Some(ClockError::BeforeEpoch));
    assert_eq!(run_start(Ok(1), Err(ClockError::OutOfRange)), Some(ClockError::OutOfRange));
    assert_eq!(
        run_start(Err(ClockError::OutOfRange), Err(ClockError::BeforeEpoch)),
        Some(ClockError::OutOfRange)
    );
    assert_eq!(run_start(Ok(1), Ok(2)), None);
}

#[test]
fn is_ready_is_false_only_where_the_last_number_would_be_passed() {
    let mut s = state(1);
    let event = Received::Message(Message::X11EventMessage(Event::RawButtonPress(raw(1, 0)), pointer()));
    assert!(s.is_ready(&event));
    assert!(s.is_ready(&Received::Timeout));
    assert!(s.is_ready(&Received::Disconnected));
    assert!(s.is_ready(&Received::Message(Message::MetadataChangedMessage)));
    assert_eq!(s.step(event), Action::Continue);
    assert!(s.is_ready(&Received::Timeout));
}

#[test]
fn has_record_tells_which_events_are_recorded() {
    assert!(Event::RawMotion(raw(1, 1)).has_record(pointer()));
    assert!(Event::RawMotion(raw(1, 2)).has_record(pointer()));
    assert!(!Event::RawMotion(raw(1, 0)).has_record(pointer()));
    assert!(!Event::RawMotion(raw(1, 3)).has_record(pointer()));
    assert!(Event::RawTouchBegin(raw(1, 2)).has_record(pointer()));
    assert!(Event::RawButtonRelease(raw(1, 0)).has_record(pointer()));
    assert!(!Event::Other.has_record(pointer()));
}

fn five_given() -> Config {
    Config {
        api_key_name: Some(String::from("api-key")),
        api_key_value: Some(String::from("value")),
        buffer_size_limit: Some(42),
        idle_timeout: None,
        lock_enabled: None,
        lock_utility: None,
        metadata_query_interval: None,
        status_base_url: None,
        status_interval: None,
        submit_url: Some(String::from("http://example.test/chunk")),
        user_id: Some(String::from("bob")),
    }
}

#[test]
fn from_reading_starts_the_run_at_the_time_read() {
    let s = State::from_reading(
        five_given(),
        String::from("bobpts0"),
        Ok(1_700_000_000_123),
        String::from("0b0e7a06-5f0c-4c57-9f0e-1f2a3b4c5d6e"),
    )
    .expect("the clock read a time");
    assert_eq!(s.epoch(), 1_700_000_000_123);
    assert_eq!(s.stream_id(), "0b0e7a06-5f0c-4c57-9f0e-1f2a3b4c5d6e");
    assert_eq!(s.session_id(), "bobpts0");
    assert_eq!(s.buffer_len(), 0);
    assert_eq!(s.sequence_number(), 0);
    assert_eq!(s.buffer_size_limit(), 42);
    assert_eq!(s.api_key_name(), "api-key");
    assert_eq!(s.api_key_value(), "value");
    assert_eq!(s.submit_url(), "http://example.test/chunk");
    assert_eq!(s.user_id(), "bob");
}

#[test]
fn from_reading_hands_the_error_of_the_clock_back() {
    let before = State::from_reading(
        five_given(),
        String::from("s"),
        Err(ClockError::BeforeEpoch),
        String::from("id"),
    );
    assert_eq!(before.err(), Some(ClockError::BeforeEpoch));
    let beyond = State::from_reading(
        five_given(),
        String::from("s"),
        Err(ClockError::OutOfRange),
        String::from("id"),
    );
    assert_eq!(beyond.err(), Some(ClockError::OutOfRange));
}

#[test]
fn record_metadata_at_pushes_under_the_time_read() {
    let mut s = state(1);
    assert_eq!(s.record_metadata_at(metadata(), Ok(11)), Ok(None));
    assert_eq!(s.buffer(), &vec![EventType::MetadataChangedEvent(11, metadata())]);
    let outcome = s.record_metadata_at(metadata(), Ok(12)).expect("the clock read a time");
    let submission = outcome.expect("the second record exceeds the limit");
    assert_eq!(
        submission.envelope.chunk,
        vec![
            EventType::MetadataChangedEvent(11, metadata()),
            EventType::MetadataChangedEvent(12, metadata()),
        ]
    );
    assert_eq!(submission.envelope.sequence_number, 0);
    assert_eq!(s.sequence_number(), 1);
    assert_eq!(s.buffer_len(), 0);
}

#[test]
fn record_metadata_at_changes_nothing_without_a_time() {
    let mut s = state(10);
    assert!(s.push(motion(1)).is_none());
    assert_eq!(
        s.record_metadata_at(metadata(), Err(ClockError::BeforeEpoch)),
        Err(ClockError::BeforeEpoch)
    );
    assert_eq!(
        s.record_metadata_at(metadata(), Err(ClockError::OutOfRange)),
        Err(ClockError::OutOfRange)
    );
    assert_eq!(s.buffer(), &vec![motion(1)]);
    assert_eq!(s.sequence_number(), 0);
}
