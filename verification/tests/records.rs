use x11_sentinel_client::event::{
    EventType, Metadata, BUTTON_PRESS_EVENT_TYPE, BUTTON_RELEASE_EVENT_TYPE,
    METADATA_CHANGED_EVENT_TYPE, MOTION_EVENT_TYPE, SCROLL_EVENT_TYPE, TOUCH_BEGIN_EVENT_TYPE,
    TOUCH_END_EVENT_TYPE, TOUCH_UPDATE_EVENT_TYPE,
};
use x11_sentinel_client::input::{Event, Fp3232, Pointer, RawEvent};
use x11_sentinel_client::metadata::{get_os_metadata, query_metadata, snapshot};
use x11_sentinel_client::utils::{
    get_host_id, get_session_id, is_whitespace, new_stream_id, now, strip_whitespace,
    timestamp_of, trim, ClockError,
};

fn empty_metadata() -> Metadata {
    Metadata {
        user_id: String::new(),
        host_id: String::new(),
        monitor: Vec::new(),
        input_device: String::new(),
        os: os_info::Info::unknown(),
    }
}

#[test]
fn tags_are_zero_to_seven_in_declaration_order() {
    assert_eq!(MOTION_EVENT_TYPE, 0);
    assert_eq!(SCROLL_EVENT_TYPE, 1);
    assert_eq!(TOUCH_BEGIN_EVENT_TYPE, 2);
    assert_eq!(TOUCH_UPDATE_EVENT_TYPE, 3);
    assert_eq!(TOUCH_END_EVENT_TYPE, 4);
    assert_eq!(BUTTON_PRESS_EVENT_TYPE, 5);
    assert_eq!(BUTTON_RELEASE_EVENT_TYPE, 6);
    assert_eq!(METADATA_CHANGED_EVENT_TYPE, 7);
    assert_eq!(EventType::MotionEvent(0, 0, 0, 0, 0, 0, 0).tag(), 0);
    assert_eq!(EventType::ScrollEvent(0, 0, 0, 0, 0).tag(), 1);
    assert_eq!(EventType::TouchBeginEvent(0, 0, 0, 0, 0, 0, 0).tag(), 2);
    assert_eq!(EventType::TouchUpdateEvent(0, 0, 0, 0, 0, 0, 0).tag(), 3);
    assert_eq!(EventType::TouchEndEvent(0, 0, 0, 0, 0, 0, 0).tag(), 4);
    assert_eq!(EventType::ButtonPressEvent(0, 0, 0, 0).tag(), 5);
    assert_eq!(EventType::ButtonReleaseEvent(0, 0, 0, 0).tag(), 6);
    assert_eq!(EventType::MetadataChangedEvent(0, empty_metadata()).tag(), 7);
}

#[test]
fn wire_fields_start_with_the_tag_and_keep_the_field_order() {
    assert_eq!(
        EventType::MotionEvent(1000, -1, 2, -3, 4, -5, 6).wire_fields(),
        vec![0, 1000, -1, 2, -3, 4, -5, 6]
    );
    assert_eq!(
        EventType::ScrollEvent(1001, -1, 2, -5, 6).wire_fields(),
        vec![1, 1001, -1, 2, -5, 6]
    );
    assert_eq!(
        EventType::TouchBeginEvent(1002, 1, 2, 3, 4, 5, 6).wire_fields(),
        vec![2, 1002, 1, 2, 3, 4, 5, 6]
    );
    assert_eq!(
        EventType::TouchUpdateEvent(1003, 1, 2, 3, 4, 5, 6).wire_fields(),
        vec![3, 1003, 1, 2, 3, 4, 5, 6]
    );
    assert_eq!(
        EventType::TouchEndEvent(1004, 1, 2, 3, 4, 5, 6).wire_fields(),
        vec![4, 1004, 1, 2, 3, 4, 5, 6]
    );
    assert_eq!(
        EventType::ButtonPressEvent(1005, -7, 8, 9).wire_fields(),
        vec![5, 1005, -7, 8, 9]
    );
    assert_eq!(
        EventType::ButtonReleaseEvent(1006, -7, 8, 9).wire_fields(),
        vec![6, 1006, -7, 8, 9]
    );
    assert_eq!(
        EventType::MetadataChangedEvent(1007, empty_metadata()).wire_fields(),
        vec![7, 1007]
    );
}

#[test]
fn wire_fields_hold_the_extremes_of_every_field() {
    assert_eq!(
        EventType::MotionEvent(u64::MAX, i32::MIN, u32::MAX, i32::MAX, 0, i16::MIN, i16::MAX)
            .wire_fields(),
        vec![
            0,
            18_446_744_073_709_551_615,
            -2_147_483_648,
            4_294_967_295,
            2_147_483_647,
            0,
            -32_768,
            32_767
        ]
    );
}

#[test]
fn metadata_is_only_in_a_metadata_changed_record() {
    assert_eq!(EventType::ScrollEvent(1, 2, 3, 4, 5).metadata(), None);
    let m = empty_metadata();
    assert_eq!(
        EventType::MetadataChangedEvent(1, m.clone()).metadata(),
        Some(&m)
    );
    assert_eq!(EventType::MetadataChangedEvent(77, m).timestamp(), 77);
}

#[test]
fn record_widens_the_device_timestamp() {
    let raw = RawEvent {
        time: u32::MAX,
        detail: 1,
        axisvalues_raw: vec![Fp3232 { integral: -1, frac: 7 }],
    };
    let pointer = Pointer { root_x: 1, root_y: 2 };
    assert_eq!(
        Event::RawMotion(raw.clone()).record(pointer),
        Some(EventType::ScrollEvent(4_294_967_295, -1, 7, 1, 2))
    );
    assert_eq!(
        Event::RawButtonPress(raw.clone()).record(pointer),
        Some(EventType::ButtonPressEvent(4_294_967_295, 1, 2, 1))
    );
    assert_eq!(raw.to_scroll(pointer), EventType::ScrollEvent(4_294_967_295, -1, 7, 1, 2));
    assert_eq!(Event::Other.record(pointer), None);
}

#[test]
fn two_axis_records_differ_only_in_their_variant() {
    let raw = RawEvent {
        time: 5,
        detail: 0,
        axisvalues_raw: vec![
            Fp3232 { integral: 1, frac: 2 },
            Fp3232 { integral: 3, frac: 4 },
            Fp3232 { integral: 99, frac: 99 },
        ],
    };
    let pointer = Pointer { root_x: 6, root_y: 7 };
    assert_eq!(raw.to_motion(pointer), EventType::MotionEvent(5, 1, 2, 3, 4, 6, 7));
    assert_eq!(raw.to_touch_begin(pointer), EventType::TouchBeginEvent(5, 1, 2, 3, 4, 6, 7));
    assert_eq!(raw.to_touch_update(pointer), EventType::TouchUpdateEvent(5, 1, 2, 3, 4, 6, 7));
    assert_eq!(raw.to_touch_end(pointer), EventType::TouchEndEvent(5, 1, 2, 3, 4, 6, 7));
    assert_eq!(raw.to_button_press(pointer), EventType::ButtonPressEvent(5, 6, 7, 0));
    assert_eq!(raw.to_button_release(pointer), EventType::ButtonReleaseEvent(5, 6, 7, 0));
    assert_eq!(Event::RawMotion(raw).record(pointer), None);
}

#[test]
fn timestamp_of_gives_the_whole_milliseconds() {
    assert_eq!(timestamp_of(Some((0, 0))), Ok(0));
    assert_eq!(timestamp_of(Some((0, 999_999))), Ok(0));
    assert_eq!(timestamp_of(Some((0, 1_000_000))), Ok(1));
    assert_eq!(timestamp_of(Some((1, 999_999_999))), Ok(1_999));
    assert_eq!(timestamp_of(Some((1_700_000_000, 123_456_789))), Ok(1_700_000_000_123));
    assert_eq!(
        timestamp_of(Some((18_446_744_073_709_551, 615_999_999))),
        Ok(u64::MAX)
    );
}

#[test]
fn timestamp_of_counts_as_the_standard_library_counts() {
    let cases = [
        (0u64, 0u32),
        (0, 1),
        (0, 999_999),
        (0, 1_000_000),
        (7, 500_000_000),
        (1_700_000_000, 999_999_999),
        (18_446_744_073_709_551, 615_999_999),
        (18_446_744_073_709_551, 616_000_000),
        (u64::MAX, 999_999_999),
    ];
    for (secs, nanos) in cases {
        let millis = std::time::Duration::new(secs, nanos).as_millis();
        let expected = u64::try_from(millis).map_err(|_| ClockError::OutOfRange);
        assert_eq!(timestamp_of(Some((secs, nanos))), expected, "{} s {} ns", secs, nanos);
    }
}

#[test]
fn timestamp_of_fails_before_the_epoch() {
    assert_eq!(timestamp_of(None), Err(ClockError::BeforeEpoch));
}

#[test]
fn timestamp_of_fails_beyond_sixty_four_bits() {
    assert_eq!(
        timestamp_of(Some((18_446_744_073_709_551, 616_000_000))),
        Err(ClockError::OutOfRange)
    );
    assert_eq!(timestamp_of(Some((u64::MAX, 0))), Err(ClockError::OutOfRange));
}

#[test]
fn whitespace_is_what_the_standard_library_takes_for_it() {
    let mut count = 0;
    for code in 0..=0x10FFFFu32 {
        if let Some(c) = char::from_u32(code) {
            assert_eq!(is_whitespace(c), c.is_whitespace(), "U+{:04X}", code);
            if is_whitespace(c) {
                count += 1;
            }
        }
    }
    assert_eq!(count, 25);
}

#[test]
fn now_is_in_milliseconds_and_does_not_go_back() {
    let a = now().expect("the clock works");
    let b = now().expect("the clock works");
    assert!(a > 1_600_000_000_000);
    assert!(a < 100_000_000_000_000);
    assert!(b >= a);
}

#[test]
fn stream_ids_are_hyphenated_and_differ() {
    let a = new_stream_id();
    let b = new_stream_id();
    assert_eq!(a.len(), 36);
    let hyphens: Vec<usize> = a.char_indices().filter(|(_, c)| *c == '-').map(|(i, _)| i).collect();
    assert_eq!(hyphens, vec![8, 13, 18, 23]);
    assert!(a.chars().all(|c| c == '-' || c.is_ascii_hexdigit()));
    assert_ne!(a, b);
}

#[test]
fn strip_whitespace_removes_every_whitespace_character() {
    assert_eq!(strip_whitespace("alice tty1\t2024-01-01 10:00\n"), "alicetty12024-01-0110:00");
    assert_eq!(strip_whitespace(""), "");
    assert_eq!(strip_whitespace(" \n\t\r"), "");
    assert_eq!(strip_whitespace("a\u{00a0}b\u{3000}c"), "abc");
    assert_eq!(strip_whitespace("héllo wörld"), "héllowörld");
}

#[test]
fn trim_removes_whitespace_at_the_ends_only() {
    assert_eq!(trim("  0123abcd\n"), "0123abcd");
    assert_eq!(trim("a b"), "a b");
    assert_eq!(trim("\t a b \r\n"), "a b");
    assert_eq!(trim(""), "");
    assert_eq!(trim(" \n "), "");
    assert_eq!(trim("x"), "x");
    assert_eq!(trim("\u{2003}é \u{2003}"), "é");
}

#[test]
fn session_id_is_the_listing_without_whitespace() {
    let output = b"alice    tty1         2024-01-01 10:00\nbob      pts/0        2024-01-01 11:00\n";
    assert_eq!(
        get_session_id(output.to_vec()),
        Some(String::from("alicetty12024-01-0110:00bobpts/02024-01-0111:00"))
    );
    assert_eq!(get_session_id(Vec::new()), Some(String::new()));
}

#[test]
fn session_id_needs_valid_utf8() {
    assert_eq!(get_session_id(vec![0x61, 0xff, 0x62]), None);
    assert_eq!(get_session_id(vec![0xc3]), None);
}

#[test]
fn host_id_is_the_trimmed_file_content() {
    assert_eq!(
        get_host_id(b"4c4c4544004a3510805ab7c04f4e4d32\n".to_vec()),
        "4c4c4544004a3510805ab7c04f4e4d32"
    );
    assert_eq!(get_host_id(b"  a b \n".to_vec()), "a b");
    assert_eq!(get_host_id(Vec::new()), "");
}

#[test]
fn host_id_is_empty_for_invalid_utf8() {
    assert_eq!(get_host_id(vec![0x61, 0x80]), "");
}

#[test]
fn snapshot_holds_its_parts() {
    let os = os_info::Info::unknown();
    let m = snapshot(
        String::from("alice"),
        String::from("host"),
        Vec::new(),
        String::from("devices"),
        os.clone(),
    );
    assert_eq!(m.user_id, "alice");
    assert_eq!(m.host_id, "host");
    assert!(m.monitor.is_empty());
    assert_eq!(m.input_device, "devices");
    assert_eq!(m.os, os);
}

#[test]
fn query_metadata_adds_the_operating_system() {
    let m = query_metadata(
        String::from("alice"),
        String::from("host"),
        Vec::new(),
        String::from("devices"),
    );
    assert_eq!(m.user_id, "alice");
    assert_eq!(m.host_id, "host");
    assert_eq!(m.input_device, "devices");
    assert_eq!(m.os, get_os_metadata());
}
