//! Event records and the metadata snapshot that one of them carries.

use vstd::prelude::*;

verus! {

/// Wire tag of a pointer motion record.
pub const MOTION_EVENT_TYPE: u8 = 0;

/// Wire tag of a scroll record.
pub const SCROLL_EVENT_TYPE: u8 = 1;

/// Wire tag of a touch-begin record.
pub const TOUCH_BEGIN_EVENT_TYPE: u8 = 2;

/// Wire tag of a touch-update record.
pub const TOUCH_UPDATE_EVENT_TYPE: u8 = 3;

/// Wire tag of a touch-end record.
pub const TOUCH_END_EVENT_TYPE: u8 = 4;

/// Wire tag of a button-press record.
pub const BUTTON_PRESS_EVENT_TYPE: u8 = 5;

/// Wire tag of a button-release record.
pub const BUTTON_RELEASE_EVENT_TYPE: u8 = 6;

/// Wire tag of a metadata-changed record.
pub const METADATA_CHANGED_EVENT_TYPE: u8 = 7;

/// `os_info::Info`, carried through the pipeline without being looked into.
#[verifier::external_type_specification]
#[verifier::external_body]
pub struct ExOsInfo(os_info::Info);

/// `Clone` for `os_info::Info` is derived there: the copy equals the value
/// that it was made from, field by field.
pub assume_specification[ <os_info::Info as Clone>::clone ](info: &os_info::Info) -> (res:
    os_info::Info)
    ensures
        res == *info,
;

/// Geometry of one monitor, in pixels and in millimeters.
#[derive(Clone, Copy, Debug, PartialEq, Eq)]
pub struct MonitorMetadata {
    pub name: u32,
    pub primary: bool,
    pub x: i16,
    pub y: i16,
    pub width: u16,
    pub height: u16,
    pub width_in_millimeters: u32,
    pub height_in_millimeters: u32,
}

/// A point-in-time description of the host, its user, monitors, input
/// devices and operating system.
#[derive(Clone, Debug, PartialEq, Eq)]
pub struct Metadata {
    pub user_id: String,
    pub host_id: String,
    pub monitor: Vec<MonitorMetadata>,
    pub input_device: String,
    pub os: os_info::Info,
}

/// One record of the event stream.
///
/// Every variant starts with the device timestamp. An axis value is a signed
/// integral part followed by an unsigned fractional part; pointer coordinates
/// are the root `x` and `y`.
#[derive(Clone, Debug, PartialEq, Eq)]
pub enum EventType {
    /// timestamp, axis 0, axis 1, pointer
    MotionEvent(u64, i32, u32, i32, u32, i16, i16),
    /// timestamp, axis 0, pointer
    ScrollEvent(u64, i32, u32, i16, i16),
    /// timestamp, axis 0, axis 1, pointer
    TouchBeginEvent(u64, i32, u32, i32, u32, i16, i16),
    /// timestamp, axis 0, axis 1, pointer
    TouchUpdateEvent(u64, i32, u32, i32, u32, i16, i16),
    /// timestamp, axis 0, axis 1, pointer
    TouchEndEvent(u64, i32, u32, i32, u32, i16, i16),
    /// timestamp, pointer, button
    ButtonPressEvent(u64, i16, i16, u32),
    /// timestamp, pointer, button
    ButtonReleaseEvent(u64, i16, i16, u32),
    /// timestamp, snapshot
    MetadataChangedEvent(u64, Metadata),
}

impl EventType {
    /// The tag that identifies the variant on the wire.
    pub open spec fn tag_spec(&self) -> u8 {
        match self {
            EventType::MotionEvent(..) => MOTION_EVENT_TYPE,
            EventType::ScrollEvent(..) => SCROLL_EVENT_TYPE,
            EventType::TouchBeginEvent(..) => TOUCH_BEGIN_EVENT_TYPE,
            EventType::TouchUpdateEvent(..) => TOUCH_UPDATE_EVENT_TYPE,
            EventType::TouchEndEvent(..) => TOUCH_END_EVENT_TYPE,
            EventType::ButtonPressEvent(..) => BUTTON_PRESS_EVENT_TYPE,
            EventType::ButtonReleaseEvent(..) => BUTTON_RELEASE_EVENT_TYPE,
            EventType::MetadataChangedEvent(..) => METADATA_CHANGED_EVENT_TYPE,
        }
    }

    /// The device timestamp of the record.
    pub open spec fn timestamp_spec(&self) -> u64 {
        match self {
            EventType::MotionEvent(t, ..) => *t,
            EventType::ScrollEvent(t, ..) => *t,
            EventType::TouchBeginEvent(t, ..) => *t,
            EventType::TouchUpdateEvent(t, ..) => *t,
            EventType::TouchEndEvent(t, ..) => *t,
            EventType::ButtonPressEvent(t, ..) => *t,
            EventType::ButtonReleaseEvent(t, ..) => *t,
            EventType::MetadataChangedEvent(t, ..) => *t,
        }
    }

    /// The numbers that open the record on the wire: the tag, the timestamp,
    /// then the variant's numeric fields in their declared order. A
    /// metadata-changed record continues with its snapshot, which is no number.
    pub open spec fn wire_spec(&self) -> Seq<i128> {
        match self {
            EventType::MotionEvent(t, i0, f0, i1, f1, x, y) => seq![
                MOTION_EVENT_TYPE as i128,
                *t as i128,
                *i0 as i128,
                *f0 as i128,
                *i1 as i128,
                *f1 as i128,
                *x as i128,
                *y as i128,
            ],
            EventType::ScrollEvent(t, i0, f0, x, y) => seq![
                SCROLL_EVENT_TYPE as i128,
                *t as i128,
                *i0 as i128,
                *f0 as i128,
                *x as i128,
                *y as i128,
            ],
            EventType::TouchBeginEvent(t, i0, f0, i1, f1, x, y) => seq![
                TOUCH_BEGIN_EVENT_TYPE as i128,
                *t as i128,
                *i0 as i128,
                *f0 as i128,
                *i1 as i128,
                *f1 as i128,
                *x as i128,
                *y as i128,
            ],
            EventType::TouchUpdateEvent(t, i0, f0, i1, f1, x, y) => seq![
                TOUCH_UPDATE_EVENT_TYPE as i128,
                *t as i128,
                *i0 as i128,
                *f0 as i128,
                *i1 as i128,
                *f1 as i128,
                *x as i128,
                *y as i128,
            ],
            EventType::TouchEndEvent(t, i0, f0, i1, f1, x, y) => seq![
                TOUCH_END_EVENT_TYPE as i128,
                *t as i128,
                *i0 as i128,
                *f0 as i128,
                *i1 as i128,
                *f1 as i128,
                *x as i128,
                *y as i128,
            ],
            EventType::ButtonPressEvent(t, x, y, b) => seq![
                BUTTON_PRESS_EVENT_TYPE as i128,
                *t as i128,
                *x as i128,
                *y as i128,
                *b as i128,
            ],
            EventType::ButtonReleaseEvent(t, x, y, b) => seq![
                BUTTON_RELEASE_EVENT_TYPE as i128,
                *t as i128,
                *x as i128,
                *y as i128,
                *b as i128,
            ],
            EventType::MetadataChangedEvent(t, _) => seq![
                METADATA_CHANGED_EVENT_TYPE as i128,
                *t as i128,
            ],
        }
    }

    /// The tag of the record, between 0 and 7.
    pub fn tag(&self) -> (t: u8)
        ensures
            t == self.tag_spec(),
            t <= 7,
    {
        match self {
            EventType::MotionEvent(..) => MOTION_EVENT_TYPE,
            EventType::ScrollEvent(..) => SCROLL_EVENT_TYPE,
            EventType::TouchBeginEvent(..) => TOUCH_BEGIN_EVENT_TYPE,
            EventType::TouchUpdateEvent(..) => TOUCH_UPDATE_EVENT_TYPE,
            EventType::TouchEndEvent(..) => TOUCH_END_EVENT_TYPE,
            EventType::ButtonPressEvent(..) => BUTTON_PRESS_EVENT_TYPE,
            EventType::ButtonReleaseEvent(..) => BUTTON_RELEASE_EVENT_TYPE,
            EventType::MetadataChangedEvent(..) => METADATA_CHANGED_EVENT_TYPE,
        }
    }

    /// The device timestamp of the record.
    pub fn timestamp(&self) -> (t: u64)
        ensures
            t == self.timestamp_spec(),
    {
        match self {
            EventType::MotionEvent(t, ..) => *t,
            EventType::ScrollEvent(t, ..) => *t,
            EventType::TouchBeginEvent(t, ..) => *t,
            EventType::TouchUpdateEvent(t, ..) => *t,
            EventType::TouchEndEvent(t, ..) => *t,
            EventType::ButtonPressEvent(t, ..) => *t,
            EventType::ButtonReleaseEvent(t, ..) => *t,
            EventType::MetadataChangedEvent(t, ..) => *t,
        }
    }

    /// The snapshot of a metadata-changed record, and `None` for the others.
    pub fn metadata(&self) -> (m: Option<&Metadata>)
        ensures
            match self {
                EventType::MetadataChangedEvent(_, snapshot) => m == Some(snapshot),
                _ => m.is_none(),
            },
    {
        match self {
            EventType::MetadataChangedEvent(_, snapshot) => Some(snapshot),
            _ => None,
        }
    }

    /// The numeric fields of the record in wire order, tag first.
    pub fn wire_fields(&self) -> (out: Vec<i128>)
        ensures
            out@ == self.wire_spec(),
            out@.len() >= 2,
            out@[0] == self.tag_spec(),
            out@[1] == self.timestamp_spec(),
    {
        let mut out: Vec<i128> = Vec::new();
        out.push(self.tag() as i128);
        out.push(self.timestamp() as i128);
        match self {
            EventType::MotionEvent(_, i0, f0, i1, f1, x, y)
            | EventType::TouchBeginEvent(_, i0, f0, i1, f1, x, y)
            | EventType::TouchUpdateEvent(_, i0, f0, i1, f1, x, y)
            | EventType::TouchEndEvent(_, i0, f0, i1, f1, x, y) => {
                out.push(*i0 as i128);
                out.push(*f0 as i128);
                out.push(*i1 as i128);
                out.push(*f1 as i128);
                out.push(*x as i128);
                out.push(*y as i128);
            },
            EventType::ScrollEvent(_, i0, f0, x, y) => {
                out.push(*i0 as i128);
                out.push(*f0 as i128);
                out.push(*x as i128);
                out.push(*y as i128);
            },
            EventType::ButtonPressEvent(_, x, y, b)
            | EventType::ButtonReleaseEvent(_, x, y, b) => {
                out.push(*x as i128);
                out.push(*y as i128);
                out.push(*b as i128);
            },
            EventType::MetadataChangedEvent(..) => {},
        }
        out
    }
}

} // verus!
