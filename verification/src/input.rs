//! What the event multiplexer delivers, and how a raw device event becomes
//! an event record.

use crate::event::EventType;
use vstd::prelude::*;

verus! {

/// A fixed-point axis value: signed integral part, unsigned fractional part.
#[derive(Clone, Copy, Debug, PartialEq, Eq)]
pub struct Fp3232 {
    pub integral: i32,
    pub frac: u32,
}

/// The fields of a raw device event that the pipeline reads.
#[derive(Clone, Debug, PartialEq, Eq)]
pub struct RawEvent {
    /// Device timestamp.
    pub time: u32,
    /// Button identifier of a button event.
    pub detail: u32,
    /// Raw axis values, one per reported axis.
    pub axisvalues_raw: Vec<Fp3232>,
}

/// The pointer position in root-window coordinates.
#[derive(Clone, Copy, Debug, PartialEq, Eq)]
pub struct Pointer {
    pub root_x: i16,
    pub root_y: i16,
}

/// A device event by kind.
#[derive(Clone, Debug, PartialEq, Eq)]
pub enum Event {
    RawMotion(RawEvent),
    RawTouchBegin(RawEvent),
    RawTouchUpdate(RawEvent),
    RawTouchEnd(RawEvent),
    RawButtonPress(RawEvent),
    RawButtonRelease(RawEvent),
    /// Any event that the pipeline does not record.
    Other,
}

/// One message of the multiplexed stream.
#[derive(Clone, Debug, PartialEq, Eq)]
pub enum Message {
    /// The metadata timer fired.
    MetadataChangedMessage,
    /// A device event, with the pointer position resolved for it.
    X11EventMessage(Event, Pointer),
}

impl RawEvent {
    /// The event reports at least `n` raw axis values.
    pub open spec fn has_axes(&self, n: nat) -> bool {
        self.axisvalues_raw@.len() >= n
    }

    /// The record of an event with two axes, without its variant.
    pub open spec fn two_axes(&self, pointer: Pointer) -> (u64, i32, u32, i32, u32, i16, i16) {
        (
            self.time as u64,
            self.axisvalues_raw@[0].integral,
            self.axisvalues_raw@[0].frac,
            self.axisvalues_raw@[1].integral,
            self.axisvalues_raw@[1].frac,
            pointer.root_x,
            pointer.root_y,
        )
    }

    /// The motion record of the event: both axes, then the pointer.
    pub open spec fn motion_record(&self, pointer: Pointer) -> EventType {
        let f = self.two_axes(pointer);
        EventType::MotionEvent(f.0, f.1, f.2, f.3, f.4, f.5, f.6)
    }

    /// The scroll record of the event: the first axis, then the pointer.
    pub open spec fn scroll_record(&self, pointer: Pointer) -> EventType {
        EventType::ScrollEvent(
            self.time as u64,
            self.axisvalues_raw@[0].integral,
            self.axisvalues_raw@[0].frac,
            pointer.root_x,
            pointer.root_y,
        )
    }

    /// The touch-begin record of the event.
    pub open spec fn touch_begin_record(&self, pointer: Pointer) -> EventType {
        let f = self.two_axes(pointer);
        EventType::TouchBeginEvent(f.0, f.1, f.2, f.3, f.4, f.5, f.6)
    }

    /// The touch-update record of the event.
    pub open spec fn touch_update_record(&self, pointer: Pointer) -> EventType {
        let f = self.two_axes(pointer);
        EventType::TouchUpdateEvent(f.0, f.1, f.2, f.3, f.4, f.5, f.6)
    }

    /// The touch-end record of the event.
    pub open spec fn touch_end_record(&self, pointer: Pointer) -> EventType {
        let f = self.two_axes(pointer);
        EventType::TouchEndEvent(f.0, f.1, f.2, f.3, f.4, f.5, f.6)
    }

    /// The button-press record of the event: the pointer, then the button.
    pub open spec fn button_press_record(&self, pointer: Pointer) -> EventType {
        EventType::ButtonPressEvent(self.time as u64, pointer.root_x, pointer.root_y, self.detail)
    }

    /// The button-release record of the event.
    pub open spec fn button_release_record(&self, pointer: Pointer) -> EventType {
        EventType::ButtonReleaseEvent(self.time as u64, pointer.root_x, pointer.root_y, self.detail)
    }
}

impl Event {
    /// A touch event reports at least two raw axis values.
    pub open spec fn well_formed(&self) -> bool {
        match self {
            Event::RawTouchBegin(raw) | Event::RawTouchUpdate(raw) | Event::RawTouchEnd(raw) => {
                raw.has_axes(2)
            },
            _ => true,
        }
    }

    /// The record that the event becomes, if any. A raw motion with exactly
    /// one axis value is a scroll, with exactly two a motion, and with any
    /// other number it is not recorded.
    pub open spec fn record_spec(&self, pointer: Pointer) -> Option<EventType> {
        match self {
            Event::RawMotion(raw) => {
                if raw.axisvalues_raw@.len() == 1 {
                    Some(raw.scroll_record(pointer))
                } else if raw.axisvalues_raw@.len() == 2 {
                    Some(raw.motion_record(pointer))
                } else {
                    None
                }
            },
            Event::RawTouchBegin(raw) => Some(raw.touch_begin_record(pointer)),
            Event::RawTouchUpdate(raw) => Some(raw.touch_update_record(pointer)),
            Event::RawTouchEnd(raw) => Some(raw.touch_end_record(pointer)),
            Event::RawButtonPress(raw) => Some(raw.button_press_record(pointer)),
            Event::RawButtonRelease(raw) => Some(raw.button_release_record(pointer)),
            Event::Other => None,
        }
    }

    /// Whether a touch event reports the two axis values that its record
    /// needs; `true` for every other event.
    pub fn is_well_formed(&self) -> (ok: bool)
        ensures
            ok == self.well_formed(),
    {
        match self {
            Event::RawTouchBegin(raw) | Event::RawTouchUpdate(raw) | Event::RawTouchEnd(raw) => {
                raw.axisvalues_raw.len() >= 2
            },
            _ => true,
        }
    }

    /// Whether the event becomes a record.
    pub fn has_record(&self, pointer: Pointer) -> (b: bool)
        ensures
            b == self.record_spec(pointer).is_some(),
    {
        match self {
            Event::RawMotion(raw) => {
                let axes: usize = raw.axisvalues_raw.len();
                axes == 1 || axes == 2
            },
            Event::Other => false,
            _ => true,
        }
    }

    /// The record that the event becomes, if any.
    pub fn record(&self, pointer: Pointer) -> (record: Option<EventType>)
        requires
            self.well_formed(),
        ensures
            record == self.record_spec(pointer),
    {
        match self {
            Event::RawMotion(raw) => {
                let axes: usize = raw.axisvalues_raw.len();
                if axes == 1 {
                    Some(raw.to_scroll(pointer))
                } else if axes == 2 {
                    Some(raw.to_motion(pointer))
                } else {
                    None
                }
            },
            Event::RawTouchBegin(raw) => Some(raw.to_touch_begin(pointer)),
            Event::RawTouchUpdate(raw) => Some(raw.to_touch_update(pointer)),
            Event::RawTouchEnd(raw) => Some(raw.to_touch_end(pointer)),
            Event::RawButtonPress(raw) => Some(raw.to_button_press(pointer)),
            Event::RawButtonRelease(raw) => Some(raw.to_button_release(pointer)),
            Event::Other => None,
        }
    }
}

impl RawEvent {
    /// The motion record of the event.
    pub fn to_motion(&self, pointer: Pointer) -> (record: EventType)
        requires
            self.has_axes(2),
        ensures
            record == self.motion_record(pointer),
    {
        EventType::MotionEvent(
            self.time as u64,
            self.axisvalues_raw[0].integral,
            self.axisvalues_raw[0].frac,
            self.axisvalues_raw[1].integral,
            self.axisvalues_raw[1].frac,
            pointer.root_x,
            pointer.root_y,
        )
    }

    /// The scroll record of the event.
    pub fn to_scroll(&self, pointer: Pointer) -> (record: EventType)
        requires
            self.has_axes(1),
        ensures
            record == self.scroll_record(pointer),
    {
        EventType::ScrollEvent(
            self.time as u64,
            self.axisvalues_raw[0].integral,
            self.axisvalues_raw[0].frac,
            pointer.root_x,
            pointer.root_y,
        )
    }

    /// The touch-begin record of the event.
    pub fn to_touch_begin(&self, pointer: Pointer) -> (record: EventType)
        requires
            self.has_axes(2),
        ensures
            record == self.touch_begin_record(pointer),
    {
        EventType::TouchBeginEvent(
            self.time as u64,
            self.axisvalues_raw[0].integral,
            self.axisvalues_raw[0].frac,
            self.axisvalues_raw[1].integral,
            self.axisvalues_raw[1].frac,
            pointer.root_x,
            pointer.root_y,
        )
    }

    /// The touch-update record of the event.
    pub fn to_touch_update(&self, pointer: Pointer) -> (record: EventType)
        requires
            self.has_axes(2),
        ensures
            record == self.touch_update_record(pointer),
    {
        EventType::TouchUpdateEvent(
            self.time as u64,
            self.axisvalues_raw[0].integral,
            self.axisvalues_raw[0].frac,
            self.axisvalues_raw[1].integral,
            self.axisvalues_raw[1].frac,
            pointer.root_x,
            pointer.root_y,
        )
    }

    /// The touch-end record of the event.
    pub fn to_touch_end(&self, pointer: Pointer) -> (record: EventType)
        requires
            self.has_axes(2),
        ensures
            record == self.touch_end_record(pointer),
    {
        EventType::TouchEndEvent(
            self.time as u64,
            self.axisvalues_raw[0].integral,
            self.axisvalues_raw[0].frac,
            self.axisvalues_raw[1].integral,
            self.axisvalues_raw[1].frac,
            pointer.root_x,
            pointer.root_y,
        )
    }

    /// The button-press record of the event.
    pub fn to_button_press(&self, pointer: Pointer) -> (record: EventType)
        ensures
            record == self.button_press_record(pointer),
    {
        EventType::ButtonPressEvent(self.time as u64, pointer.root_x, pointer.root_y, self.detail)
    }

    /// The button-release record of the event.
    pub fn to_button_release(&self, pointer: Pointer) -> (record: EventType)
        ensures
            record == self.button_release_record(pointer),
    {
        EventType::ButtonReleaseEvent(self.time as u64, pointer.root_x, pointer.root_y, self.detail)
    }
}

} // verus!
