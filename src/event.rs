//! The events reported to a sink, and their assembly from decoded records.
use vstd::prelude::*;
use crate::decoder::RawEvent;
use crate::resolver::{application_name, application_of};

verus! {

/// What happened.
#[derive(Clone, Copy, Debug, PartialEq, Eq, Structural)]
pub enum EventData {
    KeyPress(u32),
    PointerPress(u8),
    /// The pointer position relative to the root window.
    PointerMove { x: i16, y: i16 },
    FocusIn,
    FocusOut,
}

/// An instant, as seconds and nanoseconds since the Unix epoch.
#[derive(Clone, Copy, Debug, PartialEq, Eq, Structural)]
pub struct Timestamp {
    pub secs: i64,
    pub nanos: u32,
}

/// An event, attributed to the application that owns its window.
#[derive(Debug)]
pub struct Event {
    /// when the event occurred
    pub timestamp: Timestamp,
    /// the application that generated the event: the class of its window
    pub app: String,
    /// event-specific data
    pub data: EventData,
}

pub open spec fn data_of(e: RawEvent) -> EventData {
    match e {
        RawEvent::KeyPress { detail, .. } => EventData::KeyPress(detail as u32),
        RawEvent::ButtonPress { detail, .. } => EventData::PointerPress(detail),
        RawEvent::MotionNotify { root_x, root_y, .. } => EventData::PointerMove {
            x: root_x,
            y: root_y,
        },
        RawEvent::FocusIn { .. } => EventData::FocusIn,
        RawEvent::FocusOut { .. } => EventData::FocusOut,
    }
}

/// The data that a decoded record carries.
pub fn event_data(e: &RawEvent) -> (r: EventData)
    ensures
        r == data_of(*e),
{
    match e {
        RawEvent::KeyPress { detail, .. } => EventData::KeyPress(*detail as u32),
        RawEvent::ButtonPress { detail, .. } => EventData::PointerPress(*detail),
        RawEvent::MotionNotify { root_x, root_y, .. } => EventData::PointerMove {
            x: *root_x,
            y: *root_y,
        },
        RawEvent::FocusIn { .. } => EventData::FocusIn,
        RawEvent::FocusOut { .. } => EventData::FocusOut,
    }
}

/// Builds the event to report for a decoded record, or `None` where no
/// application could be resolved: such an event is dropped.
pub fn assemble(raw: &RawEvent, app: Option<String>, timestamp: Timestamp) -> (r: Option<Event>)
    ensures
        app is None <==> r is None,
        app matches Some(a) ==> (r matches Some(ev) && ev.app@ == a@ && ev.data == data_of(*raw)
            && ev.timestamp == timestamp),
{
    match app {
        Some(app) => Some(Event { timestamp, app, data: event_data(raw) }),
        None => None,
    }
}

/// The event to report for a decoded record, given the reply to a query of
/// the `WM_CLASS` property of the window it is attributed to. Where that
/// reply names no application as text, the event is dropped.
pub fn event_for_class_property(
    raw: &RawEvent,
    type_: u32,
    format: u8,
    value: Vec<u8>,
    timestamp: Timestamp,
) -> (r: Option<Event>)
    ensures
        application_of(type_, format, value@) is None <==> r is None,
        application_of(type_, format, value@) matches Some(a) ==> (r matches Some(ev) && ev.app@
            == a && ev.data == data_of(*raw) && ev.timestamp == timestamp),
{
    let app = application_name(type_, format, value);
    assemble(raw, app, timestamp)
}

} // verus!
