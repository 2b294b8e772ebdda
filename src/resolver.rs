//! Attribution of events to applications: which window to ask about, the
//! active window of a root, and the application class of a window.
use vstd::prelude::*;
use crate::wire::{ByteOrder, u32_at, read_u32};
use crate::decoder::RawEvent;
use x11rb::properties::WmClass;
use x11rb::protocol::xproto::GetPropertyReply;

verus! {

/// The type atom of a property that does not exist.
pub const ATOM_NONE: u32 = 0;

/// The type atom of Latin-1 text properties such as `WM_CLASS`.
pub const ATOM_STRING: u32 = 31;

/// The type atom of properties that hold window handles.
pub const ATOM_WINDOW: u32 = 33;

/// The window whose class an event is attributed to.
#[derive(Clone, Copy, Debug, PartialEq, Eq, Structural)]
pub enum AttributionTarget {
    /// The event names its window itself.
    Window(u32),
    /// The event is reported on a root window: the active window of that root
    /// is the one to ask about.
    ActiveWindowOf(u32),
}

/// Why the active-window property of a root could not be read.
#[derive(Clone, Copy, Debug, PartialEq, Eq, Structural)]
pub enum ActiveWindowError {
    /// The property is not a list of 32-bit values.
    IncorrectFormat,
    /// The property holds no value.
    Empty,
}

/// A `WM_CLASS` property reply, read as far as the class field.
#[derive(Debug)]
pub enum WmClassProperty {
    Absent,
    Malformed,
    Class(Vec<u8>),
}

pub open spec fn target_of(e: RawEvent) -> AttributionTarget {
    match e {
        RawEvent::KeyPress { window, .. } => AttributionTarget::Window(window),
        RawEvent::ButtonPress { window, .. } => AttributionTarget::Window(window),
        RawEvent::MotionNotify { root, .. } => AttributionTarget::ActiveWindowOf(root),
        RawEvent::FocusIn { window } => AttributionTarget::Window(window),
        RawEvent::FocusOut { window } => AttributionTarget::Window(window),
    }
}

/// Selects the window to attribute `e` to. Pointer motion is reported
/// relative to the root window, so it goes to the active window of that root.
pub fn attribution_target(e: &RawEvent) -> (r: AttributionTarget)
    ensures
        r == target_of(*e),
        *e matches RawEvent::MotionNotify { root, .. } ==> r == AttributionTarget::ActiveWindowOf(
            root,
        ),
{
    match e {
        RawEvent::KeyPress { window, .. } => AttributionTarget::Window(*window),
        RawEvent::ButtonPress { window, .. } => AttributionTarget::Window(*window),
        RawEvent::MotionNotify { root, .. } => AttributionTarget::ActiveWindowOf(*root),
        RawEvent::FocusIn { window } => AttributionTarget::Window(*window),
        RawEvent::FocusOut { window } => AttributionTarget::Window(*window),
    }
}

/// Reads the active window from the reply to a query of a root window's
/// active-window property: the first of its 32-bit values.
pub fn active_window_from_property(format: u8, value: &[u8], order: ByteOrder) -> (r: Result<
    u32,
    ActiveWindowError,
>)
    ensures
        format != 32 ==> r == Err::<u32, ActiveWindowError>(ActiveWindowError::IncorrectFormat),
        format == 32 && value@.len() < 4 ==> r == Err::<u32, ActiveWindowError>(
            ActiveWindowError::Empty,
        ),
        format == 32 && value@.len() >= 4 ==> r == Ok::<u32, ActiveWindowError>(
            u32_at(value@, 0, order),
        ),
{
    if format != 32 {
        Err(ActiveWindowError::IncorrectFormat)
    } else if value.len() < 4 {
        Err(ActiveWindowError::Empty)
    } else {
        Ok(read_u32(value, 0, order))
    }
}

/// The index of the first zero byte of `s` at or after `i`, or its length.
pub open spec fn first_zero_from(s: Seq<u8>, i: int) -> int
    decreases s.len() - i,
{
    if i < 0 || i >= s.len() {
        s.len() as int
    } else if s[i] == 0 {
        i
    } else {
        first_zero_from(s, i + 1)
    }
}

/// The class field of a `WM_CLASS` value: the bytes after the first zero
/// byte (which ends the instance field), without a final zero byte.
pub open spec fn class_field(v: Seq<u8>) -> Seq<u8> {
    let start = first_zero_from(v, 0) + 1;
    if start >= v.len() {
        Seq::empty()
    } else if v.last() == 0 {
        v.subrange(start, v.len() - 1)
    } else {
        v.subrange(start, v.len() as int)
    }
}

/// The text that a byte string decodes to as UTF-8, or `None` where it is not
/// valid UTF-8.
pub uninterp spec fn utf8_text(b: Seq<u8>) -> Option<Seq<char>>;

/// The class field that a property reply holds, if it is well formed.
pub open spec fn class_view(p: WmClassProperty) -> Option<Seq<u8>> {
    match p {
        WmClassProperty::Class(c) => Some(c@),
        _ => None,
    }
}

/// The view of an optional string.
pub open spec fn text_view(t: Option<String>) -> Option<Seq<char>> {
    match t {
        Some(s) => Some(s@),
        None => None,
    }
}

pub open spec fn is_ascii(b: Seq<u8>) -> bool {
    forall|i: int| 0 <= i < b.len() ==> b[i] < 128
}

/// The characters whose codes are the bytes of `b`.
pub open spec fn ascii_text(b: Seq<u8>) -> Seq<char> {
    b.map_values(|c: u8| c as char)
}

/// Relies on `x11rb::properties::WmClass::from_reply`, which reads only the
/// type, format and value of the reply: a property of type `NONE` is absent,
/// one not of type `STRING` with format 8 is an error, and otherwise
/// `WmClass::class` gives the class field.
#[verifier::external_body]
fn wm_class_of(type_: u32, format: u8, value: Vec<u8>) -> (r: WmClassProperty)
    ensures
        (r matches WmClassProperty::Absent) == (type_ == ATOM_NONE),
        (r matches WmClassProperty::Malformed) == (type_ != ATOM_NONE && (type_ != ATOM_STRING
            || format != 8)),
        type_ == ATOM_STRING && format == 8 ==> class_view(r) == Some(class_field(value@)),
{
    // from_reply reads no field of the reply but type_, format and value.
    let reply = GetPropertyReply { format, type_, value, ..GetPropertyReply::default() };
    match WmClass::from_reply(reply) {
        Ok(None) => WmClassProperty::Absent,
        Ok(Some(class)) => WmClassProperty::Class(class.class().to_vec()),
        Err(_) => WmClassProperty::Malformed,
    }
}

/// Relies on `std::str::from_utf8`: the text of valid UTF-8, else an error.
/// ASCII bytes are valid UTF-8 and stand for the characters of the same code.
#[verifier::external_body]
fn text_of(b: &[u8]) -> (r: Option<String>)
    ensures
        text_view(r) == utf8_text(b@),
        is_ascii(b@) ==> text_view(r) == Some(ascii_text(b@)),
{
    match std::str::from_utf8(b) {
        Ok(s) => Some(s.to_string()),
        Err(_) => None,
    }
}

/// The application named by a window's `WM_CLASS` property.
pub open spec fn application_of(type_: u32, format: u8, value: Seq<u8>) -> Option<Seq<char>> {
    if type_ == ATOM_STRING && format == 8 {
        utf8_text(class_field(value))
    } else {
        None
    }
}

/// The application name that a class field holds: its text where it is
/// valid UTF-8.
pub fn application_from_class(class: &[u8]) -> (r: Option<String>)
    ensures
        text_view(r) == utf8_text(class@),
        is_ascii(class@) ==> text_view(r) == Some(ascii_text(class@)),
{
    text_of(class)
}

/// Resolves the application of a window from the reply to a query of its
/// `WM_CLASS` property. An absent property, one of another type or format,
/// and a class field that is not valid text all give `None`.
pub fn application_name(type_: u32, format: u8, value: Vec<u8>) -> (r: Option<String>)
    ensures
        text_view(r) == application_of(type_, format, value@),
        type_ != ATOM_STRING || format != 8 ==> r is None,
        type_ == ATOM_STRING && format == 8 && is_ascii(class_field(value@)) ==> text_view(r)
            == Some(ascii_text(class_field(value@))),
{
    match wm_class_of(type_, format, value) {
        WmClassProperty::Class(class) => application_from_class(&class),
        _ => None,
    }
}

} // verus!
