//! The frame decoder: splits a buffer of recorded server data into units and
//! parses the core input events among them.
use vstd::prelude::*;
use crate::wire::{ByteOrder, u32_at, i16_at, read_u32, read_i16};

verus! {

/// Tag of a unit that is a reply rather than an event or an error.
pub const REPLY_TAG: u8 = 0;

pub const KEY_PRESS: u8 = 2;

pub const BUTTON_PRESS: u8 = 4;

pub const MOTION_NOTIFY: u8 = 6;

pub const FOCUS_IN: u8 = 9;

pub const FOCUS_OUT: u8 = 10;

/// Size of every core event and error record.
pub const RECORD_LEN: usize = 32;

/// A core input event as it stands on the wire, with the fields this library reads.
#[derive(Clone, Copy, Debug, PartialEq, Eq, Structural)]
pub enum RawEvent {
    KeyPress { window: u32, detail: u8 },
    ButtonPress { window: u32, detail: u8 },
    MotionNotify { root: u32, root_x: i16, root_y: i16 },
    FocusIn { window: u32 },
    FocusOut { window: u32 },
}

/// What the decoder finds at a cursor position.
#[derive(Clone, Copy, Debug, PartialEq, Eq, Structural)]
pub enum DecodeStep {
    /// A recognized event, and the position right after its record.
    Event { event: RawEvent, next: usize },
    /// A reply, an error or an event of another kind, to be stepped over.
    Skip { next: usize },
    /// The cursor is at the end of the buffer.
    Exhausted,
    /// The unit at the cursor runs past the end of the buffer.
    Truncated,
}

/// The events of a whole buffer, and whether decoding stopped at a unit that
/// runs past its end.
#[derive(Debug)]
pub struct Decoded {
    pub events: Vec<RawEvent>,
    pub truncated: bool,
}

pub open spec fn is_recognized(tag: u8) -> bool {
    tag == KEY_PRESS || tag == BUTTON_PRESS || tag == MOTION_NOTIFY || tag == FOCUS_IN || tag
        == FOCUS_OUT
}

/// The number of bytes of the unit that starts at `pos`: a reply carries its
/// length in 4-byte words beyond the 32-byte header, anything else is one record.
pub open spec fn unit_len(buf: Seq<u8>, pos: int, order: ByteOrder) -> int {
    if buf[pos] == REPLY_TAG {
        (u32_at(buf, pos + 4, order) as int) * 4 + 32
    } else {
        32
    }
}

/// The unit at `pos` lies wholly inside the buffer.
pub open spec fn unit_fits(buf: Seq<u8>, pos: int, order: ByteOrder) -> bool {
    pos + 32 <= buf.len() && pos + unit_len(buf, pos, order) <= buf.len()
}

/// The event of the record at `pos`, whose tag is recognized.
pub open spec fn parse_at(buf: Seq<u8>, pos: int, order: ByteOrder) -> RawEvent {
    let tag = buf[pos];
    if tag == KEY_PRESS {
        RawEvent::KeyPress { window: u32_at(buf, pos + 12, order), detail: buf[pos + 1] }
    } else if tag == BUTTON_PRESS {
        RawEvent::ButtonPress { window: u32_at(buf, pos + 12, order), detail: buf[pos + 1] }
    } else if tag == MOTION_NOTIFY {
        RawEvent::MotionNotify {
            root: u32_at(buf, pos + 8, order),
            root_x: i16_at(buf, pos + 20, order),
            root_y: i16_at(buf, pos + 22, order),
        }
    } else if tag == FOCUS_IN {
        RawEvent::FocusIn { window: u32_at(buf, pos + 4, order) }
    } else {
        RawEvent::FocusOut { window: u32_at(buf, pos + 4, order) }
    }
}

/// The events found from `pos` on, in order, and whether a unit that runs
/// past the end stopped the decoding.
pub open spec fn decode_from(buf: Seq<u8>, pos: int, order: ByteOrder) -> (Seq<RawEvent>, bool)
    decreases buf.len() - pos,
{
    if pos < 0 || pos >= buf.len() {
        (Seq::empty(), false)
    } else if !unit_fits(buf, pos, order) {
        (Seq::empty(), true)
    } else {
        let rest = decode_from(buf, pos + unit_len(buf, pos, order), order);
        if is_recognized(buf[pos]) {
            (seq![parse_at(buf, pos, order)] + rest.0, rest.1)
        } else {
            rest
        }
    }
}

/// The events of a whole buffer.
pub open spec fn decode(buf: Seq<u8>, order: ByteOrder) -> (Seq<RawEvent>, bool) {
    decode_from(buf, 0, order)
}

fn parse_record(buf: &[u8], pos: usize, order: ByteOrder) -> (r: RawEvent)
    requires
        pos + 32 <= buf@.len(),
        is_recognized(buf@[pos as int]),
    ensures
        r == parse_at(buf@, pos as int, order),
{
    let tag = buf[pos];
    if tag == KEY_PRESS {
        RawEvent::KeyPress { window: read_u32(buf, pos + 12, order), detail: buf[pos + 1] }
    } else if tag == BUTTON_PRESS {
        RawEvent::ButtonPress { window: read_u32(buf, pos + 12, order), detail: buf[pos + 1] }
    } else if tag == MOTION_NOTIFY {
        RawEvent::MotionNotify {
            root: read_u32(buf, pos + 8, order),
            root_x: read_i16(buf, pos + 20, order),
            root_y: read_i16(buf, pos + 22, order),
        }
    } else if tag == FOCUS_IN {
        RawEvent::FocusIn { window: read_u32(buf, pos + 4, order) }
    } else {
        RawEvent::FocusOut { window: read_u32(buf, pos + 4, order) }
    }
}

/// Identifies the unit at `pos`: an event to report, a unit to step over, the
/// end of the buffer, or a unit cut off by the end of the buffer.
pub fn decode_next(buf: &[u8], pos: usize, order: ByteOrder) -> (r: DecodeStep)
    ensures
        match r {
            DecodeStep::Exhausted => pos >= buf@.len(),
            DecodeStep::Truncated => pos < buf@.len() && !unit_fits(buf@, pos as int, order),
            DecodeStep::Event { event, next } => {
                &&& pos < buf@.len()
                &&& unit_fits(buf@, pos as int, order)
                &&& is_recognized(buf@[pos as int])
                &&& event == parse_at(buf@, pos as int, order)
                &&& next == pos + unit_len(buf@, pos as int, order)
                &&& next == pos + 32
            },
            DecodeStep::Skip { next } => {
                &&& pos < buf@.len()
                &&& unit_fits(buf@, pos as int, order)
                &&& !is_recognized(buf@[pos as int])
                &&& next == pos + unit_len(buf@, pos as int, order)
            },
        },
{
    let len = buf.len();
    if pos >= len {
        return DecodeStep::Exhausted;
    }
    if len - pos < RECORD_LEN {
        return DecodeStep::Truncated;
    }
    let tag = buf[pos];
    let size: u64 = if tag == REPLY_TAG {
        let words = read_u32(buf, pos + 4, order) as u64;
        words * 4 + 32
    } else {
        32
    };
    if size > (len - pos) as u64 {
        return DecodeStep::Truncated;
    }
    let next = pos + size as usize;
    if is_recognized_tag(tag) {
        DecodeStep::Event { event: parse_record(buf, pos, order), next }
    } else {
        DecodeStep::Skip { next }
    }
}

/// Whether `tag` is one of the five core input events this library reports.
pub fn is_recognized_tag(tag: u8) -> (r: bool)
    ensures
        r == is_recognized(tag),
{
    tag == KEY_PRESS || tag == BUTTON_PRESS || tag == MOTION_NOTIFY || tag == FOCUS_IN || tag
        == FOCUS_OUT
}

/// Decodes every unit of `buf` in order, collecting the recognized events;
/// stops at a unit that runs past the end of the buffer.
pub fn decode_buffer(buf: &[u8], order: ByteOrder) -> (r: Decoded)
    ensures
        r.events@ == decode(buf@, order).0,
        r.truncated == decode(buf@, order).1,
{
    let mut events: Vec<RawEvent> = Vec::new();
    let mut pos: usize = 0;
    let mut truncated = false;
    while pos < buf.len() && !truncated
        invariant
            pos <= buf@.len(),
            !truncated ==> events@ + decode_from(buf@, pos as int, order).0 == decode(
                buf@,
                order,
            ).0,
            !truncated ==> decode_from(buf@, pos as int, order).1 == decode(buf@, order).1,
            truncated ==> events@ == decode(buf@, order).0 && decode(buf@, order).1,
        decreases buf@.len() - pos + (if truncated { 0int } else { 1int }),
    {
        match decode_next(buf, pos, order) {
            DecodeStep::Event { event, next } => {
                proof {
                    assert(events@.push(event) + decode_from(buf@, next as int, order).0
                        =~= events@ + decode_from(buf@, pos as int, order).0);
                }
                events.push(event);
                pos = next;
            },
            DecodeStep::Skip { next } => {
                pos = next;
            },
            DecodeStep::Exhausted => {},
            DecodeStep::Truncated => {
                proof {
                    assert(events@ + Seq::<RawEvent>::empty() =~= events@);
                }
                truncated = true;
            },
        }
    }
    proof {
        if !truncated {
            assert(events@ + Seq::<RawEvent>::empty() =~= events@);
        }
    }
    Decoded { events, truncated }
}

/// Decoding does not depend on what stands before the cursor: the units of
/// `t` from `p` on decode alike when `t` follows any prefix.
pub proof fn lemma_decode_shift(a: Seq<u8>, t: Seq<u8>, p: int, order: ByteOrder)
    requires
        0 <= p,
    ensures
        decode_from(a + t, a.len() + p, order) == decode_from(t, p, order),
    decreases t.len() - p,
{
    let b = a + t;
    let q = a.len() + p;
    if p < t.len() && p + 32 <= t.len() {
        assert(b[q] == t[p]);
        assert(b[q + 1] == t[p + 1]);
        assert(unit_len(b, q, order) == unit_len(t, p, order));
        assert(parse_at(b, q, order) == parse_at(t, p, order));
        if unit_fits(t, p, order) {
            lemma_decode_shift(a, t, p + unit_len(t, p, order), order);
        }
    }
}

/// A buffer of `k` whole records, each of a recognized event, decodes to
/// exactly `k` events, one per record and in the order of the records, with
/// nothing cut off.
pub proof fn lemma_fixed_records(buf: Seq<u8>, k: nat, order: ByteOrder)
    requires
        buf.len() == 32 * k,
        forall|i: int| 0 <= i < k ==> is_recognized(#[trigger] buf[32 * i]),
    ensures
        decode(buf, order).0.len() == k,
        forall|i: int| 0 <= i < k ==> decode(buf, order).0[i] == parse_at(buf, 32 * i, order),
        !decode(buf, order).1,
{
    lemma_fixed_records_from(buf, k as int, 0, order);
}

proof fn lemma_fixed_records_from(buf: Seq<u8>, k: int, j: int, order: ByteOrder)
    requires
        0 <= j,
        buf.len() == 32 * k,
        j <= k,
        forall|i: int| 0 <= i < k ==> is_recognized(#[trigger] buf[32 * i]),
    ensures
        decode_from(buf, 32 * j, order).0.len() == k - j,
        forall|i: int|
            0 <= i < k - j ==> #[trigger] decode_from(buf, 32 * j, order).0[i] == parse_at(
                buf,
                32 * (j + i),
                order,
            ),
        !decode_from(buf, 32 * j, order).1,
    decreases k - j,
{
    if j < k {
        assert(is_recognized(buf[32 * j]));
        lemma_fixed_records_from(buf, k, j + 1, order);
        assert(32 * j + 32 == 32 * (j + 1));
        let rest = decode_from(buf, 32 * (j + 1), order);
        assert forall|i: int| 0 <= i < k - j implies #[trigger] decode_from(buf, 32 * j, order).0[i]
            == parse_at(buf, 32 * (j + i), order) by {
            if i > 0 {
                assert(rest.0[i - 1] == parse_at(buf, 32 * ((j + 1) + (i - 1)), order));
                assert(32 * ((j + 1) + (i - 1)) == 32 * (j + i));
            }
        }
    }
}

/// A reply whose length field says `L` words spans `L * 4 + 32` bytes, is
/// stepped over whole, and the units after it decode as they would alone.
pub proof fn lemma_reply_skipped(reply: Seq<u8>, tail: Seq<u8>, order: ByteOrder)
    requires
        reply.len() >= 32,
        reply[0] == REPLY_TAG,
        reply.len() == (u32_at(reply, 4, order) as int) * 4 + 32,
    ensures
        decode(reply + tail, order) == decode(tail, order),
{
    let b = reply + tail;
    assert(b[0] == reply[0]);
    assert(u32_at(b, 4, order) == u32_at(reply, 4, order));
    assert(unit_len(b, 0, order) == reply.len());
    lemma_decode_shift(reply, tail, 0, order);
}

/// A record with a tag that is neither a reply nor a recognized event is
/// stepped over as exactly 32 bytes, and the events after it are kept.
pub proof fn lemma_unrecognized_skipped(rec: Seq<u8>, tail: Seq<u8>, order: ByteOrder)
    requires
        rec.len() == 32,
        rec[0] != REPLY_TAG,
        !is_recognized(rec[0]),
    ensures
        decode(rec + tail, order) == decode(tail, order),
{
    let b = rec + tail;
    assert(b[0] == rec[0]);
    lemma_decode_shift(rec, tail, 0, order);
}

} // verus!
