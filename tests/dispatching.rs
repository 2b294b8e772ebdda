use activity_record::decoder::RawEvent;
use activity_record::dispatch::{
    receive_unit, step, Action, Input, LoopState, FROM_SERVER, START_OF_DATA,
};
use activity_record::event::{event_for_class_property, Event, EventData, Timestamp};
use activity_record::resolver::{
    active_window_from_property, attribution_target, AttributionTarget, ATOM_STRING,
};
use activity_record::wire::ByteOrder;

const LE: ByteOrder = ByteOrder::LittleEndian;

struct Unit {
    client_swapped: bool,
    category: u8,
    data: Vec<u8>,
}

fn key_press(detail: u8, window: u32) -> Vec<u8> {
    let mut r = vec![0u8; 32];
    r[0] = 2;
    r[1] = detail;
    r[12..16].copy_from_slice(&window.to_le_bytes());
    r
}

fn motion(root: u32, x: i16, y: i16) -> Vec<u8> {
    let mut r = vec![0u8; 32];
    r[0] = 6;
    r[8..12].copy_from_slice(&root.to_le_bytes());
    r[20..22].copy_from_slice(&x.to_le_bytes());
    r[22..24].copy_from_slice(&y.to_le_bytes());
    r
}

/// Runs the loop over `units` with a window table standing in for the
/// metadata connection; returns the events the sink received and the number
/// of units handed to the decoder.
fn run(
    units: Vec<Unit>,
    class_of: &dyn Fn(u32) -> Vec<u8>,
    active_of: &dyn Fn(u32) -> u32,
) -> (Vec<Event>, usize) {
    let mut sink = Vec::new();
    let mut decoded_units = 0;
    let mut state = LoopState::AwaitingStart;
    let ts = Timestamp { secs: 1, nanos: 0 };
    for u in units {
        let out = receive_unit(state, u.client_swapped, u.category, &u.data, LE);
        state = out.transition.next;
        if let Some(d) = out.decoded {
            decoded_units += 1;
            for raw in d.events.iter() {
                let window = match attribution_target(raw) {
                    AttributionTarget::Window(w) => w,
                    AttributionTarget::ActiveWindowOf(root) => {
                        let v = active_of(root).to_le_bytes();
                        active_window_from_property(32, &v, LE).unwrap()
                    }
                };
                if let Some(e) = event_for_class_property(raw, ATOM_STRING, 8, class_of(window), ts) {
                    sink.push(e);
                }
            }
        }
    }
    let end = step(state, Input::Closed);
    assert_eq!(end.next, LoopState::Stopped);
    (sink, decoded_units)
}

#[test]
fn end_to_end_key_press_then_motion() {
    let w = 0x0140_0003;
    let root = 0x1E5;
    let active = 0x0220_0010;
    let units = vec![
        Unit { client_swapped: false, category: START_OF_DATA, data: Vec::new() },
        Unit { client_swapped: false, category: FROM_SERVER, data: key_press(38, w) },
        Unit { client_swapped: false, category: FROM_SERVER, data: motion(root, 10, 20) },
    ];
    let class_of = move |win: u32| -> Vec<u8> {
        if win == w {
            b"terminal\0Terminal\0".to_vec()
        } else if win == active {
            b"browser\0Browser\0".to_vec()
        } else {
            b"root\0Root\0".to_vec()
        }
    };
    let active_of = move |r: u32| -> u32 {
        assert_eq!(r, root);
        active
    };
    let (events, _) = run(units, &class_of, &active_of);
    assert_eq!(events.len(), 2);
    assert_eq!(events[0].app, "Terminal");
    assert_eq!(events[0].data, EventData::KeyPress(38));
    assert_eq!(events[1].app, "Browser");
    assert_eq!(events[1].data, EventData::PointerMove { x: 10, y: 20 });
}

#[test]
fn swapped_unit_is_never_decoded() {
    let units = vec![
        Unit { client_swapped: false, category: START_OF_DATA, data: Vec::new() },
        Unit { client_swapped: true, category: FROM_SERVER, data: key_press(1, 5) },
        Unit { client_swapped: false, category: FROM_SERVER, data: key_press(2, 5) },
    ];
    let class_of = |_: u32| b"a\0App\0".to_vec();
    let active_of = |r: u32| r;
    let (events, decoded_units) = run(units, &class_of, &active_of);
    assert_eq!(decoded_units, 1);
    assert_eq!(events.len(), 1);
    assert_eq!(events[0].data, EventData::KeyPress(2));

    let out = receive_unit(LoopState::Streaming, true, FROM_SERVER, &key_press(1, 5), LE);
    assert!(out.decoded.is_none());
    assert_eq!(out.transition.action, Action::DiscardSwapped);
    assert_eq!(out.transition.next, LoopState::Streaming);
}

#[test]
fn unattributed_events_are_not_delivered() {
    let units = vec![
        Unit { client_swapped: false, category: START_OF_DATA, data: Vec::new() },
        Unit { client_swapped: false, category: FROM_SERVER, data: key_press(1, 5) },
    ];
    let class_of = |_: u32| vec![b'x', 0, 0xFF, 0];
    let active_of = |r: u32| r;
    let (events, decoded_units) = run(units, &class_of, &active_of);
    assert_eq!(decoded_units, 1);
    assert!(events.is_empty());
}

#[test]
fn first_unit_opens_the_stream() {
    let t = step(LoopState::AwaitingStart, Input::Unit { client_swapped: false, category: START_OF_DATA });
    assert_eq!(t.next, LoopState::Streaming);
    assert_eq!(t.action, Action::StreamStarted);
    assert!(!t.unexpected_first);
}

#[test]
fn unexpected_first_unit_is_noted_and_handled() {
    let t = step(LoopState::AwaitingStart, Input::Unit { client_swapped: false, category: FROM_SERVER });
    assert!(t.unexpected_first);
    assert_eq!(t.action, Action::Decode);
    assert_eq!(t.next, LoopState::Streaming);
    let t = step(LoopState::Streaming, Input::Unit { client_swapped: false, category: FROM_SERVER });
    assert!(!t.unexpected_first);
}

#[test]
fn unsupported_category_is_ignored() {
    let t = step(LoopState::Streaming, Input::Unit { client_swapped: false, category: 1 });
    assert_eq!(t.action, Action::IgnoreCategory);
    assert_eq!(t.next, LoopState::Streaming);
    let out = receive_unit(LoopState::Streaming, false, 5, &key_press(1, 1), LE);
    assert!(out.decoded.is_none());
}

#[test]
fn closed_transport_stops_for_good() {
    let t = step(LoopState::Streaming, Input::Closed);
    assert_eq!(t.next, LoopState::Stopped);
    assert_eq!(t.action, Action::Stop);
    let t = step(LoopState::Stopped, Input::Unit { client_swapped: false, category: FROM_SERVER });
    assert_eq!(t.next, LoopState::Stopped);
    assert_eq!(t.action, Action::Stop);
}

#[test]
fn decoded_unit_carries_its_events() {
    let mut data = key_press(38, 7);
    data.extend(motion(1, 3, 4));
    let out = receive_unit(LoopState::Streaming, false, FROM_SERVER, &data, LE);
    let d = out.decoded.unwrap();
    assert_eq!(
        d.events,
        vec![
            RawEvent::KeyPress { window: 7, detail: 38 },
            RawEvent::MotionNotify { root: 1, root_x: 3, root_y: 4 }
        ]
    );
}
