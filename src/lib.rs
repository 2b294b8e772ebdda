//! Decoding of a recorded X11 event stream and attribution of each event to
//! the application that owns the affected window.
pub mod wire;
pub mod decoder;
pub mod resolver;
pub mod event;
pub mod dispatch;
