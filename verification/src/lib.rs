//! Lifecycle and capture abstraction between a remote-control server and the
//! native capture and input facilities of a windowing system, together with
//! the vocabulary of the messages exchanged with a remote client.

pub mod cerror;
pub mod dispatch;
pub mod native_text;
pub mod protocol;
pub mod screen_capture;
pub mod x11helper;
