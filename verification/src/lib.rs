//! Input latency bookkeeping: the time between the press and the release of a
//! key or mouse button, and the log of measured gestures, newest first.

pub mod clock;
pub mod event;
pub mod record;
pub mod state;
pub mod trace;
