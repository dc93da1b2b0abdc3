//! A game clock: one to four countdown timers that take turns, the screens
//! around them, and the form in which their time limits are entered.
//!
//! Time enters the library as plain numbers of nanoseconds. A duration is a
//! count of nanoseconds; a timestamp is the count of nanoseconds since an
//! origin that the caller picks once and keeps.

pub mod pane;
pub mod settings;
pub mod text;
pub mod time;
