//! Typed messages and notification capabilities shared by the PTY driver, the
//! terminal state machine and the UI event loop of a terminal emulator.
pub mod event;
pub mod listener;
pub mod msg;
pub mod notify;
pub mod window;
