//! Core of a quick-note overlay: the persisted note, the hotkey-driven window
//! visibility state machine, and the notification request.
pub mod error;
pub mod note;
pub mod notify;
pub mod window;

