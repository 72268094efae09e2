//! A global hotkey engine: rules keyed by button, a tracker of held buttons,
//! and a resolver that turns each input event into callbacks and a verdict.
pub mod button;
pub mod button_set;
pub mod event;
pub mod button_arg;
pub mod modifier;
pub mod hook;
pub mod storage;
pub mod resolver;
pub mod hotkey;
pub mod bridge;
pub mod devices;
pub mod laws;
pub mod register;
