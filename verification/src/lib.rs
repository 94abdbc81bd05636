//! Core of an on-screen keyboard for Wayland compositors.
//!
//! The keyboard is a bar at the bottom edge of the screen. A tap on a key types on
//! a virtual keyboard. An input-method client beside it follows which text field
//! is focused, shows and hides the bar with the focus, and offers to commit text
//! to that field. This crate holds its state and every decision it takes; it never
//! talks to the compositor itself. A handler takes the state and an event, and
//! queues [`request::Request`]s for the event loop to carry out.
//!
//! - [`state`]: the state as a whole, its mathematical model, and the queue.
//! - [`input_method`]: the double-buffered input-method client.
//! - [`virtual_keyboard`]: typing, latching, view switching, pointer and touch.
//! - [`window`]: the bar's surface, its height and its visibility.
//! - [`layout`]: keys, views and what a tap does.
//! - [`latch`]: armed modifiers and their combined mask.
//! - [`xkb`]: keysyms and the keystrokes a keymap resolves them to.
//! - [`clock`]: where time stamps come from.
//! - [`laws`]: what holds across operations.
//!
//! Every handler's contract says what the model of the state is afterwards, as a
//! function of the model before and the event.

pub mod clock;
pub mod input_method;
pub mod latch;
pub mod laws;
pub mod layout;
pub mod request;
pub mod state;
pub mod virtual_keyboard;
pub mod window;
pub mod xkb;
