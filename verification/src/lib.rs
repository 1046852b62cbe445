//! Core of a crosshair overlay for Wayland compositors.
//!
//! The overlay is a small layer-shell surface, centred on the output and
//! transparent to input. This crate holds everything about it that can be
//! decided without touching a socket or a file: which globals to bind, how the
//! pixel buffer is laid out and filled, in what order the layer-surface
//! handshake issues its requests, and how the surface is torn down and rebuilt
//! while the pointer hovers over it. A host program feeds protocol events in
//! and carries the returned actions out.
//!
//! - [`state`]: the client's state machine, `State::handle` at its centre.
//! - [`action`]: what the state machine asks the host to do.
//! - [`globals`]: the globals that the client binds, recognised by name.
//! - [`buffer`], [`pixel`], [`crosshair`], [`decoded`]: the pixel buffer and
//!   its two sources, the procedural crosshair and a decoded image.
//! - [`path`]: the choice of the image file.
//! - [`session`]: the compositor's side, and the proof that the client's
//!   requests reach it in an order that the protocol accepts.
//! - [`theorems`]: what holds of the client whatever the compositor sends.

pub mod action;
pub mod buffer;
pub mod crosshair;
pub mod decoded;
pub mod globals;
pub mod path;
pub mod pixel;
pub mod session;
pub mod state;
pub mod theorems;
