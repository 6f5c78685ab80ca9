//! Window-management core of a Wayland compositor.
//!
//! The library tracks the mapped application surfaces ("views"), the input
//! seat's focus and interactive-gesture state, and the serial-numbered
//! configure/commit handshake that reconciles compositor-initiated geometry
//! changes with client acknowledgements.
//!
//! The host compositor library delivers protocol callbacks; everything it
//! hands this core is a plain value (surface identities, pointer coordinates,
//! serials, sizes), and every state transition is a verified function from
//! state and event to the next state.  The ghost-level transition system lives
//! in [`model`], the executable state in [`server`], [`registry`] and
//! [`seat`], the per-protocol event handler in [`xdg_v6`], the proved
//! invariants of the whole machine in [`laws`], and the decisions of the
//! sibling gamma-control extension in [`gamma`].

pub mod geometry;
pub mod shell;
pub mod view;
pub mod xdg_v6;
pub mod seat;
pub mod registry;
pub mod model;
pub mod laws;
pub mod server;
pub mod gamma;
