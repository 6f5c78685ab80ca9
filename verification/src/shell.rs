//! Shell identity: an equality-comparable token naming one protocol surface.
//!
//! The protocol surface itself is owned by the host compositor library; this
//! core only ever holds the identity and matches incoming events against it.
//! New shell protocols are supported by adding variants to [`Shell`] and a
//! matching event handler, so the union stays closed and comparable.

use vstd::prelude::*;
use crate::xdg_v6::XdgV6;

verus! {

/// Identity of one surface under some supported shell protocol.
///
/// Two values are equal exactly when they name the same protocol surface.
/// The identity is a lookup key, never an owner: it may outlive the surface,
/// and a destroyed surface's identity simply stops matching any registry
/// entry once the unmap or destroy event has been handled.
#[derive(Clone, Copy, Debug, PartialEq, Eq, Structural)]
pub enum Shell {
    XdgV6(XdgV6),
}

} // verus!
