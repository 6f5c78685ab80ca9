//! Decisions of the gamma-control protocol extension: a stateless,
//! validate-and-forward device control.  The Wayland resource plumbing and
//! the device call itself stay with the host; this module decides, from the
//! plain values of a request, whether the request is honoured or refused.

use vstd::prelude::*;

verus! {

/// The protocol version of the gamma-control manager this core supports.
pub const GAMMA_CONTROL_VERSION: u32 = 1;

/// Why a gamma request is refused and reported to the offending client.
#[derive(Clone, Copy, Debug, PartialEq, Eq, Structural)]
pub enum GammaError {
    /// The three ramps do not have the same size; the request is dropped
    /// whole, never partially applied.
    SizeMismatch,
}

/// Decides a set-gamma request from the element counts of the three ramps.
/// Equal counts yield the ramp size to forward to the output device; unequal
/// counts are a protocol error surfaced to the client.  The counts are
/// element counts, and the forwarded size is a 16-bit value, so each ramp
/// must hold at most `u16::MAX` elements.
pub fn set_gamma_size(red_len: usize, green_len: usize, blue_len: usize) -> (r: Result<
    u16,
    GammaError,
>)
    requires
        red_len <= u16::MAX,
    ensures
        r == if red_len == green_len && green_len == blue_len {
            Result::<u16, GammaError>::Ok(red_len as u16)
        } else {
            Result::<u16, GammaError>::Err(GammaError::SizeMismatch)
        },
{
    if red_len == green_len && green_len == blue_len {
        Ok(red_len as u16)
    } else {
        Err(GammaError::SizeMismatch)
    }
}

/// Decides whether a client binding the gamma-control manager at `version`
/// is accepted; a version newer than the supported one is refused.
pub fn bind_version_supported(version: u32) -> (r: bool)
    ensures
        r == (version <= GAMMA_CONTROL_VERSION),
{
    version <= GAMMA_CONTROL_VERSION
}

} // verus!
