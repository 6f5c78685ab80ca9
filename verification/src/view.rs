//! A view: the compositor-side record of one mapped toplevel surface, and the
//! pending move/resize request that is reconciled against client commits.

use vstd::prelude::*;
use crate::geometry::{Area, Origin};
use crate::shell::Shell;

verus! {

/// One outstanding compositor-initiated geometry change.
///
/// `serial` is the configure sequence number sent to the client and `area`
/// the target geometry.  `update_x` (resp. `update_y`) records that the final
/// x (resp. y) position must be recomputed from the client's rendered size
/// once it commits, because a surface is anchored at its top-left corner and
/// resizing from a left or top edge moves that corner.
#[derive(Clone, Copy, Debug, PartialEq, Eq, Structural)]
pub struct MoveResizeRequest {
    pub serial: u32,
    pub area: Area,
    pub update_x: bool,
    pub update_y: bool,
}

/// Record of one mapped toplevel surface.
///
/// At most one `pending_move_resize` is outstanding at any time: a newer
/// request supersedes, never queues behind, an older one.
#[derive(Clone, Copy, Debug, PartialEq, Eq)]
pub struct View {
    pub shell: Shell,
    pub origin: Origin,
    pub pending_move_resize: Option<MoveResizeRequest>,
}

impl View {
    /// The state of a view right after its surface is mapped.
    pub open spec fn initial(shell: Shell) -> View {
        View { shell, origin: Origin { x: 0, y: 0 }, pending_move_resize: None }
    }

    pub fn new(shell: Shell) -> (v: View)
        ensures
            v == View::initial(shell),
    {
        View { shell, origin: Origin { x: 0, y: 0 }, pending_move_resize: None }
    }
}

} // verus!
