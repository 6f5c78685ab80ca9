//! The seat: current focus and the interactive gesture in progress.

use vstd::prelude::*;
use crate::geometry::{Area, Origin, Size};
use crate::shell::Shell;
use crate::view::View;

verus! {

/// The interactive gesture currently driven by the pointer.
///
/// A gesture is meaningful only while the seat has a focused view: it is
/// reset whenever focus moves away from the view it targets or that view is
/// destroyed.
#[derive(Clone, Copy, Debug, PartialEq, Eq, Structural)]
pub enum Action {
    /// No gesture in progress.
    Idle,
    /// An interactive move.  `start` is the pointer-to-surface offset
    /// captured when the gesture began; the view's new origin is the
    /// absolute pointer position minus `start`.
    Moving { start: Origin },
    /// An interactive resize.  `start` is the absolute pointer position and
    /// `start_area` the view's geometry when the gesture began; `edges` is a
    /// bitmask of the dragged edges.
    Resizing { start: Origin, start_area: Area, edges: u32 },
}

/// One input seat: the focused view, if any, and the gesture in progress.
///
/// `focused` holds the shell identity of the focused view; the view itself
/// is owned by the registry, which stays the single source of truth.
/// `focused` is `None` only while no view is mapped.
#[derive(Clone, Copy, Debug, PartialEq, Eq)]
pub struct Seat {
    pub focused: Option<Shell>,
    pub action: Action,
}

impl Seat {
    pub fn new() -> (r: Seat)
        ensures
            r == (Seat { focused: None, action: Action::Idle }),
    {
        Seat { focused: None, action: Action::Idle }
    }

    /// Gives the view with identity `shell` the focus.
    ///
    /// Focus assignment itself never touches the gesture: callers that move
    /// focus away from a gesture's target must reset the action themselves,
    /// as the map and unmap paths do.
    pub fn focus_view(&mut self, shell: Shell)
        ensures
            final(self).focused == Some(shell),
            final(self).action == old(self).action,
    {
        self.focused = Some(shell);
    }

    /// Drops the focus; used when the last view goes away.
    pub fn clear_focus(&mut self)
        ensures
            final(self).focused is None,
            final(self).action == old(self).action,
    {
        self.focused = None;
    }

    /// Ends the gesture in progress, if any: a pointer-button release ends a
    /// gesture unconditionally.
    pub fn end_gesture(&mut self)
        ensures
            final(self).action is Idle,
            final(self).focused == old(self).focused,
    {
        self.action = Action::Idle;
    }

    /// Begins an interactive resize of `view`, capturing the absolute
    /// pointer position and the view's current geometry (its origin and the
    /// rendered size the host reports) so that later pointer motion can be
    /// turned into configure requests.
    pub fn begin_resize(&mut self, view: &View, rendered: Size, pointer: Origin, edges: u32)
        ensures
            final(self).action == (Action::Resizing {
                start: pointer,
                start_area: Area { origin: view.origin, size: rendered },
                edges,
            }),
            final(self).focused == old(self).focused,
    {
        self.action = Action::Resizing {
            start: pointer,
            start_area: Area { origin: view.origin, size: rendered },
            edges,
        };
    }
}

} // verus!
