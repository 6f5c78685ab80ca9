//! The ghost-level transition system: a mathematical snapshot of the whole
//! window-management state and one total step function per protocol event.
//!
//! Every executable handler promises that the new state is exactly the step
//! function applied to the old one, so the invariants proved about the steps
//! in [`crate::laws`] carry over to every reachable runtime state.

use vstd::prelude::*;
use crate::geometry::{Area, Origin, Size, EDGE_BOTTOM, EDGE_LEFT, EDGE_RIGHT, EDGE_TOP};
use crate::seat::Action;
use crate::shell::Shell;
use crate::view::{MoveResizeRequest, View};

verus! {

/// Whether `v` fits a signed 32-bit coordinate.
pub open spec fn in_i32(v: int) -> bool {
    i32::MIN <= v <= i32::MAX
}

/// Whether `v` fits an unsigned 32-bit extent.
pub open spec fn in_u32(v: int) -> bool {
    0 <= v <= u32::MAX
}

/// One protocol event, with everything the host reports about it carried as
/// a plain value: identities, coordinates, serials and rendered sizes.
#[derive(Clone, Copy, Debug, PartialEq, Eq, Structural)]
pub enum Event {
    /// A surface asked to be mapped; `is_toplevel` reports whether its role
    /// is toplevel (other roles, e.g. popups, are left to other handlers).
    MapRequest { shell: Shell, is_toplevel: bool },
    /// A surface asked to be unmapped.
    UnmapRequest { shell: Shell },
    /// A surface was destroyed.
    SurfaceDestroyed { shell: Shell },
    /// The client committed; `configure_serial` is the configure it
    /// acknowledges and `rendered` the size it actually rendered.
    Commit { shell: Shell, configure_serial: u32, rendered: Size },
    /// The client asked for an interactive move; `pointer` is the current
    /// absolute pointer position.
    MoveRequest { shell: Shell, pointer: Origin },
    /// The client asked for an interactive resize of the given edges;
    /// `rendered` is the surface's current rendered size.
    ResizeRequest { shell: Shell, pointer: Origin, rendered: Size, edges: u32 },
    /// The pointer moved; `serial` is the serial the host will attach to a
    /// configure sent for this motion, if one is needed.
    PointerMotion { pointer: Origin, serial: u32 },
    /// A pointer button was released, ending any gesture.
    ButtonRelease,
}

/// The pointer-to-surface offset captured when a move gesture begins.
pub open spec fn gesture_start(pointer: Origin, origin: Origin) -> Origin {
    Origin { x: (pointer.x - origin.x) as i32, y: (pointer.y - origin.y) as i32 }
}

/// The origin a moving view takes when the pointer stands at `pointer`.
pub open spec fn moved_origin(pointer: Origin, start: Origin) -> Origin {
    Origin { x: (pointer.x - start.x) as i32, y: (pointer.y - start.y) as i32 }
}

/// The geometry proposed after dragging the `edges` of `a` by `(dx, dy)`.
/// A dragged left or top edge moves the origin and shrinks the size by the
/// same amount; a dragged right or bottom edge only changes the size.  When
/// opposite edges are both set, the left (resp. top) edge wins.
pub open spec fn resized_area(a: Area, edges: u32, dx: int, dy: int) -> Area {
    let x = if edges & EDGE_LEFT != 0 {
        (a.origin.x + dx) as i32
    } else {
        a.origin.x
    };
    let width = if edges & EDGE_LEFT != 0 {
        (a.size.width - dx) as u32
    } else if edges & EDGE_RIGHT != 0 {
        (a.size.width + dx) as u32
    } else {
        a.size.width
    };
    let y = if edges & EDGE_TOP != 0 {
        (a.origin.y + dy) as i32
    } else {
        a.origin.y
    };
    let height = if edges & EDGE_TOP != 0 {
        (a.size.height - dy) as u32
    } else if edges & EDGE_BOTTOM != 0 {
        (a.size.height + dy) as u32
    } else {
        a.size.height
    };
    Area { origin: Origin { x, y }, size: Size { width, height } }
}

/// The origin a commit applies: along each axis flagged for update, the
/// position is recomputed so that the surface's anchored top-left corner
/// accounts for the size the client actually rendered; the other axes keep
/// the view's current position.
pub open spec fn applied_origin(v: View, mr: MoveResizeRequest, rendered: Size) -> Origin {
    Origin {
        x: if mr.update_x {
            (mr.area.origin.x + mr.area.size.width - rendered.width) as i32
        } else {
            v.origin.x
        },
        y: if mr.update_y {
            (mr.area.origin.y + mr.area.size.height - rendered.height) as i32
        } else {
            v.origin.y
        },
    }
}

/// How one view reacts to a commit acknowledging `configure_serial`.
///
/// A commit older than the pending request changes nothing.  A commit at or
/// past the pending serial applies its geometry; only an exact match clears
/// the pending slot, so a client skipping intermediate configures is
/// tolerated while a superseded request is never dropped by mistake.
pub open spec fn commit_view(v: View, configure_serial: u32, rendered: Size) -> View {
    match v.pending_move_resize {
        Some(mr) => {
            if configure_serial >= mr.serial {
                View {
                    shell: v.shell,
                    origin: applied_origin(v, mr, rendered),
                    pending_move_resize: if configure_serial == mr.serial {
                        None
                    } else {
                        v.pending_move_resize
                    },
                }
            } else {
                v
            }
        },
        None => v,
    }
}

/// Ghost snapshot of the whole window-management state.
pub struct ServerModel {
    /// The registry's views, in map order.
    pub views: Seq<View>,
    /// The focused view's shell identity, if any.
    pub focused: Option<Shell>,
    /// The gesture in progress.
    pub action: Action,
}

impl ServerModel {
    pub open spec fn contains_shell(self, shell: Shell) -> bool {
        exists|i: int| 0 <= i < self.views.len() && (#[trigger] self.views[i]).shell == shell
    }

    /// Index of the entry carrying `shell`; meaningful when `contains_shell`
    /// holds and unique under `unique_shells`.
    pub open spec fn index_of(self, shell: Shell) -> int {
        choose|i: int| 0 <= i < self.views.len() && (#[trigger] self.views[i]).shell == shell
    }

    /// The entry carrying `shell`; meaningful when `contains_shell` holds.
    pub open spec fn view_of(self, shell: Shell) -> View {
        self.views[self.index_of(shell)]
    }

    /// No two registry entries share a shell identity.
    pub open spec fn unique_shells(self) -> bool {
        forall|i: int, j: int|
            0 <= i < j < self.views.len() ==> (#[trigger] self.views[i]).shell != (
            #[trigger] self.views[j]).shell
    }

    /// The focused identity, if any, is present in the registry.
    pub open spec fn focus_valid(self) -> bool {
        self.focused matches Some(s) ==> self.contains_shell(s)
    }

    /// A gesture is only ever in progress while some view is focused.
    pub open spec fn action_needs_focus(self) -> bool {
        !(self.action is Idle) ==> self.focused is Some
    }

    /// The focus is clear only while no view is mapped.
    pub open spec fn focus_present(self) -> bool {
        self.views.len() > 0 ==> self.focused is Some
    }

    /// Well-formedness of a reachable state.
    pub open spec fn wf(self) -> bool {
        &&& self.unique_shells()
        &&& self.focus_valid()
        &&& self.action_needs_focus()
        &&& self.focus_present()
    }

    /// A map event: a new toplevel surface gets a view at the origin, is
    /// appended to the registry and takes the focus; taking focus away from
    /// a gesture's target resets the gesture.  Mapping an already-registered
    /// identity or a non-toplevel surface changes nothing.
    pub open spec fn map_step(self, shell: Shell, is_toplevel: bool) -> ServerModel {
        if is_toplevel && !self.contains_shell(shell) {
            ServerModel {
                views: self.views.push(View::initial(shell)),
                focused: Some(shell),
                action: Action::Idle,
            }
        } else {
            self
        }
    }

    /// The registry after every entry carrying `shell` is removed.
    pub open spec fn removed_views(self, shell: Shell) -> Seq<View> {
        self.views.filter(|v: View| v.shell != shell)
    }

    /// An unmap or destroy event: the view is removed; if it was focused,
    /// the gesture is reset and focus falls back to the oldest remaining
    /// view, or is cleared when none remains.  Removing an identity that is
    /// not registered changes nothing.
    pub open spec fn remove_step(self, shell: Shell) -> ServerModel {
        if !self.contains_shell(shell) {
            self
        } else {
            let views = self.removed_views(shell);
            if self.focused == Some(shell) {
                ServerModel {
                    views,
                    focused: if views.len() > 0 {
                        Some(views[0].shell)
                    } else {
                        None
                    },
                    action: Action::Idle,
                }
            } else {
                ServerModel { views, focused: self.focused, action: self.action }
            }
        }
    }

    /// A move request: only honoured for the focused view; the gesture
    /// captures the pointer-to-surface offset.  A request for any other
    /// surface changes nothing, since that client has no standing.
    pub open spec fn move_step(self, shell: Shell, pointer: Origin) -> ServerModel {
        if self.focused == Some(shell) && self.contains_shell(shell) {
            ServerModel {
                views: self.views,
                focused: self.focused,
                action: Action::Moving {
                    start: gesture_start(pointer, self.view_of(shell).origin),
                },
            }
        } else {
            self
        }
    }

    /// A resize request: only honoured for the focused view; the gesture
    /// captures the pointer position and the view's current geometry.
    pub open spec fn resize_step(
        self,
        shell: Shell,
        pointer: Origin,
        rendered: Size,
        edges: u32,
    ) -> ServerModel {
        if self.focused == Some(shell) && self.contains_shell(shell) {
            ServerModel {
                views: self.views,
                focused: self.focused,
                action: Action::Resizing {
                    start: pointer,
                    start_area: Area { origin: self.view_of(shell).origin, size: rendered },
                    edges,
                },
            }
        } else {
            self
        }
    }

    /// A commit event: the view named by `shell` reconciles the acknowledged
    /// serial against its pending request, as [`commit_view`] says; focus
    /// and gesture are untouched.
    pub open spec fn commit_step(self, shell: Shell, configure_serial: u32, rendered: Size) -> ServerModel {
        if self.contains_shell(shell) {
            ServerModel {
                views: self.views.update(
                    self.index_of(shell),
                    commit_view(self.view_of(shell), configure_serial, rendered),
                ),
                focused: self.focused,
                action: self.action,
            }
        } else {
            self
        }
    }

    /// The configure request a pointer motion produces: one is sent only
    /// while a resize gesture is in progress on a registered focused view,
    /// and it carries the geometry dragged out by the pointer.  Along a
    /// dragged left (resp. top) edge the final position depends on the size
    /// the client will render, so `update_x` (resp. `update_y`) is set.
    pub open spec fn motion_request(self, pointer: Origin, serial: u32) -> Option<
        MoveResizeRequest,
    > {
        match self.action {
            Action::Resizing { start, start_area, edges } => match self.focused {
                Some(f) => if self.contains_shell(f) {
                    Some(
                        MoveResizeRequest {
                            serial,
                            area: resized_area(
                                start_area,
                                edges,
                                pointer.x - start.x,
                                pointer.y - start.y,
                            ),
                            update_x: edges & EDGE_LEFT != 0,
                            update_y: edges & EDGE_TOP != 0,
                        },
                    )
                } else {
                    None
                },
                None => None,
            },
            _ => None,
        }
    }

    /// A pointer motion: while a move gesture is in progress the focused
    /// view follows the pointer directly; while a resize gesture is in
    /// progress the motion's configure request supersedes the view's pending
    /// one, and the view's own geometry is left for the commit to change.
    pub open spec fn motion_step(self, pointer: Origin, serial: u32) -> ServerModel {
        match self.action {
            Action::Idle => self,
            Action::Moving { start } => match self.focused {
                Some(f) => if self.contains_shell(f) {
                    let i = self.index_of(f);
                    ServerModel {
                        views: self.views.update(
                            i,
                            View {
                                shell: self.views[i].shell,
                                origin: moved_origin(pointer, start),
                                pending_move_resize: self.views[i].pending_move_resize,
                            },
                        ),
                        focused: self.focused,
                        action: self.action,
                    }
                } else {
                    self
                },
                None => self,
            },
            Action::Resizing { .. } => match self.focused {
                Some(f) => if self.contains_shell(f) {
                    let i = self.index_of(f);
                    ServerModel {
                        views: self.views.update(
                            i,
                            View {
                                shell: self.views[i].shell,
                                origin: self.views[i].origin,
                                pending_move_resize: self.motion_request(pointer, serial),
                            },
                        ),
                        focused: self.focused,
                        action: self.action,
                    }
                } else {
                    self
                },
                None => self,
            },
        }
    }

    /// A button release: the gesture ends unconditionally.
    pub open spec fn release_step(self) -> ServerModel {
        ServerModel { views: self.views, focused: self.focused, action: Action::Idle }
    }

    /// The whole machine: one total step function over events.
    pub open spec fn step(self, e: Event) -> ServerModel {
        match e {
            Event::MapRequest { shell, is_toplevel } => self.map_step(shell, is_toplevel),
            Event::UnmapRequest { shell } => self.remove_step(shell),
            Event::SurfaceDestroyed { shell } => self.remove_step(shell),
            Event::Commit { shell, configure_serial, rendered } => self.commit_step(
                shell,
                configure_serial,
                rendered,
            ),
            Event::MoveRequest { shell, pointer } => self.move_step(shell, pointer),
            Event::ResizeRequest { shell, pointer, rendered, edges } => self.resize_step(
                shell,
                pointer,
                rendered,
                edges,
            ),
            Event::PointerMotion { pointer, serial } => self.motion_step(pointer, serial),
            Event::ButtonRelease => self.release_step(),
        }
    }

    /// The machine's arithmetic stays inside 32 bits on a move request:
    /// whenever the request will be honoured, the captured offset fits.
    pub open spec fn move_fits(self, shell: Shell, pointer: Origin) -> bool {
        self.focused == Some(shell) && self.contains_shell(shell) ==> {
            let o = self.view_of(shell).origin;
            in_i32(pointer.x - o.x) && in_i32(pointer.y - o.y)
        }
    }

    /// The recomputed positions of a commit fit 32 bits whenever they will
    /// be applied.
    pub open spec fn commit_fits(self, shell: Shell, configure_serial: u32, rendered: Size) -> bool {
        self.contains_shell(shell) ==> match self.view_of(shell).pending_move_resize {
            Some(mr) => configure_serial >= mr.serial ==> {
                &&& (mr.update_x ==> in_i32(
                    mr.area.origin.x + mr.area.size.width - rendered.width,
                ))
                &&& (mr.update_y ==> in_i32(
                    mr.area.origin.y + mr.area.size.height - rendered.height,
                ))
            },
            None => true,
        }
    }

    /// The geometry dragged out by a pointer motion fits 32 bits whenever it
    /// will be computed.
    pub open spec fn motion_fits(self, pointer: Origin) -> bool {
        match self.action {
            Action::Idle => true,
            Action::Moving { start } => (self.focused matches Some(f) && self.contains_shell(f))
                ==> in_i32(pointer.x - start.x) && in_i32(pointer.y - start.y),
            Action::Resizing { start, start_area, edges } => (self.focused matches Some(f)
                && self.contains_shell(f)) ==> {
                let dx = pointer.x - start.x;
                let dy = pointer.y - start.y;
                &&& (edges & EDGE_LEFT != 0 ==> in_i32(start_area.origin.x + dx) && in_u32(
                    start_area.size.width - dx,
                ))
                &&& (edges & EDGE_LEFT == 0 && edges & EDGE_RIGHT != 0 ==> in_u32(
                    start_area.size.width + dx,
                ))
                &&& (edges & EDGE_TOP != 0 ==> in_i32(start_area.origin.y + dy) && in_u32(
                    start_area.size.height - dy,
                ))
                &&& (edges & EDGE_TOP == 0 && edges & EDGE_BOTTOM != 0 ==> in_u32(
                    start_area.size.height + dy,
                ))
            },
        }
    }

    /// The arithmetic guard of a whole event, as [`step`] dispatches it.
    pub open spec fn event_fits(self, e: Event) -> bool {
        match e {
            Event::Commit { shell, configure_serial, rendered } => self.commit_fits(
                shell,
                configure_serial,
                rendered,
            ),
            Event::MoveRequest { shell, pointer } => self.move_fits(shell, pointer),
            Event::PointerMotion { pointer, serial } => self.motion_fits(pointer),
            _ => true,
        }
    }
}

} // verus!
