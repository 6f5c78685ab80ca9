//! The server: the view registry and the seat, with the event dispatch that
//! the host compositor's callbacks drive.  All state transitions happen
//! synchronously inside one callback at a time, so plain mutable fields
//! suffice; there is no locking in this core.

use vstd::prelude::*;
use vstd::view::View as _;
use crate::geometry::{Area, Origin, Size, EDGE_BOTTOM, EDGE_LEFT, EDGE_RIGHT, EDGE_TOP};
use crate::laws::{
    lemma_index_of_unique, lemma_motion_step_wf, lemma_release_step_wf, lemma_step_preserves_wf,
};
use crate::model::{Event, ServerModel};
use crate::registry::ViewRegistry;
use crate::seat::{Action, Seat};
use crate::view::{MoveResizeRequest, View};
use crate::xdg_v6::XdgV6;

verus! {

/// The whole window-management state: the registry owns the views, the seat
/// refers to them by shell identity, so there is a single source of truth.
#[derive(Clone, Debug, PartialEq, Eq)]
pub struct Server {
    pub views: ViewRegistry,
    pub seat: Seat,
}

impl Server {
    /// The ghost snapshot this state denotes.
    pub open spec fn model(self) -> ServerModel {
        ServerModel {
            views: self.views.entries@,
            focused: self.seat.focused,
            action: self.seat.action,
        }
    }

    pub fn new() -> (r: Server)
        ensures
            r.model() == (ServerModel {
                views: Seq::<View>::empty(),
                focused: None,
                action: Action::Idle,
            }),
            r.model().wf(),
    {
        let r = Server { views: ViewRegistry::new(), seat: Seat::new() };
        proof {
            assert(r.model().views =~= Seq::<View>::empty());
        }
        r
    }

    /// A pointer motion during a gesture.  While a move gesture is in
    /// progress the focused view's origin follows the pointer directly;
    /// while a resize gesture is in progress the dragged-out geometry is
    /// returned as a configure request for the host to send under `serial`,
    /// and recorded as the view's pending request, superseding any older
    /// one; the view's own geometry is not touched until the client commits.
    pub fn pointer_motion(&mut self, pointer: Origin, serial: u32) -> (r: Option<
        MoveResizeRequest,
    >)
        requires
            old(self).model().wf(),
            old(self).model().motion_fits(pointer),
        ensures
            final(self).model() == old(self).model().motion_step(pointer, serial),
            r == old(self).model().motion_request(pointer, serial),
            final(self).model().wf(),
    {
        let ghost s0 = self.model();
        proof {
            lemma_motion_step_wf(s0, pointer, serial);
        }
        let action = self.seat.action;
        match action {
            Action::Idle => None,
            Action::Moving { start } => {
                match self.seat.focused {
                    Some(f) => {
                        match self.views.index_of(f) {
                            Some(i) => {
                                proof {
                                    lemma_index_of_unique(s0, f, i as int);
                                }
                                let x64: i64 = pointer.x as i64 - start.x as i64;
                                let y64: i64 = pointer.y as i64 - start.y as i64;
                                let v = self.views.entries[i];
                                self.views.entries[i] = View {
                                    shell: v.shell,
                                    origin: Origin { x: x64 as i32, y: y64 as i32 },
                                    pending_move_resize: v.pending_move_resize,
                                };
                                None
                            },
                            None => None,
                        }
                    },
                    None => None,
                }
            },
            Action::Resizing { start, start_area, edges } => {
                match self.seat.focused {
                    Some(f) => {
                        match self.views.index_of(f) {
                            Some(i) => {
                                proof {
                                    lemma_index_of_unique(s0, f, i as int);
                                }
                                let dx: i64 = pointer.x as i64 - start.x as i64;
                                let dy: i64 = pointer.y as i64 - start.y as i64;
                                let x: i32 = if edges & EDGE_LEFT != 0 {
                                    (start_area.origin.x as i64 + dx) as i32
                                } else {
                                    start_area.origin.x
                                };
                                let width: u32 = if edges & EDGE_LEFT != 0 {
                                    (start_area.size.width as i64 - dx) as u32
                                } else if edges & EDGE_RIGHT != 0 {
                                    (start_area.size.width as i64 + dx) as u32
                                } else {
                                    start_area.size.width
                                };
                                let y: i32 = if edges & EDGE_TOP != 0 {
                                    (start_area.origin.y as i64 + dy) as i32
                                } else {
                                    start_area.origin.y
                                };
                                let height: u32 = if edges & EDGE_TOP != 0 {
                                    (start_area.size.height as i64 - dy) as u32
                                } else if edges & EDGE_BOTTOM != 0 {
                                    (start_area.size.height as i64 + dy) as u32
                                } else {
                                    start_area.size.height
                                };
                                let request = MoveResizeRequest {
                                    serial,
                                    area: Area {
                                        origin: Origin { x, y },
                                        size: Size { width, height },
                                    },
                                    update_x: edges & EDGE_LEFT != 0,
                                    update_y: edges & EDGE_TOP != 0,
                                };
                                let v = self.views.entries[i];
                                self.views.entries[i] = View {
                                    shell: v.shell,
                                    origin: v.origin,
                                    pending_move_resize: Some(request),
                                };
                                Some(request)
                            },
                            None => None,
                        }
                    },
                    None => None,
                }
            },
        }
    }

    /// A pointer-button release: ends any gesture, touches nothing else.
    pub fn button_release(&mut self)
        requires
            old(self).model().wf(),
        ensures
            final(self).model() == old(self).model().release_step(),
            final(self).model().wf(),
    {
        let ghost s0 = self.model();
        proof {
            lemma_release_step_wf(s0);
        }
        self.seat.end_gesture();
    }

    /// The single dispatch: applies one protocol event to the state, through
    /// the per-protocol handler, and hands back the configure request the
    /// host must send, if the event produced one.
    pub fn apply(&mut self, handler: &mut XdgV6, event: Event) -> (r: Option<MoveResizeRequest>)
        requires
            old(self).model().wf(),
            old(self).model().event_fits(event),
        ensures
            final(self).model() == old(self).model().step(event),
            final(self).model().wf(),
            (match event {
                Event::PointerMotion { pointer, serial } => r == old(self).model().motion_request(
                    pointer,
                    serial,
                ),
                _ => r is None,
            }),
    {
        let ghost s0 = self.model();
        proof {
            lemma_step_preserves_wf(s0, event);
        }
        match event {
            Event::MapRequest { shell, is_toplevel } => {
                handler.map_request(self, shell, is_toplevel);
                None
            },
            Event::UnmapRequest { shell } => {
                handler.unmap_request(self, shell);
                None
            },
            Event::SurfaceDestroyed { shell } => {
                handler.destroyed(self, shell);
                None
            },
            Event::Commit { shell, configure_serial, rendered } => {
                handler.on_commit(self, shell, configure_serial, rendered);
                None
            },
            Event::MoveRequest { shell, pointer } => {
                handler.move_request(self, shell, pointer);
                None
            },
            Event::ResizeRequest { shell, pointer, rendered, edges } => {
                handler.resize_request(self, shell, pointer, rendered, edges);
                None
            },
            Event::PointerMotion { pointer, serial } => self.pointer_motion(pointer, serial),
            Event::ButtonRelease => {
                self.button_release();
                None
            },
        }
    }
}

} // verus!
