//! The xdg-shell-v6 front end: the per-surface identity token and the event
//! handler that translates this protocol's callbacks into operations on the
//! view registry and the seat.

use vstd::prelude::*;
use vstd::view::View as _;
use crate::geometry::{Origin, Size};
use crate::laws::{
    lemma_commit_step_wf, lemma_index_of_unique, lemma_map_step_wf, lemma_move_step_wf,
    lemma_remove_step_wf, lemma_resize_step_wf,
};
use crate::seat::Action;
use crate::server::Server;
use crate::shell::Shell;
use crate::view::View;

verus! {

/// Identity of one xdg-shell-v6 surface.
///
/// The host compositor library owns the surface; `shell_surface` stands for
/// its handle and is only ever used as an equality key.
#[derive(Clone, Copy, Debug, PartialEq, Eq, Structural)]
pub struct XdgV6 {
    pub shell_surface: u64,
}

impl XdgV6 {
    pub fn new() -> (r: XdgV6)
        ensures
            r == (XdgV6 { shell_surface: 0 }),
    {
        XdgV6 { shell_surface: 0 }
    }

    /// The identity of the surface with the given handle.
    pub fn from_surface(shell_surface: u64) -> (r: XdgV6)
        ensures
            r == (XdgV6 { shell_surface }),
    {
        XdgV6 { shell_surface }
    }

    /// A surface asked to be mapped.  A toplevel surface not yet registered
    /// gets a view at the origin, is appended to the registry and takes the
    /// focus; since focus moves away from any gesture's target, the gesture
    /// is reset.  Any other request changes nothing: non-toplevel roles are
    /// left to other handlers, and a duplicate identity is never inserted.
    pub fn map_request(&mut self, server: &mut Server, shell: Shell, is_toplevel: bool)
        requires
            old(server).model().wf(),
        ensures
            final(server).model() == old(server).model().map_step(shell, is_toplevel),
            final(server).model().wf(),
    {
        let ghost s0 = server.model();
        proof {
            lemma_map_step_wf(s0, shell, is_toplevel);
        }
        if is_toplevel {
            let view = View::new(shell);
            let inserted = server.views.insert(view);
            if inserted {
                server.seat.focus_view(shell);
                server.seat.end_gesture();
            }
        }
    }

    /// A surface asked to be unmapped: its view is removed from the
    /// registry; if it was focused, the gesture ends and focus falls back to
    /// the oldest remaining view, or is cleared when none remains.  Removal
    /// of an unregistered identity is a no-op, since destroy callbacks may
    /// race with other removal paths.
    pub fn unmap_request(&mut self, server: &mut Server, shell: Shell)
        requires
            old(server).model().wf(),
        ensures
            final(server).model() == old(server).model().remove_step(shell),
            final(server).model().wf(),
    {
        let ghost s0 = server.model();
        proof {
            lemma_remove_step_wf(s0, shell);
        }
        let focused_match: bool = match server.seat.focused {
            Some(f) => f == shell,
            None => false,
        };
        match server.views.index_of(shell) {
            None => {},
            Some(_) => {
                server.views.remove_by_shell(shell);
                if focused_match {
                    server.seat.end_gesture();
                    let fallback: Option<Shell> = match server.views.first() {
                        Some(v) => Some(v.shell),
                        None => None,
                    };
                    match fallback {
                        Some(f) => server.seat.focus_view(f),
                        None => server.seat.clear_focus(),
                    }
                }
            },
        }
    }

    /// The surface was destroyed; teardown is the same as for an unmap, and
    /// runs before any other handler can touch the freed identity, so no
    /// later state refers to a destroyed view.
    pub fn destroyed(&mut self, server: &mut Server, shell: Shell)
        requires
            old(server).model().wf(),
        ensures
            final(server).model() == old(server).model().remove_step(shell),
            final(server).model().wf(),
    {
        self.unmap_request(server, shell);
    }

    /// The client committed, acknowledging `configure_serial`, with
    /// `rendered` as the size it actually drew.  If the acknowledged serial
    /// has reached the view's pending request, the request's geometry is
    /// applied — recomputing the position along each axis whose final place
    /// depends on the rendered size — and an exact serial match clears the
    /// pending slot.  An older commit, an unregistered surface or an empty
    /// pending slot change nothing.
    pub fn on_commit(&mut self, server: &mut Server, shell: Shell, configure_serial: u32, rendered: Size)
        requires
            old(server).model().wf(),
            old(server).model().commit_fits(shell, configure_serial, rendered),
        ensures
            final(server).model() == old(server).model().commit_step(
                shell,
                configure_serial,
                rendered,
            ),
            final(server).model().wf(),
    {
        let ghost s0 = server.model();
        proof {
            lemma_commit_step_wf(s0, shell, configure_serial, rendered);
        }
        match server.views.index_of(shell) {
            None => {},
            Some(i) => {
                proof {
                    lemma_index_of_unique(s0, shell, i as int);
                }
                let v = server.views.entries[i];
                match v.pending_move_resize {
                    None => {
                        proof {
                            assert(s0.views.update(i as int, s0.views[i as int]) =~= s0.views);
                        }
                    },
                    Some(mr) => {
                        if configure_serial >= mr.serial {
                            let mut x: i32 = v.origin.x;
                            let mut y: i32 = v.origin.y;
                            if mr.update_x {
                                let x64: i64 = mr.area.origin.x as i64 + mr.area.size.width as i64
                                    - rendered.width as i64;
                                x = x64 as i32;
                            }
                            if mr.update_y {
                                let y64: i64 = mr.area.origin.y as i64 + mr.area.size.height as i64
                                    - rendered.height as i64;
                                y = y64 as i32;
                            }
                            let pending: Option<crate::view::MoveResizeRequest> = if configure_serial
                                == mr.serial {
                                None
                            } else {
                                v.pending_move_resize
                            };
                            server.views.entries[i] = View {
                                shell: v.shell,
                                origin: Origin { x, y },
                                pending_move_resize: pending,
                            };
                        } else {
                            proof {
                                assert(s0.views.update(i as int, s0.views[i as int]) =~= s0.views);
                            }
                        }
                    },
                }
            },
        }
    }

    /// The client asked for an interactive move.  Only the focused view may
    /// start a gesture: for it, the pointer-to-surface offset is captured
    /// and a move gesture begins; a request for any other surface is
    /// silently ignored, since that client has no standing.
    pub fn move_request(&mut self, server: &mut Server, shell: Shell, pointer: Origin)
        requires
            old(server).model().wf(),
            old(server).model().move_fits(shell, pointer),
        ensures
            final(server).model() == old(server).model().move_step(shell, pointer),
            final(server).model().wf(),
    {
        let ghost s0 = server.model();
        proof {
            lemma_move_step_wf(s0, shell, pointer);
        }
        let focused_match: bool = match server.seat.focused {
            Some(f) => f == shell,
            None => false,
        };
        if focused_match {
            match server.views.index_of(shell) {
                Some(i) => {
                    proof {
                        lemma_index_of_unique(s0, shell, i as int);
                    }
                    let v = server.views.entries[i];
                    let x64: i64 = pointer.x as i64 - v.origin.x as i64;
                    let y64: i64 = pointer.y as i64 - v.origin.y as i64;
                    server.seat.action = Action::Moving {
                        start: Origin { x: x64 as i32, y: y64 as i32 },
                    };
                },
                None => {},
            }
        }
    }

    /// The client asked for an interactive resize of the given edges, with
    /// `rendered` as the surface's current size.  Under the same standing
    /// rule as a move, the seat captures the pointer position and the
    /// view's geometry and a resize gesture begins.
    pub fn resize_request(
        &mut self,
        server: &mut Server,
        shell: Shell,
        pointer: Origin,
        rendered: Size,
        edges: u32,
    )
        requires
            old(server).model().wf(),
        ensures
            final(server).model() == old(server).model().resize_step(
                shell,
                pointer,
                rendered,
                edges,
            ),
            final(server).model().wf(),
    {
        let ghost s0 = server.model();
        proof {
            lemma_resize_step_wf(s0, shell, pointer, rendered, edges);
        }
        let focused_match: bool = match server.seat.focused {
            Some(f) => f == shell,
            None => false,
        };
        if focused_match {
            match server.views.index_of(shell) {
                Some(i) => {
                    proof {
                        lemma_index_of_unique(s0, shell, i as int);
                    }
                    let v = server.views.entries[i];
                    server.seat.begin_resize(&v, rendered, pointer, edges);
                },
                None => {},
            }
        }
    }
}

/// Binds each newly created protocol surface to a fresh handler instance;
/// a pure factory that performs no policy itself.
pub struct XdgV6ShellManager;

impl XdgV6ShellManager {
    pub fn new_surface(&mut self) -> (handler: XdgV6)
        ensures
            handler == (XdgV6 { shell_surface: 0 }),
    {
        XdgV6::new()
    }
}

} // verus!
