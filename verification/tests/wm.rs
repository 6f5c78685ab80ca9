//! End-to-end exercises of the window-management core: mapping, focus,
//! gestures, and the configure/commit reconciliation.

use way_cooler_core::geometry::{Area, Origin, Size, EDGE_LEFT, EDGE_RIGHT, EDGE_TOP};
use way_cooler_core::model::Event;
use way_cooler_core::seat::Action;
use way_cooler_core::server::Server;
use way_cooler_core::shell::Shell;
use way_cooler_core::view::MoveResizeRequest;
use way_cooler_core::xdg_v6::{XdgV6, XdgV6ShellManager};

fn shell(id: u64) -> Shell {
    Shell::XdgV6(XdgV6::from_surface(id))
}

#[test]
fn map_focuses_new_toplevel() {
    let mut server = Server::new();
    let mut handler = XdgV6::new();
    let a = shell(1);
    handler.map_request(&mut server, a, true);
    assert_eq!(server.views.entries.len(), 1);
    assert_eq!(server.views.entries[0].shell, a);
    assert_eq!(server.views.entries[0].origin, Origin { x: 0, y: 0 });
    assert!(server.views.entries[0].pending_move_resize.is_none());
    assert_eq!(server.seat.focused, Some(a));
    assert_eq!(server.seat.action, Action::Idle);
}

#[test]
fn map_ignores_non_toplevel() {
    let mut server = Server::new();
    let mut handler = XdgV6::new();
    handler.map_request(&mut server, shell(1), false);
    assert_eq!(server.views.entries.len(), 0);
    assert_eq!(server.seat.focused, None);
}

#[test]
fn map_never_duplicates_an_identity() {
    let mut server = Server::new();
    let mut handler = XdgV6::new();
    let a = shell(1);
    let b = shell(2);
    handler.map_request(&mut server, a, true);
    handler.map_request(&mut server, b, true);
    handler.map_request(&mut server, a, true);
    assert_eq!(server.views.entries.len(), 2);
    assert_eq!(server.views.entries[0].shell, a);
    assert_eq!(server.views.entries[1].shell, b);
    // the duplicate request did not steal focus either
    assert_eq!(server.seat.focused, Some(b));
}

#[test]
fn move_gesture_follows_pointer() {
    let mut server = Server::new();
    let mut handler = XdgV6::new();
    let a = shell(1);
    handler.map_request(&mut server, a, true);
    handler.move_request(&mut server, a, Origin { x: 50, y: 50 });
    assert_eq!(server.seat.action, Action::Moving { start: Origin { x: 50, y: 50 } });
    let sent = server.pointer_motion(Origin { x: 80, y: 65 }, 1);
    assert!(sent.is_none());
    assert_eq!(server.views.entries[0].origin, Origin { x: 30, y: 15 });
}

#[test]
fn gesture_request_for_unfocused_surface_is_ignored() {
    let mut server = Server::new();
    let mut handler = XdgV6::new();
    let a = shell(1);
    let b = shell(2);
    handler.map_request(&mut server, a, true);
    handler.map_request(&mut server, b, true);
    // b is focused; a has no standing to start a gesture
    handler.move_request(&mut server, a, Origin { x: 5, y: 5 });
    assert_eq!(server.seat.action, Action::Idle);
    handler.resize_request(&mut server, a, Origin { x: 5, y: 5 }, Size { width: 10, height: 10 }, EDGE_LEFT);
    assert_eq!(server.seat.action, Action::Idle);
    assert_eq!(server.seat.focused, Some(b));
}

#[test]
fn resize_gesture_emits_configure_requests() {
    let mut server = Server::new();
    let mut handler = XdgV6::new();
    let a = shell(1);
    handler.map_request(&mut server, a, true);
    let rendered = Size { width: 200, height: 100 };
    handler.resize_request(&mut server, a, Origin { x: 500, y: 500 }, rendered, EDGE_LEFT | EDGE_TOP);
    assert_eq!(
        server.seat.action,
        Action::Resizing {
            start: Origin { x: 500, y: 500 },
            start_area: Area { origin: Origin { x: 0, y: 0 }, size: rendered },
            edges: EDGE_LEFT | EDGE_TOP,
        }
    );
    let sent = server.pointer_motion(Origin { x: 490, y: 505 }, 42);
    let expected = MoveResizeRequest {
        serial: 42,
        area: Area {
            origin: Origin { x: -10, y: 5 },
            size: Size { width: 210, height: 95 },
        },
        update_x: true,
        update_y: true,
    };
    assert_eq!(sent, Some(expected));
    assert_eq!(server.views.entries[0].pending_move_resize, Some(expected));
    // the view's own geometry waits for the client's commit
    assert_eq!(server.views.entries[0].origin, Origin { x: 0, y: 0 });
}

#[test]
fn resize_from_right_edge_only_changes_size() {
    let mut server = Server::new();
    let mut handler = XdgV6::new();
    let a = shell(1);
    handler.map_request(&mut server, a, true);
    let rendered = Size { width: 100, height: 50 };
    handler.resize_request(&mut server, a, Origin { x: 100, y: 50 }, rendered, EDGE_RIGHT);
    let sent = server.pointer_motion(Origin { x: 130, y: 60 }, 7).unwrap();
    assert_eq!(sent.area, Area {
        origin: Origin { x: 0, y: 0 },
        size: Size { width: 130, height: 50 },
    });
    assert!(!sent.update_x);
    assert!(!sent.update_y);
}

#[test]
fn commit_applies_pending_resize() {
    let mut server = Server::new();
    let mut handler = XdgV6::new();
    let b = shell(2);
    handler.map_request(&mut server, b, true);
    server.views.entries[0].pending_move_resize = Some(MoveResizeRequest {
        serial: 7,
        area: Area { origin: Origin { x: 10, y: 10 }, size: Size { width: 200, height: 100 } },
        update_x: true,
        update_y: false,
    });
    handler.on_commit(&mut server, b, 7, Size { width: 150, height: 90 });
    // x = 10 + 200 - 150 = 60; y keeps the view's own position
    assert_eq!(server.views.entries[0].origin, Origin { x: 60, y: 0 });
    assert!(server.views.entries[0].pending_move_resize.is_none());
}

#[test]
fn stale_commit_changes_nothing() {
    let mut server = Server::new();
    let mut handler = XdgV6::new();
    let a = shell(1);
    handler.map_request(&mut server, a, true);
    let pending = MoveResizeRequest {
        serial: 9,
        area: Area { origin: Origin { x: 10, y: 10 }, size: Size { width: 200, height: 100 } },
        update_x: true,
        update_y: true,
    };
    server.views.entries[0].pending_move_resize = Some(pending);
    handler.on_commit(&mut server, a, 8, Size { width: 150, height: 90 });
    assert_eq!(server.views.entries[0].origin, Origin { x: 0, y: 0 });
    assert_eq!(server.views.entries[0].pending_move_resize, Some(pending));
}

#[test]
fn newer_commit_applies_geometry_but_keeps_pending() {
    let mut server = Server::new();
    let mut handler = XdgV6::new();
    let a = shell(1);
    handler.map_request(&mut server, a, true);
    let pending = MoveResizeRequest {
        serial: 9,
        area: Area { origin: Origin { x: 10, y: 10 }, size: Size { width: 200, height: 100 } },
        update_x: true,
        update_y: true,
    };
    server.views.entries[0].pending_move_resize = Some(pending);
    handler.on_commit(&mut server, a, 10, Size { width: 150, height: 90 });
    // x = 10 + 200 - 150 = 60; y = 10 + 100 - 90 = 20
    assert_eq!(server.views.entries[0].origin, Origin { x: 60, y: 20 });
    assert_eq!(server.views.entries[0].pending_move_resize, Some(pending));
}

#[test]
fn commit_without_pending_is_a_no_op() {
    let mut server = Server::new();
    let mut handler = XdgV6::new();
    let a = shell(1);
    handler.map_request(&mut server, a, true);
    handler.on_commit(&mut server, a, 3, Size { width: 100, height: 100 });
    assert_eq!(server.views.entries[0].origin, Origin { x: 0, y: 0 });
    assert!(server.views.entries[0].pending_move_resize.is_none());
}

#[test]
fn unmap_last_view_clears_focus() {
    let mut server = Server::new();
    let mut handler = XdgV6::new();
    let a = shell(1);
    handler.map_request(&mut server, a, true);
    assert_eq!(server.seat.focused, Some(a));
    handler.unmap_request(&mut server, a);
    assert_eq!(server.views.entries.len(), 0);
    assert_eq!(server.seat.focused, None);
    assert_eq!(server.seat.action, Action::Idle);
}

#[test]
fn destroy_focused_view_during_move_ends_gesture_and_refocuses() {
    let mut server = Server::new();
    let mut handler = XdgV6::new();
    let a = shell(1);
    let b = shell(2);
    handler.map_request(&mut server, a, true);
    handler.map_request(&mut server, b, true);
    handler.move_request(&mut server, b, Origin { x: 10, y: 10 });
    assert!(matches!(server.seat.action, Action::Moving { .. }));
    handler.destroyed(&mut server, b);
    assert_eq!(server.seat.action, Action::Idle);
    assert_eq!(server.seat.focused, Some(a));
    assert_eq!(server.views.entries.len(), 1);
    assert_eq!(server.views.entries[0].shell, a);
}

#[test]
fn unmap_of_unfocused_view_keeps_focus_and_gesture() {
    let mut server = Server::new();
    let mut handler = XdgV6::new();
    let a = shell(1);
    let b = shell(2);
    handler.map_request(&mut server, a, true);
    handler.map_request(&mut server, b, true);
    handler.move_request(&mut server, b, Origin { x: 10, y: 10 });
    handler.unmap_request(&mut server, a);
    assert_eq!(server.seat.focused, Some(b));
    assert_eq!(server.seat.action, Action::Moving { start: Origin { x: 10, y: 10 } });
    assert_eq!(server.views.entries.len(), 1);
}

#[test]
fn unmap_of_unregistered_identity_is_a_no_op() {
    let mut server = Server::new();
    let mut handler = XdgV6::new();
    let a = shell(1);
    handler.map_request(&mut server, a, true);
    handler.unmap_request(&mut server, shell(99));
    assert_eq!(server.views.entries.len(), 1);
    assert_eq!(server.seat.focused, Some(a));
}

#[test]
fn button_release_ends_any_gesture() {
    let mut server = Server::new();
    let mut handler = XdgV6::new();
    let a = shell(1);
    handler.map_request(&mut server, a, true);
    handler.move_request(&mut server, a, Origin { x: 1, y: 2 });
    server.button_release();
    assert_eq!(server.seat.action, Action::Idle);
    assert_eq!(server.seat.focused, Some(a));
}

#[test]
fn apply_dispatches_whole_events() {
    let mut server = Server::new();
    let mut handler = XdgV6::new();
    let a = shell(1);
    server.apply(&mut handler, Event::MapRequest { shell: a, is_toplevel: true });
    server.apply(&mut handler, Event::MoveRequest { shell: a, pointer: Origin { x: 50, y: 50 } });
    let sent = server.apply(&mut handler, Event::PointerMotion {
        pointer: Origin { x: 80, y: 65 },
        serial: 1,
    });
    assert!(sent.is_none());
    assert_eq!(server.views.entries[0].origin, Origin { x: 30, y: 15 });
    server.apply(&mut handler, Event::ButtonRelease);
    assert_eq!(server.seat.action, Action::Idle);
    server.apply(&mut handler, Event::UnmapRequest { shell: a });
    assert_eq!(server.views.entries.len(), 0);
    assert_eq!(server.seat.focused, None);
}

#[test]
fn apply_routes_commits_and_destroys() {
    let mut server = Server::new();
    let mut handler = XdgV6::new();
    let a = shell(1);
    server.apply(&mut handler, Event::MapRequest { shell: a, is_toplevel: true });
    server.views.entries[0].pending_move_resize = Some(MoveResizeRequest {
        serial: 3,
        area: Area { origin: Origin { x: 4, y: 6 }, size: Size { width: 20, height: 10 } },
        update_x: false,
        update_y: false,
    });
    server.apply(&mut handler, Event::Commit {
        shell: a,
        configure_serial: 3,
        rendered: Size { width: 20, height: 10 },
    });
    assert!(server.views.entries[0].pending_move_resize.is_none());
    assert_eq!(server.views.entries[0].origin, Origin { x: 0, y: 0 });
    server.apply(&mut handler, Event::SurfaceDestroyed { shell: a });
    assert_eq!(server.views.entries.len(), 0);
    assert_eq!(server.seat.focused, None);
}

#[test]
fn manager_hands_out_fresh_handlers() {
    let mut manager = XdgV6ShellManager;
    let handler = manager.new_surface();
    assert_eq!(handler, XdgV6 { shell_surface: 0 });
}

#[test]
fn identities_compare_by_surface() {
    assert_eq!(shell(5), shell(5));
    assert_ne!(shell(5), shell(6));
    assert_eq!(XdgV6::new(), XdgV6::from_surface(0));
}
