//! The proved guarantees of the transition system: the registry never holds
//! two views with one shell identity, the focus always names a registered
//! view, gestures are only granted to the focused view, commits are applied
//! in serial order, and tearing down the focused view ends its gesture and
//! hands the focus on.

use vstd::prelude::*;
use crate::geometry::{Origin, Size};
use crate::model::{Event, ServerModel};
use crate::seat::Action;
use crate::shell::Shell;
use crate::view::View;

verus! {

/// Filtering a sequence of views whose shell identities are pairwise
/// distinct yields one whose identities are pairwise distinct too.
proof fn lemma_filter_keeps_unique_shells(s: Seq<View>, pred: spec_fn(View) -> bool)
    requires
        forall|i: int, j: int| 0 <= i < j < s.len() ==> (#[trigger] s[i]).shell != (#[trigger] s[j]).shell,
    ensures
        forall|i: int, j: int|
            0 <= i < j < s.filter(pred).len() ==> (#[trigger] s.filter(pred)[i]).shell != (
            #[trigger] s.filter(pred)[j]).shell,
    decreases s.len(),
{
    reveal(Seq::filter);
    if s.len() > 0 {
        let rest = s.drop_last();
        let last = s.last();
        assert(forall|i: int, j: int|
            0 <= i < j < rest.len() ==> (#[trigger] rest[i]).shell != (#[trigger] rest[j]).shell);
        lemma_filter_keeps_unique_shells(rest, pred);
        let f = s.filter(pred);
        let fr = rest.filter(pred);
        if pred(last) {
            assert(f == fr.push(last));
            assert forall|i: int, j: int| 0 <= i < j < f.len() implies (#[trigger] f[i]).shell != (
            #[trigger] f[j]).shell by {
                if j < f.len() - 1 {
                    assert(f[i] == fr[i] && f[j] == fr[j]);
                } else {
                    assert(f[j] == last);
                    assert(f[i] == fr[i]);
                    assert(fr.contains(fr[i]));
                    rest.lemma_filter_contains_rev(pred, fr[i]);
                    let k = choose|k: int| 0 <= k < rest.len() && rest[k] == fr[i];
                    assert(s[k] == fr[i]);
                    assert(s[k].shell != s[s.len() - 1].shell);
                }
            }
        }
    }
}

/// Mapping a surface preserves well-formedness.
pub proof fn lemma_map_step_wf(s: ServerModel, shell: Shell, is_toplevel: bool)
    requires
        s.wf(),
    ensures
        s.map_step(shell, is_toplevel).wf(),
{
    if is_toplevel && !s.contains_shell(shell) {
        let t = s.map_step(shell, is_toplevel);
        assert(t.views[s.views.len() as int].shell == shell);
        assert(t.contains_shell(shell));
        assert forall|i: int, j: int| 0 <= i < j < t.views.len() implies (
        #[trigger] t.views[i]).shell != (#[trigger] t.views[j]).shell by {
            if j < s.views.len() {
                assert(t.views[i] == s.views[i] && t.views[j] == s.views[j]);
            } else {
                assert(t.views[i] == s.views[i]);
                assert(s.views[i].shell != shell);
            }
        }
    }
}

/// Unmapping or destroying a surface preserves well-formedness.
pub proof fn lemma_remove_step_wf(s: ServerModel, shell: Shell)
    requires
        s.wf(),
    ensures
        s.remove_step(shell).wf(),
{
    if s.contains_shell(shell) {
        let pred = |v: View| v.shell != shell;
        let t = s.remove_step(shell);
        lemma_filter_keeps_unique_shells(s.views, pred);
        if s.focused == Some(shell) {
            if t.views.len() > 0 {
                assert(t.contains_shell(t.views[0].shell));
            }
        } else {
            match s.focused {
                Some(f) => {
                    let k = choose|k: int|
                        0 <= k < s.views.len() && (#[trigger] s.views[k]).shell == f;
                    assert(pred(s.views[k]));
                    s.views.lemma_filter_contains(pred, k);
                    let m = choose|m: int|
                        0 <= m < t.views.len() && t.views[m] == s.views[k];
                    assert(t.views[m].shell == f);
                    assert(t.contains_shell(f));
                },
                None => {},
            }
        }
    }
}

/// A commit preserves well-formedness: it never changes a view's identity,
/// the focus or the gesture.
pub proof fn lemma_commit_step_wf(s: ServerModel, shell: Shell, configure_serial: u32, rendered: Size)
    requires
        s.wf(),
    ensures
        s.commit_step(shell, configure_serial, rendered).wf(),
{
    if s.contains_shell(shell) {
        let t = s.commit_step(shell, configure_serial, rendered);
        assert forall|k: int| 0 <= k < t.views.len() implies (#[trigger] t.views[k]).shell
            == s.views[k].shell by {}
        match s.focused {
            Some(f) => {
                let k = choose|k: int| 0 <= k < s.views.len() && (#[trigger] s.views[k]).shell == f;
                assert(t.views[k].shell == f);
                assert(t.contains_shell(f));
            },
            None => {},
        }
    }
}

/// A move request preserves well-formedness.
pub proof fn lemma_move_step_wf(s: ServerModel, shell: Shell, pointer: Origin)
    requires
        s.wf(),
    ensures
        s.move_step(shell, pointer).wf(),
{
}

/// A resize request preserves well-formedness.
pub proof fn lemma_resize_step_wf(s: ServerModel, shell: Shell, pointer: Origin, rendered: Size, edges: u32)
    requires
        s.wf(),
    ensures
        s.resize_step(shell, pointer, rendered, edges).wf(),
{
}

/// A pointer motion preserves well-formedness.
pub proof fn lemma_motion_step_wf(s: ServerModel, pointer: Origin, serial: u32)
    requires
        s.wf(),
    ensures
        s.motion_step(pointer, serial).wf(),
{
    let t = s.motion_step(pointer, serial);
    match s.action {
        Action::Idle => {},
        _ => match s.focused {
            Some(f) => {
                if s.contains_shell(f) {
                    assert forall|k: int| 0 <= k < t.views.len() implies (
                    #[trigger] t.views[k]).shell == s.views[k].shell by {}
                    let k = choose|k: int|
                        0 <= k < s.views.len() && (#[trigger] s.views[k]).shell == f;
                    assert(t.views[k].shell == f);
                    assert(t.contains_shell(f));
                }
            },
            None => {},
        },
    }
}

/// A button release preserves well-formedness.
pub proof fn lemma_release_step_wf(s: ServerModel)
    requires
        s.wf(),
    ensures
        s.release_step().wf(),
{
}

/// Every event preserves well-formedness.  In particular, over any sequence
/// of events starting from a well-formed state: the registry never holds two
/// views with equal shell identity; the seat's focus is either clear or
/// names a view present in the registry, and is clear only while no view is
/// mapped; and a gesture is only ever in progress under a focused view.
pub proof fn lemma_step_preserves_wf(s: ServerModel, e: Event)
    requires
        s.wf(),
    ensures
        s.step(e).wf(),
{
    match e {
        Event::MapRequest { shell, is_toplevel } => lemma_map_step_wf(s, shell, is_toplevel),
        Event::UnmapRequest { shell } => lemma_remove_step_wf(s, shell),
        Event::SurfaceDestroyed { shell } => lemma_remove_step_wf(s, shell),
        Event::Commit { shell, configure_serial, rendered } => lemma_commit_step_wf(
            s,
            shell,
            configure_serial,
            rendered,
        ),
        Event::MoveRequest { shell, pointer } => lemma_move_step_wf(s, shell, pointer),
        Event::ResizeRequest { shell, pointer, rendered, edges } => lemma_resize_step_wf(
            s,
            shell,
            pointer,
            rendered,
            edges,
        ),
        Event::PointerMotion { pointer, serial } => lemma_motion_step_wf(s, pointer, serial),
        Event::ButtonRelease => lemma_release_step_wf(s),
    }
}

/// The state reached by feeding a whole sequence of events to the machine,
/// oldest first.
pub open spec fn run(s: ServerModel, events: Seq<Event>) -> ServerModel
    decreases events.len(),
{
    if events.len() == 0 {
        s
    } else {
        run(s.step(events[0]), events.drop_first())
    }
}

/// Every state reachable from a well-formed one — the empty server
/// included — is well-formed, whatever events arrive in whatever order.
pub proof fn lemma_reachable_states_wf(s: ServerModel, events: Seq<Event>)
    requires
        s.wf(),
    ensures
        run(s, events).wf(),
    decreases events.len(),
{
    if events.len() > 0 {
        lemma_step_preserves_wf(s, events[0]);
        lemma_reachable_states_wf(s.step(events[0]), events.drop_first());
    }
}

/// A move or resize request for a surface other than the focused one leaves
/// the whole state, the gesture included, unchanged.
pub proof fn lemma_gesture_requires_focus(
    s: ServerModel,
    shell: Shell,
    pointer: Origin,
    rendered: Size,
    edges: u32,
)
    requires
        s.focused != Some(shell),
    ensures
        s.move_step(shell, pointer) == s,
        s.resize_step(shell, pointer, rendered, edges) == s,
{
}

/// With pairwise-distinct shell identities, `index_of` names the one entry
/// carrying `shell`.
pub proof fn lemma_index_of_unique(s: ServerModel, shell: Shell, i: int)
    requires
        s.unique_shells(),
        0 <= i < s.views.len(),
        s.views[i].shell == shell,
    ensures
        s.index_of(shell) == i,
{
    assert(s.contains_shell(shell));
    let k = s.index_of(shell);
    if k < i {
        assert(s.views[k].shell != s.views[i].shell);
    } else if i < k {
        assert(s.views[i].shell != s.views[k].shell);
    }
}

/// A commit whose serial is older than the pending request's changes
/// nothing: the view's origin and pending slot stay as they were.
pub proof fn lemma_stale_commit_ignored(s: ServerModel, shell: Shell, configure_serial: u32, rendered: Size)
    requires
        s.wf(),
        s.contains_shell(shell),
        s.view_of(shell).pending_move_resize matches Some(mr) && configure_serial < mr.serial,
    ensures
        s.commit_step(shell, configure_serial, rendered) == s,
{
    let i = s.index_of(shell);
    assert(s.views.update(i, s.views[i]) =~= s.views);
}

/// A commit acknowledging exactly the pending serial applies the request's
/// geometry to the view and clears the pending slot; every other view, the
/// focus and the gesture are untouched.
pub proof fn lemma_exact_commit_applies(s: ServerModel, shell: Shell, configure_serial: u32, rendered: Size)
    requires
        s.wf(),
        s.contains_shell(shell),
        s.view_of(shell).pending_move_resize matches Some(mr) && configure_serial == mr.serial,
    ensures
        ({
            let t = s.commit_step(shell, configure_serial, rendered);
            let mr = s.view_of(shell).pending_move_resize.unwrap();
            &&& t.view_of(shell).origin == crate::model::applied_origin(
                s.view_of(shell),
                mr,
                rendered,
            )
            &&& t.view_of(shell).pending_move_resize is None
            &&& t.views.len() == s.views.len()
            &&& (forall|j: int|
                0 <= j < s.views.len() && j != s.index_of(shell) ==> t.views[j] == s.views[j])
            &&& t.focused == s.focused
            &&& t.action == s.action
        }),
{
    let i = s.index_of(shell);
    let t = s.commit_step(shell, configure_serial, rendered);
    lemma_commit_step_wf(s, shell, configure_serial, rendered);
    assert(t.views[i].shell == shell);
    lemma_index_of_unique(t, shell, i);
}

/// A commit acknowledging a serial past the pending one applies the latest
/// pending request's geometry but leaves the pending slot as it stands: it
/// is never cleared by a serial it does not match exactly.
pub proof fn lemma_newer_commit_applies_keeps_pending(
    s: ServerModel,
    shell: Shell,
    configure_serial: u32,
    rendered: Size,
)
    requires
        s.wf(),
        s.contains_shell(shell),
        s.view_of(shell).pending_move_resize matches Some(mr) && configure_serial > mr.serial,
    ensures
        ({
            let t = s.commit_step(shell, configure_serial, rendered);
            let mr = s.view_of(shell).pending_move_resize.unwrap();
            &&& t.view_of(shell).origin == crate::model::applied_origin(
                s.view_of(shell),
                mr,
                rendered,
            )
            &&& t.view_of(shell).pending_move_resize == s.view_of(shell).pending_move_resize
            &&& t.focused == s.focused
            &&& t.action == s.action
        }),
{
    let i = s.index_of(shell);
    let t = s.commit_step(shell, configure_serial, rendered);
    lemma_commit_step_wf(s, shell, configure_serial, rendered);
    assert(t.views[i].shell == shell);
    lemma_index_of_unique(t, shell, i);
}

/// A commit never resurrects an already-cleared pending slot: with nothing
/// pending, the state is unchanged, whatever the serial.
pub proof fn lemma_commit_without_pending_ignored(
    s: ServerModel,
    shell: Shell,
    configure_serial: u32,
    rendered: Size,
)
    requires
        s.wf(),
        s.contains_shell(shell),
        s.view_of(shell).pending_move_resize is None,
    ensures
        s.commit_step(shell, configure_serial, rendered) == s,
{
    let i = s.index_of(shell);
    assert(s.views.update(i, s.views[i]) =~= s.views);
}

/// Tearing down the focused view during a move gesture is safe: the gesture
/// ends, the destroyed identity is gone from the registry, and the focus
/// falls back to the oldest remaining view or is cleared when none remains.
pub proof fn lemma_teardown_safety(s: ServerModel, shell: Shell)
    requires
        s.wf(),
        s.focused == Some(shell),
        s.action is Moving,
    ensures
        ({
            let t = s.remove_step(shell);
            &&& t.action is Idle
            &&& (t.views.len() > 0 ==> t.focused == Some(t.views[0].shell))
            &&& (t.views.len() == 0 ==> t.focused is None)
            &&& !t.contains_shell(shell)
        }),
{
    assert(s.contains_shell(shell));
    let pred = |v: View| v.shell != shell;
    let t = s.remove_step(shell);
    assert forall|j: int| 0 <= j < t.views.len() implies (#[trigger] t.views[j]).shell
        != shell by {
        s.views.lemma_filter_pred(pred, j);
    }
}

} // verus!
