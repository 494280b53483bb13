//! Properties of the window-manager reducer that span several actions or
//! every state it can reach.

use vstd::prelude::*;
use crate::model::{
    clamped_min_spec, DesktopSnapshot, PointerPosition, ResizeEdge, WindowRect,
    from_snapshot_spec, lemma_max_window_id_bounds, max_window_id, snapshot_spec,
    focused_window_spec, first_focused_index, saturating_inc, DesktopView, InteractionState,
    OpenWindowRequest, WindowId, WindowView,
};
use crate::strings::is_blank;
use crate::reducer::{
    lemma_first_index_after_update, lemma_has_window_first, lemma_without_window_len,
    minimized_window, push_history_spec, restored_window, window_index, without_window,
    MAX_TERMINAL_HISTORY, already_focused_top, any_visible_focused, first_visible_focused, focus_at, has_window,
    is_first_index, keeps_focus, lemma_first_visible_focused_unique, lemma_focus_keeper,
    lemma_normalize_idempotent, lemma_window_index, normalize_stack, opened_window,
    raise_and_focus, reduce_spec, transition, unfocus_all, visible_focused, DesktopAction,
    RuntimeEffect, resize_fits, resize_spec, fits_i32, near_left, near_right, snaps_to_top,
    snap_fits, MIN_WINDOW_HEIGHT, MIN_WINDOW_WIDTH,
};

verus! {

/// The stack is in normal form: normalizing it changes nothing.
pub open spec fn stack_normalized(ws: Seq<WindowView>) -> bool {
    normalize_stack(ws) == ws
}

/// The shape of a normalized stack: z-order follows position, only a
/// visible window holds focus, at most one window holds it, and one does
/// whenever some window is visible.
pub open spec fn stack_well_formed(ws: Seq<WindowView>) -> bool {
    &&& forall|i: int| 0 <= i < ws.len() ==> (#[trigger] ws[i]).z_index == (i + 1) as u32
    &&& forall|i: int| 0 <= i < ws.len() && (#[trigger] ws[i]).is_focused ==> !ws[i].minimized
    &&& forall|i: int, j: int|
        0 <= i < ws.len() && 0 <= j < ws.len() && (#[trigger] ws[i]).is_focused
            && (#[trigger] ws[j]).is_focused ==> i == j
    &&& (exists|i: int| 0 <= i < ws.len() && !(#[trigger] ws[i]).minimized) ==> exists|i: int|
        0 <= i < ws.len() && (#[trigger] ws[i]).is_focused
}

/// A normalized stack is well formed.
pub proof fn lemma_normalized_well_formed(ws: Seq<WindowView>)
    requires
        stack_normalized(ws),
    ensures
        stack_well_formed(ws),
{
    lemma_focus_keeper(ws);
    assert forall|i: int| 0 <= i < ws.len() implies #[trigger] ws[i].is_focused == keeps_focus(
        ws,
        i,
    ) by {
        assert(normalize_stack(ws)[i] == ws[i]);
    }
    assert forall|i: int| 0 <= i < ws.len() implies (#[trigger] ws[i]).z_index == (i + 1) as u32 by {
        assert(normalize_stack(ws)[i] == ws[i]);
    }
    if exists|i: int| 0 <= i < ws.len() && !(#[trigger] ws[i]).minimized {
        let c = choose|c: int|
            0 <= c < ws.len() && !ws[c].minimized && keeps_focus(ws, c) && forall|i: int|
                0 <= i < ws.len() && #[trigger] keeps_focus(ws, i) ==> i == c;
        assert(ws[c].is_focused);
    }
}

/// After every successful step of the reducer the window stack is in
/// normal form, and so well formed: z-order follows stack position, only a
/// visible window holds focus, and exactly one does whenever any window is
/// visible.
pub proof fn law_step_leaves_stack_well_formed(
    s: DesktopView,
    it: InteractionState,
    a: DesktopAction,
)
    requires
        reduce_spec(s, it, a) is Ok,
    ensures
        stack_normalized(reduce_spec(s, it, a)->Ok_0.0.windows),
        stack_well_formed(reduce_spec(s, it, a)->Ok_0.0.windows),
{
    let s1 = transition(s, it, a)->Ok_0.0;
    lemma_normalize_idempotent(s1.windows);
    lemma_normalized_well_formed(normalize_stack(s1.windows));
}

/// How many windows of `ws` hold focus.
pub open spec fn focused_count(ws: Seq<WindowView>) -> nat
    decreases ws.len(),
{
    if ws.len() == 0 {
        0
    } else {
        focused_count(ws.drop_last()) + if ws.last().is_focused {
            1nat
        } else {
            0nat
        }
    }
}

/// Some window of `ws` is shown.
pub open spec fn any_shown(ws: Seq<WindowView>) -> bool {
    exists|i: int| 0 <= i < ws.len() && !(#[trigger] ws[i]).minimized
}

proof fn lemma_focused_count_zero(ws: Seq<WindowView>)
    ensures
        (focused_count(ws) == 0) == !exists|i: int| 0 <= i < ws.len() && (#[trigger] ws[i]).is_focused,
    decreases ws.len(),
{
    if ws.len() > 0 {
        let d = ws.drop_last();
        lemma_focused_count_zero(d);
        if exists|i: int| 0 <= i < d.len() && (#[trigger] d[i]).is_focused {
            let i = choose|i: int| 0 <= i < d.len() && (#[trigger] d[i]).is_focused;
            assert(ws[i].is_focused);
        }
        if exists|i: int| 0 <= i < ws.len() && (#[trigger] ws[i]).is_focused {
            let i = choose|i: int| 0 <= i < ws.len() && (#[trigger] ws[i]).is_focused;
            if i < ws.len() - 1 {
                assert(d[i].is_focused);
            } else {
                assert(ws.last().is_focused);
            }
        }
        if ws.last().is_focused {
            assert(ws[ws.len() - 1].is_focused);
        }
    }
}

proof fn lemma_focused_count_at_most_one(ws: Seq<WindowView>)
    requires
        forall|i: int, j: int|
            0 <= i < ws.len() && 0 <= j < ws.len() && (#[trigger] ws[i]).is_focused
                && (#[trigger] ws[j]).is_focused ==> i == j,
    ensures
        focused_count(ws) <= 1,
    decreases ws.len(),
{
    if ws.len() > 0 {
        let d = ws.drop_last();
        assert forall|i: int, j: int|
            0 <= i < d.len() && 0 <= j < d.len() && (#[trigger] d[i]).is_focused
                && (#[trigger] d[j]).is_focused implies i == j by {
            assert(ws[i].is_focused && ws[j].is_focused);
        }
        lemma_focused_count_at_most_one(d);
        if ws.last().is_focused {
            lemma_focused_count_zero(d);
            if exists|i: int| 0 <= i < d.len() && (#[trigger] d[i]).is_focused {
                let i = choose|i: int| 0 <= i < d.len() && (#[trigger] d[i]).is_focused;
                assert(ws[i].is_focused && ws[ws.len() - 1].is_focused);
            }
        }
    }
}

/// After every successful step of the reducer exactly one window holds
/// focus when any window is shown, and none does otherwise.
pub proof fn law_step_focus_count(s: DesktopView, it: InteractionState, a: DesktopAction)
    requires
        reduce_spec(s, it, a) is Ok,
    ensures
        focused_count(reduce_spec(s, it, a)->Ok_0.0.windows) == (if any_shown(
            reduce_spec(s, it, a)->Ok_0.0.windows,
        ) {
            1nat
        } else {
            0nat
        }),
{
    let ws = reduce_spec(s, it, a)->Ok_0.0.windows;
    law_step_leaves_stack_well_formed(s, it, a);
    lemma_focused_count_zero(ws);
    lemma_focused_count_at_most_one(ws);
    if !any_shown(ws) {
        assert forall|i: int| 0 <= i < ws.len() implies !(#[trigger] ws[i]).is_focused by {
            if ws[i].is_focused {
                assert(!ws[i].minimized);
            }
        }
    }
}

/// The desktop after a successful step.
pub open spec fn stepped(s: DesktopView, it: InteractionState, a: DesktopAction) -> DesktopView {
    reduce_spec(s, it, a)->Ok_0.0
}

/// Window `w` placed at position `k` of a normalized stack, holding focus.
pub open spec fn on_top(w: WindowView, k: int) -> WindowView {
    WindowView { z_index: (k + 1) as u32, is_focused: true, ..w }
}

/// Window `w` placed at position `k` of a normalized stack, without focus.
pub open spec fn below(w: WindowView, k: int) -> WindowView {
    WindowView { z_index: (k + 1) as u32, is_focused: false, ..w }
}

/// The desktop with its start menu closed.
pub open spec fn menu_closed(s: DesktopView) -> DesktopView {
    DesktopView { start_menu_open: false, ..s }
}

/// Raising window `i`: it ends on top, focused and shown; the others keep
/// their order below it, unfocused; z-order follows position.
pub proof fn lemma_raise_and_focus(ws: Seq<WindowView>, i: int)
    requires
        0 <= i < ws.len(),
    ensures
        raise_and_focus(ws, i).len() == ws.len(),
        raise_and_focus(ws, i).last() == on_top(
            (WindowView { minimized: false, ..ws[i] }),
            ws.len() - 1,
        ),
        forall|k: int|
            0 <= k < ws.len() - 1 ==> #[trigger] raise_and_focus(ws, i)[k] == below(
                ws.remove(i)[k],
                k,
            ),
        stack_normalized(raise_and_focus(ws, i)),
        focused_window_spec(raise_and_focus(ws, i)) == Some(ws[i].id),
{
    let n = ws.len();
    let top = WindowView { is_focused: true, minimized: false, ..ws[i] };
    let u = unfocus_all(ws).remove(i).push(top);
    assert(u.len() == n);
    assert(u[n - 1] == top);
    assert forall|j: int| 0 <= j < n - 1 implies !(#[trigger] u[j]).is_focused by {
        assert(u[j] == unfocus_all(ws).remove(i)[j]);
    }
    assert(first_visible_focused(u, n - 1));
    assert(any_visible_focused(u));
    assert forall|k: int| 0 <= k < n implies #[trigger] keeps_focus(u, k) == (k == n - 1) by {
        if keeps_focus(u, k) {
            lemma_first_visible_focused_unique(u, k, n - 1);
        }
    }
    let r = normalize_stack(u);
    assert(r == raise_and_focus(ws, i));
    assert forall|k: int| 0 <= k < n - 1 implies #[trigger] r[k] == below(ws.remove(i)[k], k) by {
        assert(u[k] == unfocus_all(ws).remove(i)[k]);
        assert(!keeps_focus(u, k));
    }
    assert(keeps_focus(u, n - 1));
    lemma_normalize_idempotent(u);
    assert(first_focused_index(r, n - 1));
    let f = choose|f: int| first_focused_index(r, f);
    assert(f == n - 1) by {
        if f < n - 1 {
            assert(!keeps_focus(u, f));
        }
    }
}

/// Focusing the window that is already focused on top of a normalized
/// stack changes no window; the start menu closes and the only effect
/// asks to focus that window's input.
pub proof fn law_focus_on_focused_top_keeps_stack(s: DesktopView, it: InteractionState, id: WindowId)
    requires
        stack_normalized(s.windows),
        s.windows.len() > 0,
        is_first_index(s.windows, id, s.windows.len() - 1),
        s.windows.last().is_focused,
    ensures
        reduce_spec(s, it, (DesktopAction::FocusWindow { window_id: id })) is Ok,
        stepped(s, it, (DesktopAction::FocusWindow { window_id: id })) == menu_closed(s),
        reduce_spec(s, it, (DesktopAction::FocusWindow { window_id: id }))->Ok_0.1 == it,
        reduce_spec(s, it, (DesktopAction::FocusWindow { window_id: id }))->Ok_0.2 == seq![
            RuntimeEffect::FocusWindowInput(id),
        ],
{
    let ws = s.windows;
    lemma_window_index(ws, id, ws.len() - 1);
    lemma_normalized_well_formed(ws);
    assert(already_focused_top(ws, ws.len() - 1));
    assert(focus_at(ws, ws.len() - 1) == ws);
}

/// Opening a window whose id is fresh appends it on top of the stack,
/// focused, with the id the desktop had reserved; the windows below keep
/// their order and lose focus, and the next id moves on by one.
pub proof fn law_open_window_focuses_new_top(s: DesktopView, it: InteractionState, req: OpenWindowRequest)
    requires
        !has_window(s.windows, WindowId(s.next_window_id)),
    ensures
        reduce_spec(s, it, DesktopAction::OpenWindow(req)) is Ok,
        stepped(s, it, DesktopAction::OpenWindow(req)).windows.len() == s.windows.len() + 1,
        stepped(s, it, DesktopAction::OpenWindow(req)).windows.last() == on_top(
            opened_window(req, WindowId(s.next_window_id)),
            s.windows.len() as int,
        ),
        forall|k: int|
            0 <= k < s.windows.len() ==> #[trigger] stepped(
                s,
                it,
                DesktopAction::OpenWindow(req),
            ).windows[k] == below(s.windows[k], k),
        focused_window_spec(stepped(s, it, DesktopAction::OpenWindow(req)).windows) == Some(
            WindowId(s.next_window_id),
        ),
        stepped(s, it, DesktopAction::OpenWindow(req)).next_window_id == saturating_inc(
            s.next_window_id,
        ),
{
    let id = WindowId(s.next_window_id);
    let n = s.windows.len();
    let ws1 = s.windows.push(opened_window(req, id));
    assert forall|j: int| 0 <= j < n implies (#[trigger] ws1[j]).id != id by {
        assert(ws1[j] == s.windows[j]);
    }
    lemma_window_index(ws1, id, n as int);
    assert(!already_focused_top(ws1, n as int));
    lemma_raise_and_focus(ws1, n as int);
    assert(ws1.remove(n as int) =~= s.windows);
}

/// Normalization keeps every window in place and changes only its
/// z-order and focus.
pub proof fn lemma_normalize_in_place(ws: Seq<WindowView>)
    ensures
        normalize_stack(ws).len() == ws.len(),
        forall|k: int|
            0 <= k < ws.len() ==> (#[trigger] normalize_stack(ws)[k]) == (WindowView {
                z_index: normalize_stack(ws)[k].z_index,
                is_focused: normalize_stack(ws)[k].is_focused,
                ..ws[k]
            }),
        forall|k: int|
            0 <= k < ws.len() && (#[trigger] normalize_stack(ws)[k]).is_focused ==> !ws[k].minimized,
{
    assert forall|k: int|
        0 <= k < ws.len() && (#[trigger] normalize_stack(ws)[k]).is_focused implies !ws[k].minimized by {
        assert(keeps_focus(ws, k));
    }
}

/// A window found first at position `i` is still found first there once
/// the stack is normalized.
pub proof fn lemma_normalize_keeps_index(ws: Seq<WindowView>, id: WindowId, i: int)
    requires
        is_first_index(ws, id, i),
    ensures
        is_first_index(normalize_stack(ws), id, i),
        window_index(normalize_stack(ws), id) == i,
{
    let n = normalize_stack(ws);
    assert forall|j: int| 0 <= j < i implies (#[trigger] n[j]).id != id by {
        assert(n[j].id == ws[j].id);
    }
    lemma_window_index(n, id, i);
}

/// The taskbar button of the focused window minimizes it: the window stays
/// in place, minimized and without focus, and the layout is persisted.
pub proof fn law_taskbar_toggle_minimizes_focused(s: DesktopView, it: InteractionState, id: WindowId)
    requires
        has_window(s.windows, id),
        !s.windows[window_index(s.windows, id)].minimized,
        focused_window_spec(s.windows) == Some(id),
    ensures
        reduce_spec(s, it, (DesktopAction::ToggleTaskbarWindow { window_id: id })) is Ok,
        window_index(stepped(s, it, (DesktopAction::ToggleTaskbarWindow { window_id: id })).windows, id)
            == window_index(s.windows, id),
        stepped(s, it, (DesktopAction::ToggleTaskbarWindow { window_id: id })).windows[window_index(
            s.windows,
            id,
        )].minimized,
        !stepped(s, it, (DesktopAction::ToggleTaskbarWindow { window_id: id })).windows[window_index(
            s.windows,
            id,
        )].is_focused,
        reduce_spec(s, it, (DesktopAction::ToggleTaskbarWindow { window_id: id }))->Ok_0.2 == seq![
            RuntimeEffect::PersistLayout,
        ],
{
    let ws = s.windows;
    lemma_has_window_first(ws, id);
    let i = window_index(ws, id);
    let ws2 = ws.update(i, minimized_window(ws[i]));
    lemma_first_index_after_update(ws, id, i, minimized_window(ws[i]));
    lemma_normalize_keeps_index(ws2, id, i);
    lemma_normalize_in_place(ws2);
}

/// The taskbar button of a minimized window in a normalized stack brings
/// it back: shown, on top of the stack and focused.
pub proof fn law_taskbar_toggle_restores_minimized(s: DesktopView, it: InteractionState, id: WindowId)
    requires
        stack_normalized(s.windows),
        has_window(s.windows, id),
        s.windows[window_index(s.windows, id)].minimized,
    ensures
        reduce_spec(s, it, (DesktopAction::ToggleTaskbarWindow { window_id: id })) is Ok,
        stepped(s, it, (DesktopAction::ToggleTaskbarWindow { window_id: id })).windows.last().id == id,
        !stepped(s, it, (DesktopAction::ToggleTaskbarWindow { window_id: id })).windows.last().minimized,
        focused_window_spec(stepped(s, it, (DesktopAction::ToggleTaskbarWindow { window_id: id })).windows)
            == Some(id),
{
    let ws = s.windows;
    lemma_has_window_first(ws, id);
    lemma_normalized_well_formed(ws);
    let i = window_index(ws, id);
    let w = restored_window(ws[i]);
    let ws2 = ws.update(i, w);
    lemma_first_index_after_update(ws, id, i, w);
    assert(!ws[i].is_focused);
    assert(!already_focused_top(ws2, i));
    lemma_raise_and_focus(ws2, i);
    lemma_normalize_idempotent(raise_and_focus(ws2, i));
}

/// Closing a window removes every window with its id and keeps the others
/// in their order; a modal held by it is released.
pub proof fn law_close_removes_window(s: DesktopView, it: InteractionState, id: WindowId)
    requires
        has_window(s.windows, id),
    ensures
        reduce_spec(s, it, (DesktopAction::CloseWindow { window_id: id })) is Ok,
        !has_window(stepped(s, it, (DesktopAction::CloseWindow { window_id: id })).windows, id),
        stepped(s, it, (DesktopAction::CloseWindow { window_id: id })).windows.len() < s.windows.len(),
        stepped(s, it, (DesktopAction::CloseWindow { window_id: id })).windows.len() == without_window(
            s.windows,
            id,
        ).len(),
        forall|k: int|
            0 <= k < without_window(s.windows, id).len() ==> (#[trigger] stepped(
                s,
                it,
                (DesktopAction::CloseWindow { window_id: id }),
            ).windows[k]).id == without_window(s.windows, id)[k].id,
        stepped(s, it, (DesktopAction::CloseWindow { window_id: id })).active_modal != Some(id),
{
    let rest = without_window(s.windows, id);
    lemma_without_window_len(s.windows, id);
    lemma_normalize_in_place(rest);
    let r = normalize_stack(rest);
    if has_window(r, id) {
        let k = choose|k: int| 0 <= k < r.len() && (#[trigger] r[k]).id == id;
        assert(rest[k].id == id);
    }
}

/// A non-blank command entered while history is enabled is appended to the
/// terminal history, which keeps only the newest entries, at most
/// `MAX_TERMINAL_HISTORY` of them.
pub proof fn law_terminal_history_keeps_newest(s: DesktopView, it: InteractionState, command: String)
    requires
        s.preferences.terminal_history_enabled,
        !is_blank(command@),
    ensures
        reduce_spec(s, it, (DesktopAction::PushTerminalHistory { command })) is Ok,
        stepped(s, it, (DesktopAction::PushTerminalHistory { command })).terminal_history
            == push_history_spec(s.terminal_history, command@),
        stepped(s, it, (DesktopAction::PushTerminalHistory { command })).terminal_history.len()
            <= MAX_TERMINAL_HISTORY,
        stepped(s, it, (DesktopAction::PushTerminalHistory { command })).terminal_history.last()
            == command@,
        s.terminal_history.len() < MAX_TERMINAL_HISTORY ==> stepped(
            s,
            it,
            (DesktopAction::PushTerminalHistory { command }),
        ).terminal_history == s.terminal_history.push(command@),
{
}

/// No step other than restoring a snapshot lets the terminal history grow
/// past `MAX_TERMINAL_HISTORY` entries.
pub proof fn law_terminal_history_stays_bounded(s: DesktopView, it: InteractionState, a: DesktopAction)
    requires
        s.terminal_history.len() <= MAX_TERMINAL_HISTORY,
        !(a is HydrateSnapshot),
        reduce_spec(s, it, a) is Ok,
    ensures
        stepped(s, it, a).terminal_history.len() <= MAX_TERMINAL_HISTORY,
{
}

/// Every window id of `ws` lies below `n`.
pub open spec fn ids_below(ws: Seq<WindowView>, n: u64) -> bool {
    forall|i: int| 0 <= i < ws.len() ==> (#[trigger] ws[i]).id.0 < n
}

/// Every open window has an id below the one the desktop will hand out
/// next, so the next window opened gets a fresh id.
pub open spec fn ids_fresh(s: DesktopView) -> bool {
    ids_below(s.windows, s.next_window_id)
}

proof fn lemma_ids_below_normalize(ws: Seq<WindowView>, n: u64)
    requires
        ids_below(ws, n),
    ensures
        ids_below(normalize_stack(ws), n),
{
    assert forall|i: int| 0 <= i < ws.len() implies (#[trigger] normalize_stack(ws)[i]).id.0 < n by {
        assert(normalize_stack(ws)[i].id == ws[i].id);
    }
}

proof fn lemma_ids_below_focus_at(ws: Seq<WindowView>, i: int, n: u64)
    requires
        ids_below(ws, n),
        0 <= i < ws.len(),
    ensures
        ids_below(focus_at(ws, i), n),
{
    if !already_focused_top(ws, i) {
        lemma_raise_and_focus(ws, i);
        let r = raise_and_focus(ws, i);
        assert forall|k: int| 0 <= k < r.len() implies (#[trigger] r[k]).id.0 < n by {
            if k < r.len() - 1 {
                assert(r[k].id == ws.remove(i)[k].id);
                if k < i {
                    assert(ws.remove(i)[k] == ws[k]);
                } else {
                    assert(ws.remove(i)[k] == ws[k + 1]);
                }
            } else {
                assert(r[k].id == ws[i].id);
            }
        }
    }
}

proof fn lemma_ids_below_without(ws: Seq<WindowView>, id: WindowId, n: u64)
    requires
        ids_below(ws, n),
    ensures
        ids_below(without_window(ws, id), n),
    decreases ws.len(),
{
    if ws.len() > 0 {
        assert(ids_below(ws.drop_last(), n)) by {
            assert forall|i: int| 0 <= i < ws.drop_last().len() implies (#[trigger] ws.drop_last()[i]).id.0
                < n by {
                assert(ws.drop_last()[i] == ws[i]);
            }
        }
        lemma_ids_below_without(ws.drop_last(), id, n);
        assert(ws.last() == ws[ws.len() - 1]);
    }
}

/// Window ids stay fresh across every successful step: each open window
/// keeps an id below the one the desktop hands out next. (Opening needs an
/// id to spare below `u64::MAX`, and a restored snapshot must leave one.)
pub proof fn law_step_keeps_ids_fresh(s: DesktopView, it: InteractionState, a: DesktopAction)
    requires
        ids_fresh(s),
        reduce_spec(s, it, a) is Ok,
        a is OpenWindow ==> s.next_window_id < u64::MAX,
        a is HydrateSnapshot ==> max_window_id(a->snapshot@.windows) < u64::MAX,
    ensures
        ids_fresh(stepped(s, it, a)),
{
    let ws = s.windows;
    let n = s.next_window_id;
    let s1 = transition(s, it, a)->Ok_0.0;
    match a {
        DesktopAction::OpenWindow(req) => {
            let ws1 = ws.push(opened_window(req, WindowId(n)));
            assert(ids_below(ws1, (n + 1) as u64)) by {
                assert forall|i: int| 0 <= i < ws1.len() implies (#[trigger] ws1[i]).id.0 < n + 1 by {
                    if i < ws.len() {
                        assert(ws1[i] == ws[i]);
                    }
                }
            }
            assert(ws1[ws.len() as int].id == WindowId(n));
            lemma_has_window_first(ws1, WindowId(n));
            lemma_ids_below_focus_at(ws1, window_index(ws1, WindowId(n)), (n + 1) as u64);
        },
        DesktopAction::CloseWindow { window_id } => {
            lemma_ids_below_without(ws, window_id, n);
        },
        DesktopAction::FocusWindow { window_id } => {
            lemma_has_window_first(ws, window_id);
            lemma_ids_below_focus_at(ws, window_index(ws, window_id), n);
        },
        DesktopAction::MinimizeWindow { window_id } => {
            lemma_has_window_first(ws, window_id);
        },
        DesktopAction::MaximizeWindow { window_id, viewport } => {
            lemma_has_window_first(ws, window_id);
            let i = window_index(ws, window_id);
            let ws2 = ws.update(i, crate::reducer::maximized_into(ws[i], viewport));
            lemma_ids_below_focus_at(ws2, i, n);
        },
        DesktopAction::RestoreWindow { window_id } => {
            lemma_has_window_first(ws, window_id);
            let i = window_index(ws, window_id);
            lemma_ids_below_focus_at(ws.update(i, restored_window(ws[i])), i, n);
        },
        DesktopAction::ToggleTaskbarWindow { window_id } => {
            lemma_has_window_first(ws, window_id);
            let i = window_index(ws, window_id);
            lemma_ids_below_focus_at(ws.update(i, restored_window(ws[i])), i, n);
            lemma_ids_below_focus_at(ws, i, n);
        },
        DesktopAction::BeginMove { window_id, pointer } => {
            lemma_has_window_first(ws, window_id);
            lemma_ids_below_focus_at(ws, window_index(ws, window_id), n);
        },
        DesktopAction::BeginResize { window_id, edge, pointer } => {
            lemma_has_window_first(ws, window_id);
            lemma_ids_below_focus_at(ws, window_index(ws, window_id), n);
        },
        DesktopAction::UpdateMove { pointer } => {
            if it.dragging is Some {
                lemma_has_window_first(ws, it.dragging->0.window_id);
            }
        },
        DesktopAction::UpdateResize { pointer } => {
            if it.resizing is Some {
                lemma_has_window_first(ws, it.resizing->0.window_id);
            }
        },
        DesktopAction::EndMoveWithViewport { viewport } => {
            if it.dragging is Some && has_window(ws, it.dragging->0.window_id) {
                lemma_has_window_first(ws, it.dragging->0.window_id);
            }
        },
        DesktopAction::SetAppState { window_id, app_state } => {
            lemma_has_window_first(ws, window_id);
        },
        DesktopAction::HydrateSnapshot { snapshot } => {
            let snap = snapshot@;
            lemma_max_window_id_bounds(snap.windows);
            let r = from_snapshot_spec(snap);
            let max = s.preferences.max_restore_windows;
            if r.windows.len() > max {
                let sub = r.windows.subrange(0, max as int);
                assert forall|i: int| 0 <= i < sub.len() implies (#[trigger] sub[i]).id.0
                    < r.next_window_id by {
                    assert(sub[i] == r.windows[i]);
                }
            }
        },
        _ => {},
    }
    lemma_ids_below_normalize(s1.windows, s1.next_window_id);
}

/// `r` is window `w` up to its place in the stack (z-order and focus).
pub open spec fn placed(r: WindowView, w: WindowView) -> bool {
    r == (WindowView { z_index: r.z_index, is_focused: r.is_focused, ..w })
}

/// Focusing window `i` and normalizing leaves it, shown, on top of the
/// stack and the other windows below it in their order.
pub proof fn lemma_focus_at_places_on_top(ws: Seq<WindowView>, i: int)
    requires
        0 <= i < ws.len(),
    ensures
        normalize_stack(focus_at(ws, i)).len() == ws.len(),
        placed(normalize_stack(focus_at(ws, i)).last(), (WindowView { minimized: false, ..ws[i] })),
        forall|k: int|
            0 <= k < ws.len() - 1 ==> placed(
                #[trigger] normalize_stack(focus_at(ws, i))[k],
                ws.remove(i)[k],
            ),
{
    let n = ws.len();
    if already_focused_top(ws, i) {
        lemma_normalize_in_place(ws);
        assert forall|k: int| 0 <= k < n - 1 implies placed(
            #[trigger] normalize_stack(focus_at(ws, i))[k],
            ws.remove(i)[k],
        ) by {
            assert(ws.remove(i)[k] == ws[k]);
        }
    } else {
        lemma_raise_and_focus(ws, i);
        lemma_normalize_idempotent(raise_and_focus(ws, i));
    }
}

/// Maximizing a window and then restoring it gives the window back the
/// rectangle it had, no longer maximized, on top of the stack (its id must
/// name no other window).
pub proof fn law_maximize_then_restore_returns_rect(
    s: DesktopView,
    it: InteractionState,
    id: WindowId,
    viewport: crate::model::WindowRect,
)
    requires
        has_window(s.windows, id),
        forall|j: int|
            0 <= j < s.windows.len() && (#[trigger] s.windows[j]).id == id ==> j == window_index(
                s.windows,
                id,
            ),
        !s.windows[window_index(s.windows, id)].maximized,
    ensures
        reduce_spec(s, it, (DesktopAction::MaximizeWindow { window_id: id, viewport })) is Ok,
        reduce_spec(
            stepped(s, it, (DesktopAction::MaximizeWindow { window_id: id, viewport })),
            it,
            (DesktopAction::RestoreWindow { window_id: id }),
        ) is Ok,
        restored_after_maximize(s, it, id, viewport).last().id == id,
        restored_after_maximize(s, it, id, viewport).last().rect == s.windows[window_index(
            s.windows,
            id,
        )].rect,
        !restored_after_maximize(s, it, id, viewport).last().maximized,
        !restored_after_maximize(s, it, id, viewport).last().minimized,
{
    let ws = s.windows;
    let n = ws.len();
    lemma_has_window_first(ws, id);
    let i = window_index(ws, id);
    let w1 = crate::reducer::maximized_into(ws[i], viewport);
    let ws2 = ws.update(i, w1);
    lemma_focus_at_places_on_top(ws2, i);
    let m = normalize_stack(focus_at(ws2, i));
    assert(m == stepped(s, it, (DesktopAction::MaximizeWindow { window_id: id, viewport })).windows);
    assert forall|k: int| 0 <= k < n - 1 implies (#[trigger] m[k]).id != id by {
        assert(placed(m[k], ws2.remove(i)[k]));
        if k < i {
            assert(ws2.remove(i)[k] == ws[k]);
        } else {
            assert(ws2.remove(i)[k] == ws[k + 1]);
        }
    }
    assert(m[n - 1] == m.last());
    lemma_window_index(m, id, n - 1);
    let w2 = restored_window(m[n - 1]);
    let ws3 = m.update(n - 1, w2);
    lemma_focus_at_places_on_top(ws3, n - 1);
}

/// The windows after maximizing window `id` and then restoring it.
pub open spec fn restored_after_maximize(
    s: DesktopView,
    it: InteractionState,
    id: WindowId,
    viewport: crate::model::WindowRect,
) -> Seq<WindowView> {
    stepped(
        stepped(s, it, (DesktopAction::MaximizeWindow { window_id: id, viewport })),
        it,
        (DesktopAction::RestoreWindow { window_id: id }),
    ).windows
}

/// Restoring the snapshot of a desktop gives back its windows, theme,
/// preferences, last paths and terminal history, with the start menu
/// closed, no modal, and the next id one past the largest window id; the
/// restored ids are then fresh unless that id is exhausted.
pub proof fn law_snapshot_round_trip(s: DesktopView)
    ensures
        from_snapshot_spec(snapshot_spec(s)) == (DesktopView {
            next_window_id: saturating_inc(max_window_id(s.windows)),
            start_menu_open: false,
            active_modal: None,
            ..s
        }),
        max_window_id(s.windows) < u64::MAX ==> ids_fresh(from_snapshot_spec(snapshot_spec(s))),
{
    lemma_max_window_id_bounds(s.windows);
}

// ---------------------------------------------------------------------
// Resizing, snapping and hydration
// ---------------------------------------------------------------------

/// The edge grabbed includes the window's left side.
pub open spec fn grabs_left(edge: ResizeEdge) -> bool {
    edge == ResizeEdge::West || edge == ResizeEdge::NorthWest || edge == ResizeEdge::SouthWest
}

/// The edge grabbed includes the window's right side.
pub open spec fn grabs_right(edge: ResizeEdge) -> bool {
    edge == ResizeEdge::East || edge == ResizeEdge::NorthEast || edge == ResizeEdge::SouthEast
}

/// The edge grabbed includes the window's top side.
pub open spec fn grabs_top(edge: ResizeEdge) -> bool {
    edge == ResizeEdge::North || edge == ResizeEdge::NorthWest || edge == ResizeEdge::NorthEast
}

/// The edge grabbed includes the window's bottom side.
pub open spec fn grabs_bottom(edge: ResizeEdge) -> bool {
    edge == ResizeEdge::South || edge == ResizeEdge::SouthWest || edge == ResizeEdge::SouthEast
}

/// How the four sides of `n` sit against those of `r` after a drag of
/// `edge` by `(dx, dy)`: each grabbed side moves with the pointer, every
/// other side stays where it was.
pub open spec fn sides_follow_drag(r: WindowRect, n: WindowRect, edge: ResizeEdge, dx: int, dy: int) -> bool {
    &&& n.x == (if grabs_left(edge) { r.x + dx } else { r.x as int })
    &&& n.x + n.w == (if grabs_right(edge) { r.x + r.w + dx } else { r.x + r.w })
    &&& n.y == (if grabs_top(edge) { r.y + dy } else { r.y as int })
    &&& n.y + n.h == (if grabs_bottom(edge) { r.y + r.h + dy } else { r.y + r.h })
}

/// Dragging an edge or corner moves exactly the grabbed sides by the
/// pointer's travel; the sides not grabbed stay put (dragging the west
/// edge keeps the east edge fixed, and so on).
pub proof fn law_resize_moves_grabbed_sides(r: WindowRect, edge: ResizeEdge, dx: i32, dy: i32)
    requires
        resize_fits(r, edge, dx, dy),
    ensures
        sides_follow_drag(r, resize_spec(r, edge, dx, dy), edge, dx as int, dy as int),
{
}

/// A resize step of the reducer on a window that is neither maximized nor
/// fixed in size: when the dragged rectangle keeps the minimum size, the
/// window's grabbed sides follow the pointer's travel since the resize
/// began and the others stay where they were at its start.
pub proof fn law_update_resize_follows_pointer(
    s: DesktopView,
    it: InteractionState,
    pointer: PointerPosition,
)
    requires
        it.resizing is Some,
        has_window(s.windows, it.resizing->Some_0.window_id),
        ({
            let rs = it.resizing->Some_0;
            let w = s.windows[window_index(s.windows, rs.window_id)];
            let dx = pointer.x - rs.pointer_start.x;
            let dy = pointer.y - rs.pointer_start.y;
            &&& !w.maximized
            &&& w.flags.resizable
            &&& fits_i32(dx)
            &&& fits_i32(dy)
            &&& resize_fits(rs.rect_start, rs.edge, dx as i32, dy as i32)
            &&& resize_spec(rs.rect_start, rs.edge, dx as i32, dy as i32).w >= MIN_WINDOW_WIDTH
            &&& resize_spec(rs.rect_start, rs.edge, dx as i32, dy as i32).h >= MIN_WINDOW_HEIGHT
        }),
    ensures
        reduce_spec(s, it, DesktopAction::UpdateResize { pointer }) is Ok,
        ({
            let rs = it.resizing->Some_0;
            let i = window_index(s.windows, rs.window_id);
            let after = reduce_spec(s, it, DesktopAction::UpdateResize { pointer })->Ok_0.0.windows;
            &&& after.len() == s.windows.len()
            &&& sides_follow_drag(
                rs.rect_start,
                after[i].rect,
                rs.edge,
                pointer.x - rs.pointer_start.x,
                pointer.y - rs.pointer_start.y,
            )
        }),
{
    let rs = it.resizing->Some_0;
    let ws = s.windows;
    let i = window_index(ws, rs.window_id);
    lemma_has_window_first(ws, rs.window_id);
    let dx = (pointer.x - rs.pointer_start.x) as i32;
    let dy = (pointer.y - rs.pointer_start.y) as i32;
    law_resize_moves_grabbed_sides(rs.rect_start, rs.edge, dx, dy);
    let s1 = transition(s, it, DesktopAction::UpdateResize { pointer })->Ok_0.0;
    lemma_normalize_in_place(s1.windows);
    let n = resize_spec(rs.rect_start, rs.edge, dx, dy);
    assert(clamped_min_spec(n, MIN_WINDOW_WIDTH, MIN_WINDOW_HEIGHT) == n);
    assert(s1.windows[i].rect == n);
    assert(normalize_stack(s1.windows)[i].rect == s1.windows[i].rect);
}

/// Ending a drag near the left or right edge of the viewport (and not at
/// the top, where the window would maximize) puts a resizable window in
/// that half: flush with the viewport's top, its right side on the
/// viewport's right side when released near the right edge, its left
/// side on the viewport's left side when released near the left edge
/// only; the rectangle it had is kept for restoring.
pub proof fn law_snap_to_half(s: DesktopView, it: InteractionState, vp: WindowRect)
    requires
        it.dragging is Some,
        has_window(s.windows, it.dragging->Some_0.window_id),
        ({
            let w = s.windows[window_index(s.windows, it.dragging->Some_0.window_id)];
            &&& !w.minimized
            &&& !snaps_to_top(w, vp)
            &&& w.flags.resizable
            &&& near_left(w.rect, vp) || near_right(w.rect, vp)
            &&& snap_fits(w, vp)
        }),
    ensures
        reduce_spec(s, it, DesktopAction::EndMoveWithViewport { viewport: vp }) is Ok,
        ({
            let i = window_index(s.windows, it.dragging->Some_0.window_id);
            let w = s.windows[i];
            let after = reduce_spec(s, it, DesktopAction::EndMoveWithViewport { viewport: vp })->Ok_0.0.windows;
            let n = after[i];
            &&& after.len() == s.windows.len()
            &&& n.rect.y == vp.y
            &&& n.restore_rect == Some(w.rect)
            &&& !n.maximized
            &&& !n.minimized
            &&& near_right(w.rect, vp) ==> n.rect.x + n.rect.w == vp.x + vp.w
            &&& !near_right(w.rect, vp) ==> n.rect.x == vp.x
        }),
{
    let ws = s.windows;
    let id = it.dragging->Some_0.window_id;
    lemma_has_window_first(ws, id);
    let s1 = transition(s, it, DesktopAction::EndMoveWithViewport { viewport: vp })->Ok_0.0;
    lemma_normalize_in_place(s1.windows);
}

/// Hydrating a snapshot restores at most as many windows as the desktop's
/// restore limit allows before the step: the first ones of the snapshot,
/// in order, all of them when the snapshot holds no more than the limit.
pub proof fn law_hydrate_respects_restore_limit(s: DesktopView, it: InteractionState, snapshot: DesktopSnapshot)
    ensures
        reduce_spec(s, it, DesktopAction::HydrateSnapshot { snapshot }) is Ok,
        ({
            let saved = from_snapshot_spec(snapshot@).windows;
            let after = reduce_spec(s, it, DesktopAction::HydrateSnapshot { snapshot })->Ok_0.0.windows;
            &&& after.len() <= s.preferences.max_restore_windows
            &&& after.len() <= saved.len()
            &&& saved.len() <= s.preferences.max_restore_windows ==> after.len() == saved.len()
            &&& forall|k: int|
                0 <= k < after.len() ==> (#[trigger] after[k]).id == saved[k].id && after[k].rect
                    == saved[k].rect && after[k].app_id == saved[k].app_id
        }),
{
    let s1 = transition(s, it, DesktopAction::HydrateSnapshot { snapshot })->Ok_0.0;
    lemma_normalize_in_place(s1.windows);
}

/// A move step of the reducer on a window that is not maximized shifts
/// the rectangle it had when the drag began by the pointer's travel since
/// then, keeping its size; a maximized window does not move.
pub proof fn law_update_move_follows_pointer(s: DesktopView, it: InteractionState, pointer: PointerPosition)
    requires
        it.dragging is Some,
        has_window(s.windows, it.dragging->Some_0.window_id),
        ({
            let d = it.dragging->Some_0;
            &&& fits_i32(pointer.x - d.pointer_start.x)
            &&& fits_i32(pointer.y - d.pointer_start.y)
            &&& fits_i32(d.rect_start.x + (pointer.x - d.pointer_start.x))
            &&& fits_i32(d.rect_start.y + (pointer.y - d.pointer_start.y))
        }),
    ensures
        reduce_spec(s, it, DesktopAction::UpdateMove { pointer }) is Ok,
        ({
            let d = it.dragging->Some_0;
            let i = window_index(s.windows, d.window_id);
            let after = reduce_spec(s, it, DesktopAction::UpdateMove { pointer })->Ok_0.0.windows;
            &&& after.len() == s.windows.len()
            &&& !s.windows[i].maximized ==> {
                &&& after[i].rect.x == d.rect_start.x + (pointer.x - d.pointer_start.x)
                &&& after[i].rect.y == d.rect_start.y + (pointer.y - d.pointer_start.y)
                &&& after[i].rect.w == d.rect_start.w
                &&& after[i].rect.h == d.rect_start.h
            }
            &&& s.windows[i].maximized ==> after[i].rect == s.windows[i].rect
        }),
{
    let d = it.dragging->Some_0;
    lemma_has_window_first(s.windows, d.window_id);
    let s1 = transition(s, it, DesktopAction::UpdateMove { pointer })->Ok_0.0;
    lemma_normalize_in_place(s1.windows);
}

/// Ending a drag near the top of the viewport maximizes a window that may
/// be maximized: it fills the viewport (at least the minimum size), and the
/// rectangle it had is kept for restoring unless it was already maximized.
pub proof fn law_snap_to_top_maximizes(s: DesktopView, it: InteractionState, vp: WindowRect)
    requires
        it.dragging is Some,
        has_window(s.windows, it.dragging->Some_0.window_id),
        ({
            let w = s.windows[window_index(s.windows, it.dragging->Some_0.window_id)];
            &&& !w.minimized
            &&& snaps_to_top(w, vp)
        }),
    ensures
        reduce_spec(s, it, DesktopAction::EndMoveWithViewport { viewport: vp }) is Ok,
        ({
            let i = window_index(s.windows, it.dragging->Some_0.window_id);
            let w = s.windows[i];
            let n = reduce_spec(s, it, DesktopAction::EndMoveWithViewport { viewport: vp })->Ok_0.0.windows[i];
            &&& n.maximized
            &&& !n.minimized
            &&& n.rect.x == vp.x && n.rect.y == vp.y
            &&& n.rect.w >= vp.w && n.rect.h >= vp.h
            &&& n.rect.w >= MIN_WINDOW_WIDTH && n.rect.h >= MIN_WINDOW_HEIGHT
            &&& (vp.w >= MIN_WINDOW_WIDTH ==> n.rect.w == vp.w)
            &&& (vp.h >= MIN_WINDOW_HEIGHT ==> n.rect.h == vp.h)
            &&& n.restore_rect == (if w.maximized { w.restore_rect } else { Some(w.rect) })
        }),
{
    let ws = s.windows;
    let id = it.dragging->Some_0.window_id;
    lemma_has_window_first(ws, id);
    let s1 = transition(s, it, DesktopAction::EndMoveWithViewport { viewport: vp })->Ok_0.0;
    lemma_normalize_in_place(s1.windows);
}

} // verus!
