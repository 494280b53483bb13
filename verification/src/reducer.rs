//! Reducer actions, side-effect intents, and the transition logic of the
//! desktop window manager.

use vstd::prelude::*;
use serde_json::Value;
use crate::strings::{is_blank, owned, str_is_blank};
use crate::json::{json_object_with_string, json_string_member};
use vstd::string::*;
use crate::model::{
    app_icon_view, app_title_view, strings_view, from_snapshot_spec, focused_window_spec, offset_fits,
    offset_spec, opt_string_view, saturating_inc, DragSession, ResizeSession, ThemeView,
    DEFAULT_WINDOW_HEIGHT, DEFAULT_WINDOW_WIDTH,
    clamped_min_spec, i32_max, max_i32,
    AppId, DeepLinkOpenTarget, DeepLinkState, DesktopSnapshot, DesktopState, DesktopView, InteractionState,
    WindowFlags,
    OpenWindowRequest, PointerPosition, ResizeEdge, WindowId, WindowRecord, WindowRect,
    WindowView, windows_view,
};

verus! {

pub const MIN_WINDOW_WIDTH: i32 = 220;
pub const MIN_WINDOW_HEIGHT: i32 = 140;
pub const SNAP_EDGE_THRESHOLD: i32 = 24;
pub const MAX_TERMINAL_HISTORY: usize = 100;

/// Actions accepted by [`reduce_desktop`].
#[derive(Debug, Clone, PartialEq)]
pub enum DesktopAction {
    OpenWindow(OpenWindowRequest),
    CloseWindow { window_id: WindowId },
    FocusWindow { window_id: WindowId },
    MinimizeWindow { window_id: WindowId },
    MaximizeWindow { window_id: WindowId, viewport: WindowRect },
    RestoreWindow { window_id: WindowId },
    ToggleTaskbarWindow { window_id: WindowId },
    ToggleStartMenu,
    CloseStartMenu,
    BeginMove { window_id: WindowId, pointer: PointerPosition },
    UpdateMove { pointer: PointerPosition },
    EndMove,
    EndMoveWithViewport { viewport: WindowRect },
    BeginResize { window_id: WindowId, edge: ResizeEdge, pointer: PointerPosition },
    UpdateResize { pointer: PointerPosition },
    EndResize,
    SetThemeName { theme_name: String },
    SetWallpaper { wallpaper_id: String },
    SetReducedMotion { enabled: bool },
    PushTerminalHistory { command: String },
    SetAppState { window_id: WindowId, app_state: Value },
    HydrateSnapshot { snapshot: DesktopSnapshot },
    ApplyDeepLink { deep_link: DeepLinkState },
}

/// Side-effect intents the shell runtime executes after a transition.
#[derive(Debug, Clone, PartialEq)]
pub enum RuntimeEffect {
    PersistLayout,
    PersistTheme,
    PersistTerminalHistory,
    FocusWindowInput(WindowId),
    ParseAndOpenDeepLink(DeepLinkState),
    OpenExternalUrl(String),
    PlaySound(&'static str),
}

/// Reducer errors for actions that name a missing window.
#[derive(Debug, Clone, Copy, PartialEq, Eq, Structural)]
pub enum ReducerError {
    WindowNotFound,
}

// ---------------------------------------------------------------------
// Window lookup
// ---------------------------------------------------------------------

/// `i` is the first position of a window with id `id`.
pub open spec fn is_first_index(ws: Seq<WindowView>, id: WindowId, i: int) -> bool {
    &&& 0 <= i < ws.len()
    &&& ws[i].id == id
    &&& forall|j: int| 0 <= j < i ==> (#[trigger] ws[j]).id != id
}

pub open spec fn has_window(ws: Seq<WindowView>, id: WindowId) -> bool {
    exists|i: int| 0 <= i < ws.len() && (#[trigger] ws[i]).id == id
}

/// Position of the first window with id `id` (meaningful when present).
pub open spec fn window_index(ws: Seq<WindowView>, id: WindowId) -> int {
    choose|i: int| is_first_index(ws, id, i)
}

pub proof fn lemma_first_index_unique(ws: Seq<WindowView>, id: WindowId, a: int, b: int)
    requires
        is_first_index(ws, id, a),
        is_first_index(ws, id, b),
    ensures
        a == b,
{
    if a < b {
        assert(ws[a].id == id);
    } else if b < a {
        assert(ws[b].id == id);
    }
}

pub proof fn lemma_window_index(ws: Seq<WindowView>, id: WindowId, i: int)
    requires
        is_first_index(ws, id, i),
    ensures
        window_index(ws, id) == i,
        has_window(ws, id),
{
    let k = window_index(ws, id);
    lemma_first_index_unique(ws, id, k, i);
    assert(ws[i].id == id);
}

pub proof fn lemma_has_window_first(ws: Seq<WindowView>, id: WindowId)
    requires
        has_window(ws, id),
    ensures
        is_first_index(ws, id, window_index(ws, id)),
    decreases ws.len(),
{
    if ws.last().id == id && !has_window(ws.drop_last(), id) {
        assert forall|j: int| 0 <= j < ws.len() - 1 implies (#[trigger] ws[j]).id != id by {
            assert(ws.drop_last()[j] == ws[j]);
        }
        lemma_window_index(ws, id, ws.len() - 1);
    } else {
        if !has_window(ws.drop_last(), id) {
            let k = choose|k: int| 0 <= k < ws.len() && (#[trigger] ws[k]).id == id;
            if k < ws.len() - 1 {
                assert(ws.drop_last()[k] == ws[k]);
            }
        }
        lemma_has_window_first(ws.drop_last(), id);
        let k = window_index(ws.drop_last(), id);
        assert forall|j: int| 0 <= j < k implies (#[trigger] ws[j]).id != id by {
            assert(ws.drop_last()[j] == ws[j]);
        }
        assert(ws.drop_last()[k] == ws[k]);
        lemma_window_index(ws, id, k);
    }
}

/// Index of the first window with id `id`.
pub fn find_window_index(ws: &Vec<WindowRecord>, id: WindowId) -> (r: Option<usize>)
    ensures
        match r {
            Some(i) => is_first_index(windows_view(ws@), id, i as int) && window_index(
                windows_view(ws@),
                id,
            ) == i && has_window(windows_view(ws@), id),
            None => !has_window(windows_view(ws@), id),
        },
{
    let ghost v = windows_view(ws@);
    let mut i: usize = 0;
    while i < ws.len()
        invariant
            v == windows_view(ws@),
            v.len() == ws@.len(),
            i <= v.len(),
            forall|j: int| 0 <= j < i ==> (#[trigger] v[j]).id != id,
        decreases ws@.len() - i,
    {
        assert(v[i as int] == ws@[i as int]@);
        if ws[i].id == id {
            proof {
                lemma_window_index(v, id, i as int);
            }
            return Some(i);
        }
        i = i + 1;
    }
    None
}

// ---------------------------------------------------------------------
// Stack normalization
// ---------------------------------------------------------------------

pub open spec fn visible_focused(w: WindowView) -> bool {
    w.is_focused && !w.minimized
}

pub open spec fn any_visible_focused(ws: Seq<WindowView>) -> bool {
    exists|k: int| 0 <= k < ws.len() && visible_focused(#[trigger] ws[k])
}

pub open spec fn first_visible_focused(ws: Seq<WindowView>, i: int) -> bool {
    &&& 0 <= i < ws.len()
    &&& visible_focused(ws[i])
    &&& forall|j: int| 0 <= j < i ==> !visible_focused(#[trigger] ws[j])
}

pub open spec fn last_visible(ws: Seq<WindowView>, i: int) -> bool {
    &&& 0 <= i < ws.len()
    &&& !ws[i].minimized
    &&& forall|j: int| i < j < ws.len() ==> (#[trigger] ws[j]).minimized
}

/// Whether window `i` holds focus after normalization: the first visible
/// focused window keeps it; when there is none, the topmost visible window
/// takes it.
pub open spec fn keeps_focus(ws: Seq<WindowView>, i: int) -> bool {
    if any_visible_focused(ws) {
        first_visible_focused(ws, i)
    } else {
        last_visible(ws, i)
    }
}

/// The stack after normalization: z-order follows position, and at most one
/// visible window is focused.
pub open spec fn normalize_stack(ws: Seq<WindowView>) -> Seq<WindowView> {
    Seq::new(
        ws.len(),
        |i: int| WindowView { z_index: (i + 1) as u32, is_focused: keeps_focus(ws, i), ..ws[i] },
    )
}

pub open spec fn same_except_windows(a: DesktopView, b: DesktopView) -> bool {
    &&& a.next_window_id == b.next_window_id
    &&& a.start_menu_open == b.start_menu_open
    &&& a.active_modal == b.active_modal
    &&& a.theme == b.theme
    &&& a.preferences == b.preferences
    &&& a.last_explorer_path == b.last_explorer_path
    &&& a.last_notepad_slug == b.last_notepad_slug
    &&& a.terminal_history == b.terminal_history
}

pub open spec fn with_windows(s: DesktopView, ws: Seq<WindowView>) -> DesktopView {
    DesktopView { windows: ws, ..s }
}

pub proof fn lemma_first_visible_focused_exists(ws: Seq<WindowView>, k: int)
    requires
        0 <= k < ws.len(),
        visible_focused(ws[k]),
    ensures
        exists|i: int| first_visible_focused(ws, i),
    decreases k,
{
    if forall|j: int| 0 <= j < k ==> !visible_focused(#[trigger] ws[j]) {
        assert(first_visible_focused(ws, k));
    } else {
        let j = choose|j: int| 0 <= j < k && visible_focused(#[trigger] ws[j]);
        lemma_first_visible_focused_exists(ws, j);
    }
}

pub proof fn lemma_last_visible_exists(ws: Seq<WindowView>, k: int)
    requires
        0 <= k < ws.len(),
        !ws[k].minimized,
    ensures
        exists|i: int| last_visible(ws, i),
    decreases ws.len() - k,
{
    if forall|j: int| k < j < ws.len() ==> (#[trigger] ws[j]).minimized {
        assert(last_visible(ws, k));
    } else {
        let j = choose|j: int| k < j < ws.len() && !(#[trigger] ws[j]).minimized;
        lemma_last_visible_exists(ws, j);
    }
}

pub proof fn lemma_first_visible_focused_unique(ws: Seq<WindowView>, a: int, b: int)
    requires
        first_visible_focused(ws, a),
        first_visible_focused(ws, b),
    ensures
        a == b,
{
    if a < b {
        assert(visible_focused(ws[a]));
    } else if b < a {
        assert(visible_focused(ws[b]));
    }
}

pub proof fn lemma_last_visible_unique(ws: Seq<WindowView>, a: int, b: int)
    requires
        last_visible(ws, a),
        last_visible(ws, b),
    ensures
        a == b,
{
    if a < b {
        assert(ws[b].minimized);
    } else if b < a {
        assert(ws[a].minimized);
    }
}

/// The window that keeps focus under normalization, when there is one.
pub proof fn lemma_focus_keeper(ws: Seq<WindowView>)
    ensures
        (exists|i: int| 0 <= i < ws.len() && !(#[trigger] ws[i]).minimized) ==> exists|c: int|
            0 <= c < ws.len() && !ws[c].minimized && keeps_focus(ws, c) && forall|i: int|
                0 <= i < ws.len() && #[trigger] keeps_focus(ws, i) ==> i == c,
        (forall|i: int| 0 <= i < ws.len() ==> (#[trigger] ws[i]).minimized) ==> forall|i: int|
            0 <= i < ws.len() ==> !#[trigger] keeps_focus(ws, i),
{
    if any_visible_focused(ws) {
        let k = choose|k: int| 0 <= k < ws.len() && visible_focused(#[trigger] ws[k]);
        lemma_first_visible_focused_exists(ws, k);
        let c = choose|c: int| first_visible_focused(ws, c);
        assert forall|i: int| 0 <= i < ws.len() && #[trigger] keeps_focus(ws, i) implies i == c by {
            lemma_first_visible_focused_unique(ws, i, c);
        }
        assert(!ws[c].minimized && keeps_focus(ws, c));
    } else {
        if exists|i: int| 0 <= i < ws.len() && !(#[trigger] ws[i]).minimized {
            let k = choose|k: int| 0 <= k < ws.len() && !(#[trigger] ws[k]).minimized;
            lemma_last_visible_exists(ws, k);
            let c = choose|c: int| last_visible(ws, c);
            assert forall|i: int| 0 <= i < ws.len() && #[trigger] keeps_focus(ws, i) implies i == c by {
                lemma_last_visible_unique(ws, i, c);
            }
            assert(!ws[c].minimized && keeps_focus(ws, c));
        }
    }
}

/// Normalizing twice is normalizing once.
pub proof fn lemma_normalize_idempotent(ws: Seq<WindowView>)
    ensures
        normalize_stack(normalize_stack(ws)) == normalize_stack(ws),
{
    let n = normalize_stack(ws);
    lemma_focus_keeper(ws);
    lemma_focus_keeper(n);
    assert forall|i: int| 0 <= i < ws.len() implies #[trigger] keeps_focus(n, i) == keeps_focus(ws, i) by {
        if exists|j: int| 0 <= j < ws.len() && !(#[trigger] ws[j]).minimized {
            let c = choose|c: int|
                0 <= c < ws.len() && !ws[c].minimized && keeps_focus(ws, c) && forall|i: int|
                    0 <= i < ws.len() && #[trigger] keeps_focus(ws, i) ==> i == c;
            assert(n[c].minimized == ws[c].minimized);
            let c2 = choose|c2: int|
                0 <= c2 < n.len() && !n[c2].minimized && keeps_focus(n, c2) && forall|i: int|
                    0 <= i < n.len() && #[trigger] keeps_focus(n, i) ==> i == c2;
            assert(visible_focused(n[c]));
            assert(any_visible_focused(n));
            assert(first_visible_focused(n, c)) by {
                assert forall|j: int| 0 <= j < c implies !visible_focused(#[trigger] n[j]) by {
                    assert(!keeps_focus(ws, j));
                }
            }
            assert(keeps_focus(n, c));
            assert(c2 == c);
        } else {
            assert forall|j: int| 0 <= j < n.len() implies (#[trigger] n[j]).minimized by {
                assert(ws[j].minimized);
            }
        }
    }
    assert(normalize_stack(n) =~= n);
}

/// Window `j` after the first normalization pass.
pub open spec fn first_pass(ws: Seq<WindowView>, j: int) -> WindowView {
    WindowView { z_index: (j + 1) as u32, is_focused: first_visible_focused(ws, j), ..ws[j] }
}

fn normalize_window_stack(state: &mut DesktopState)
    ensures
        final(state)@ == with_windows(old(state)@, normalize_stack(old(state)@.windows)),
{
    let ghost ws = old(state)@.windows;
    let n = state.windows.len();
    let mut has_focused = false;
    let mut i: usize = 0;
    while i < n
        invariant
            ws == old(state)@.windows,
            n == ws.len(),
            state@.windows.len() == n,
            same_except_windows(state@, old(state)@),
            i <= n,
            has_focused == exists|k: int| 0 <= k < i && visible_focused(#[trigger] ws[k]),
            forall|j: int| 0 <= j < i ==> #[trigger] state@.windows[j] == first_pass(ws, j),
            forall|j: int| i <= j < n ==> #[trigger] state@.windows[j] == ws[j],
        decreases n - i,
    {
        let ghost before = state@.windows;
        assert(before[i as int] == ws[i as int]);
        assert(state.windows@[i as int]@ == ws[i as int]);
        let vf = state.windows[i].is_focused && !state.windows[i].minimized;
        state.windows[i].z_index = (i + 1) as u32;
        if state.windows[i].minimized {
            state.windows[i].is_focused = false;
        }
        if state.windows[i].is_focused {
            if has_focused {
                state.windows[i].is_focused = false;
            } else {
                has_focused = true;
            }
        }
        proof {
            assert(vf == visible_focused(ws[i as int]));
            if vf && !has_focused {
            }
            assert(first_visible_focused(ws, i as int) == (vf && !(exists|k: int|
                0 <= k < i && visible_focused(#[trigger] ws[k])))) by {
                if vf && first_visible_focused(ws, i as int) {
                    assert(forall|k: int| 0 <= k < i ==> !visible_focused(#[trigger] ws[k]));
                }
            }
            assert forall|j: int| 0 <= j < n && j != i implies #[trigger] state@.windows[j]
                == before[j] by {
                assert(state@.windows[j] == state.windows@[j]@);
                assert(before[j] == old(state).windows@[j]@ || true);
            }
        }
        i = i + 1;
    }
    let ghost mid = state@.windows;
    if !has_focused {
        let mut k: usize = n;
        while k > 0
            invariant
                ws == old(state)@.windows,
                n == ws.len(),
                state@.windows == mid,
                mid.len() == n,
                same_except_windows(state@, old(state)@),
                forall|j: int| 0 <= j < n ==> #[trigger] mid[j] == first_pass(ws, j),
                k <= n,
                !any_visible_focused(ws),
                forall|j: int| k <= j < n ==> (#[trigger] ws[j]).minimized,
            decreases k,
        {
            assert(mid[k - 1] == state.windows@[k - 1]@);
            assert(mid[k - 1] == first_pass(ws, k - 1));
            if !state.windows[k - 1].minimized {
                let ghost pre = state.windows@;
                state.windows[k - 1].is_focused = true;
                proof {
                    assert(last_visible(ws, k - 1));
                    assert forall|j: int| 0 <= j < n implies #[trigger] state@.windows[j]
                        == normalize_stack(ws)[j] by {
                        assert(state@.windows[j] == state.windows@[j]@);
                        assert(pre[j]@ == mid[j]);
                        if j != k - 1 {
                            assert(state.windows@[j] == pre[j]);
                            assert(!last_visible(ws, j)) by {
                                if last_visible(ws, j) {
                                    lemma_last_visible_unique(ws, j, k - 1);
                                }
                            }
                            assert(!first_visible_focused(ws, j));
                        }
                    }
                    assert(state@.windows =~= normalize_stack(ws));
                    assert(state@ == with_windows(old(state)@, normalize_stack(ws)));
                }
                return;
            }
            k = k - 1;
        }
        proof {
            assert forall|j: int| 0 <= j < n implies #[trigger] state@.windows[j]
                == normalize_stack(ws)[j] by {
                assert(!last_visible(ws, j));
                assert(!first_visible_focused(ws, j));
            }
            assert(state@.windows =~= normalize_stack(ws));
            assert(state@ == with_windows(old(state)@, normalize_stack(ws)));
        }
    } else {
        proof {
            assert(any_visible_focused(ws));
            assert forall|j: int| 0 <= j < n implies #[trigger] state@.windows[j]
                == normalize_stack(ws)[j] by {}
            assert(state@.windows =~= normalize_stack(ws));
            assert(state@ == with_windows(old(state)@, normalize_stack(ws)));
        }
    }
}


// ---------------------------------------------------------------------
// Focus
// ---------------------------------------------------------------------

pub open spec fn unfocus_all(ws: Seq<WindowView>) -> Seq<WindowView> {
    Seq::new(ws.len(), |i: int| WindowView { is_focused: false, ..ws[i] })
}

/// Window `i` is already the focused, visible top of the stack.
pub open spec fn already_focused_top(ws: Seq<WindowView>, i: int) -> bool {
    i + 1 == ws.len() && ws[i].is_focused && !ws[i].minimized
}

/// Window `i` moved to the top, focused and shown; all others unfocused.
pub open spec fn raise_and_focus(ws: Seq<WindowView>, i: int) -> Seq<WindowView> {
    normalize_stack(
        unfocus_all(ws).remove(i).push(WindowView { is_focused: true, minimized: false, ..ws[i] }),
    )
}

pub open spec fn focus_at(ws: Seq<WindowView>, i: int) -> Seq<WindowView> {
    if already_focused_top(ws, i) {
        ws
    } else {
        raise_and_focus(ws, i)
    }
}

fn focus_window_internal(state: &mut DesktopState, window_id: WindowId) -> (r: Result<
    (),
    ReducerError,
>)
    ensures
        match r {
            Ok(()) => has_window(old(state)@.windows, window_id) && final(state)@ == with_windows(
                old(state)@,
                focus_at(old(state)@.windows, window_index(old(state)@.windows, window_id)),
            ),
            Err(e) => e == ReducerError::WindowNotFound && !has_window(old(state)@.windows, window_id)
                && final(state)@ == old(state)@,
        },
{
    let ghost ws = old(state)@.windows;
    let idx = match find_window_index(&state.windows, window_id) {
        Some(i) => i,
        None => return Err(ReducerError::WindowNotFound),
    };
    let n = state.windows.len();
    assert(ws[idx as int] == state.windows@[idx as int]@);
    if idx + 1 == n && state.windows[idx].is_focused && !state.windows[idx].minimized {
        assert(state@ == with_windows(old(state)@, ws));
        return Ok(());
    }
    let mut j: usize = 0;
    while j < n
        invariant
            ws == old(state)@.windows,
            n == ws.len(),
            state@.windows.len() == n,
            same_except_windows(state@, old(state)@),
            j <= n,
            forall|k: int| 0 <= k < j ==> #[trigger] state@.windows[k] == unfocus_all(ws)[k],
            forall|k: int| j <= k < n ==> #[trigger] state@.windows[k] == ws[k],
        decreases n - j,
    {
        let ghost pre = state.windows@;
        state.windows[j].is_focused = false;
        proof {
            assert forall|k: int| 0 <= k < n implies #[trigger] state@.windows[k] == (if k < j + 1 {
                unfocus_all(ws)[k]
            } else {
                ws[k]
            }) by {
                assert(state@.windows[k] == state.windows@[k]@);
                assert(pre[k]@ == windows_view(pre)[k]);
                if k != j {
                    assert(state.windows@[k] == pre[k]);
                }
            }
        }
        j = j + 1;
    }
    assert(state@.windows =~= unfocus_all(ws));
    let ghost unf = state.windows@;
    let mut window = state.windows.remove(idx);
    window.is_focused = true;
    window.minimized = false;
    state.windows.push(window);
    proof {
        let target = unfocus_all(ws).remove(idx as int).push(
            WindowView { is_focused: true, minimized: false, ..ws[idx as int] },
        );
        assert(unf[idx as int]@ == unfocus_all(ws)[idx as int]);
        assert forall|k: int| 0 <= k < n implies #[trigger] state@.windows[k] == target[k] by {
            assert(state@.windows[k] == state.windows@[k]@);
            if k < idx {
                assert(state.windows@[k] == unf[k]);
                assert(unf[k]@ == windows_view(unf)[k]);
            } else if k < n - 1 {
                assert(state.windows@[k] == unf[k + 1]);
                assert(unf[k + 1]@ == windows_view(unf)[k + 1]);
            }
        }
        assert(state@.windows =~= target);
    }
    normalize_window_stack(state);
    Ok(())
}


// ---------------------------------------------------------------------
// Closing
// ---------------------------------------------------------------------

/// The stack without the windows whose id is `id`, order kept.
pub open spec fn without_window(ws: Seq<WindowView>, id: WindowId) -> Seq<WindowView>
    decreases ws.len(),
{
    if ws.len() == 0 {
        ws
    } else {
        let rest = without_window(ws.drop_last(), id);
        if ws.last().id == id {
            rest
        } else {
            rest.push(ws.last())
        }
    }
}

pub proof fn lemma_without_window_len(ws: Seq<WindowView>, id: WindowId)
    ensures
        without_window(ws, id).len() <= ws.len(),
        without_window(ws, id).len() == ws.len() <==> !has_window(ws, id),
        forall|i: int|
            0 <= i < without_window(ws, id).len() ==> (#[trigger] without_window(ws, id)[i]).id != id,
    decreases ws.len(),
{
    if ws.len() > 0 {
        let d = ws.drop_last();
        lemma_without_window_len(d, id);
        if has_window(d, id) {
            let k = choose|k: int| 0 <= k < d.len() && (#[trigger] d[k]).id == id;
            assert(ws[k] == d[k]);
        }
        if has_window(ws, id) && ws.last().id != id {
            let k = choose|k: int| 0 <= k < ws.len() && (#[trigger] ws[k]).id == id;
            assert(d[k] == ws[k]);
        }
    }
}

fn remove_windows_with_id(state: &mut DesktopState, window_id: WindowId)
    ensures
        final(state)@ == with_windows(old(state)@, without_window(old(state)@.windows, window_id)),
{
    let ghost orig = old(state)@.windows;
    let mut rest: Vec<WindowRecord> = Vec::new();
    std::mem::swap(&mut rest, &mut state.windows);
    let ghost mut k: int = 0;
    assert(windows_view(rest@) =~= orig.subrange(0, orig.len() as int));
    assert(rest@.len() == windows_view(rest@).len());
    assert(state@.windows =~= without_window(orig.subrange(0, 0), window_id));
    while rest.len() > 0
        invariant
            orig == old(state)@.windows,
            0 <= k <= orig.len(),
            k + rest@.len() == orig.len(),
            windows_view(rest@) == orig.subrange(k, orig.len() as int),
            state@.windows == without_window(orig.subrange(0, k), window_id),
            same_except_windows(state@, old(state)@),
        decreases rest@.len(),
    {
        let ghost before = rest@;
        assert(windows_view(before).len() == before.len());
        let w = rest.remove(0);
        proof {
            assert(windows_view(before)[0] == w@);
            assert(windows_view(before)[0] == orig.subrange(k, orig.len() as int)[0]);
            assert(orig[k] == w@);
            assert(windows_view(rest@) =~= orig.subrange(k + 1, orig.len() as int)) by {
                assert forall|i: int| 0 <= i < rest@.len() implies #[trigger] windows_view(rest@)[i]
                    == orig.subrange(k + 1, orig.len() as int)[i] by {
                    assert(rest@[i] == before[i + 1]);
                    assert(windows_view(rest@)[i] == rest@[i]@);
                    assert(windows_view(before)[i + 1] == before[i + 1]@);
                    assert(windows_view(before)[i + 1] == orig.subrange(k, orig.len() as int)[i + 1]);
                }
            }
            assert(orig.subrange(0, k + 1).drop_last() =~= orig.subrange(0, k));
            assert(orig.subrange(0, k + 1).last() == w@);
        }
        if w.id != window_id {
            state.windows.push(w);
            proof {
                assert(state@.windows =~= without_window(orig.subrange(0, k), window_id).push(w@));
            }
        }
        proof {
            k = k + 1;
        }
    }
    assert(orig.subrange(0, k) =~= orig);
}

// ---------------------------------------------------------------------
// Resizing and snapping geometry
// ---------------------------------------------------------------------

pub open spec fn fits_i32(v: int) -> bool {
    i32::MIN <= v <= i32::MAX
}

/// Every sum the resize of `edge` computes stays within `i32`.
pub open spec fn resize_fits(r: WindowRect, edge: ResizeEdge, dx: i32, dy: i32) -> bool {
    match edge {
        ResizeEdge::East => fits_i32(r.w + dx),
        ResizeEdge::West => fits_i32(r.x + dx) && fits_i32(r.w - dx),
        ResizeEdge::South => fits_i32(r.h + dy),
        ResizeEdge::North => fits_i32(r.y + dy) && fits_i32(r.h - dy),
        ResizeEdge::NorthEast => fits_i32(r.y + dy) && fits_i32(r.h - dy) && fits_i32(r.w + dx),
        ResizeEdge::NorthWest => fits_i32(r.x + dx) && fits_i32(r.y + dy) && fits_i32(r.w - dx)
            && fits_i32(r.h - dy),
        ResizeEdge::SouthEast => fits_i32(r.w + dx) && fits_i32(r.h + dy),
        ResizeEdge::SouthWest => fits_i32(r.x + dx) && fits_i32(r.w - dx) && fits_i32(r.h + dy),
    }
}

/// The rectangle after dragging `edge` by `(dx, dy)`: the grabbed edges
/// move, the opposite ones stay.
pub open spec fn resize_spec(r: WindowRect, edge: ResizeEdge, dx: i32, dy: i32) -> WindowRect {
    match edge {
        ResizeEdge::East => WindowRect { w: (r.w + dx) as i32, ..r },
        ResizeEdge::West => WindowRect { x: (r.x + dx) as i32, w: (r.w - dx) as i32, ..r },
        ResizeEdge::South => WindowRect { h: (r.h + dy) as i32, ..r },
        ResizeEdge::North => WindowRect { y: (r.y + dy) as i32, h: (r.h - dy) as i32, ..r },
        ResizeEdge::NorthEast => WindowRect {
            y: (r.y + dy) as i32,
            h: (r.h - dy) as i32,
            w: (r.w + dx) as i32,
            ..r
        },
        ResizeEdge::NorthWest => WindowRect {
            x: (r.x + dx) as i32,
            y: (r.y + dy) as i32,
            w: (r.w - dx) as i32,
            h: (r.h - dy) as i32,
        },
        ResizeEdge::SouthEast => WindowRect { w: (r.w + dx) as i32, h: (r.h + dy) as i32, ..r },
        ResizeEdge::SouthWest => WindowRect {
            x: (r.x + dx) as i32,
            w: (r.w - dx) as i32,
            h: (r.h + dy) as i32,
            ..r
        },
    }
}

pub fn resize_rect(start: WindowRect, edge: ResizeEdge, dx: i32, dy: i32) -> (r: WindowRect)
    requires
        resize_fits(start, edge, dx, dy),
    ensures
        r == resize_spec(start, edge, dx, dy),
{
    match edge {
        ResizeEdge::East => WindowRect { w: start.w + dx, ..start },
        ResizeEdge::West => WindowRect { x: start.x + dx, w: start.w - dx, ..start },
        ResizeEdge::South => WindowRect { h: start.h + dy, ..start },
        ResizeEdge::North => WindowRect { y: start.y + dy, h: start.h - dy, ..start },
        ResizeEdge::NorthEast => WindowRect {
            y: start.y + dy,
            h: start.h - dy,
            w: start.w + dx,
            ..start
        },
        ResizeEdge::NorthWest => WindowRect {
            x: start.x + dx,
            y: start.y + dy,
            w: start.w - dx,
            h: start.h - dy,
        },
        ResizeEdge::SouthEast => WindowRect { w: start.w + dx, h: start.h + dy, ..start },
        ResizeEdge::SouthWest => WindowRect {
            x: start.x + dx,
            w: start.w - dx,
            h: start.h + dy,
            ..start
        },
    }
}

/// Rust's `/` on integers: the quotient rounded toward zero.
pub open spec fn trunc_div(a: int, b: int) -> int {
    if a >= 0 {
        a / b
    } else {
        -((-a) / b)
    }
}

/// Rust's `%` on integers: the remainder takes the sign of `a`.
pub open spec fn trunc_rem(a: int, b: int) -> int {
    if a >= 0 {
        a % b
    } else {
        -((-a) % b)
    }
}

pub open spec fn near_left(r: WindowRect, vp: WindowRect) -> bool {
    r.x <= vp.x + SNAP_EDGE_THRESHOLD
}

pub open spec fn near_right(r: WindowRect, vp: WindowRect) -> bool {
    r.x + r.w >= vp.x + vp.w - SNAP_EDGE_THRESHOLD
}

pub open spec fn near_top(r: WindowRect, vp: WindowRect) -> bool {
    r.y <= vp.y + SNAP_EDGE_THRESHOLD
}

pub open spec fn half_width(vp: WindowRect) -> i32 {
    max_i32(trunc_div(vp.w as int, 2) as i32, MIN_WINDOW_WIDTH)
}

/// The snap of `w` against `vp` takes the top branch.
pub open spec fn snaps_to_top(w: WindowView, vp: WindowRect) -> bool {
    near_top(w.rect, vp) && w.flags.maximizable
}

/// The snap of `w` against `vp` takes the half-screen branch.
pub open spec fn snaps_to_side(w: WindowView, vp: WindowRect) -> bool {
    !snaps_to_top(w, vp) && (near_left(w.rect, vp) || near_right(w.rect, vp)) && w.flags.resizable
}

pub open spec fn maximized_into(w: WindowView, vp: WindowRect) -> WindowView {
    WindowView {
        restore_rect: if !w.maximized { Some(w.rect) } else { w.restore_rect },
        rect: clamped_min_spec(vp, MIN_WINDOW_WIDTH, MIN_WINDOW_HEIGHT),
        maximized: true,
        minimized: false,
        ..w
    }
}

pub open spec fn snapped_to_side(w: WindowView, vp: WindowRect) -> WindowView {
    let half = half_width(vp);
    WindowView {
        restore_rect: Some(w.rect),
        rect: WindowRect {
            x: if near_right(w.rect, vp) { (vp.x + vp.w - half) as i32 } else { vp.x },
            y: vp.y,
            w: half,
            h: max_i32(vp.h, MIN_WINDOW_HEIGHT),
        },
        maximized: false,
        minimized: false,
        ..w
    }
}

/// Every sum the snap computes for window `w` stays within `i32`.
pub open spec fn snap_fits(w: WindowView, vp: WindowRect) -> bool {
    !w.minimized ==> {
        &&& fits_i32(vp.x + SNAP_EDGE_THRESHOLD)
        &&& fits_i32(w.rect.x + w.rect.w)
        &&& fits_i32(vp.x + vp.w)
        &&& fits_i32(vp.x + vp.w - SNAP_EDGE_THRESHOLD)
        &&& fits_i32(vp.y + SNAP_EDGE_THRESHOLD)
        &&& (snaps_to_side(w, vp) && near_right(w.rect, vp) ==> fits_i32(vp.x + vp.w - half_width(vp)))
    }
}

/// Edge snapping of the first window with id `id` after a drag: near the
/// top it maximizes, near the left or right edge it takes that half.
pub open spec fn snap_spec(ws: Seq<WindowView>, id: WindowId, vp: WindowRect) -> Seq<WindowView> {
    if !has_window(ws, id) {
        ws
    } else {
        let i = window_index(ws, id);
        let w = ws[i];
        if w.minimized {
            ws
        } else if snaps_to_top(w, vp) {
            ws.update(i, maximized_into(w, vp))
        } else if snaps_to_side(w, vp) {
            ws.update(i, snapped_to_side(w, vp))
        } else {
            ws
        }
    }
}

fn snap_window_to_viewport_edge(state: &mut DesktopState, window_id: WindowId, viewport: WindowRect)
    requires
        has_window(old(state)@.windows, window_id) ==> snap_fits(
            old(state)@.windows[window_index(old(state)@.windows, window_id)],
            viewport,
        ),
    ensures
        final(state)@ == with_windows(old(state)@, snap_spec(old(state)@.windows, window_id, viewport)),
{
    let ghost ws = old(state)@.windows;
    let i = match find_window_index(&state.windows, window_id) {
        Some(i) => i,
        None => {
            assert(state@ == with_windows(old(state)@, ws));
            return;
        },
    };
    let ghost w = ws[i as int];
    assert(w == state.windows@[i as int]@);
    if state.windows[i].minimized {
        assert(state@ == with_windows(old(state)@, ws));
        return;
    }
    let rect = state.windows[i].rect;
    let is_near_left = rect.x <= viewport.x + SNAP_EDGE_THRESHOLD;
    let is_near_right = rect.x + rect.w >= viewport.x + viewport.w - SNAP_EDGE_THRESHOLD;
    let is_near_top = rect.y <= viewport.y + SNAP_EDGE_THRESHOLD;
    let ghost pre = state.windows@;
    if is_near_top && state.windows[i].flags.maximizable {
        if !state.windows[i].maximized {
            state.windows[i].restore_rect = Some(rect);
        }
        state.windows[i].rect = viewport.clamped_min(MIN_WINDOW_WIDTH, MIN_WINDOW_HEIGHT);
        state.windows[i].maximized = true;
        state.windows[i].minimized = false;
        proof {
            assert forall|k: int| 0 <= k < ws.len() implies #[trigger] state@.windows[k]
                == ws.update(i as int, maximized_into(w, viewport))[k] by {
                assert(state@.windows[k] == state.windows@[k]@);
                assert(pre[k]@ == windows_view(pre)[k]);
            }
            assert(state@.windows =~= snap_spec(ws, window_id, viewport));
        }
        return;
    }
    if !(is_near_left || is_near_right) || !state.windows[i].flags.resizable {
        assert(state@ == with_windows(old(state)@, ws));
        return;
    }
    let raw_half = viewport.w / 2;
    let half = i32_max(raw_half, MIN_WINDOW_WIDTH);
    let snapped = WindowRect {
        x: if is_near_right {
            viewport.x + viewport.w - half
        } else {
            viewport.x
        },
        y: viewport.y,
        w: half,
        h: i32_max(viewport.h, MIN_WINDOW_HEIGHT),
    };
    assert(raw_half == trunc_div(viewport.w as int, 2));
    state.windows[i].restore_rect = Some(rect);
    state.windows[i].rect = snapped;
    state.windows[i].maximized = false;
    state.windows[i].minimized = false;
    proof {
        assert forall|k: int| 0 <= k < ws.len() implies #[trigger] state@.windows[k]
            == ws.update(i as int, snapped_to_side(w, viewport))[k] by {
            assert(state@.windows[k] == state.windows@[k]@);
            assert(pre[k]@ == windows_view(pre)[k]);
        }
        assert(state@.windows =~= snap_spec(ws, window_id, viewport));
    }
}


// ---------------------------------------------------------------------
// Transition specification
// ---------------------------------------------------------------------

/// Default placement of a new window: a cascade that steps 20 pixels per id.
pub open spec fn default_open_rect(id: WindowId) -> WindowRect {
    let off = trunc_rem((id.0 as i32) - 1, 8) * 20;
    WindowRect {
        x: (40 + off) as i32,
        y: (48 + off) as i32,
        w: DEFAULT_WINDOW_WIDTH,
        h: DEFAULT_WINDOW_HEIGHT,
    }
}

/// The record a request opens under id `id`, before it takes focus.
pub open spec fn opened_window(req: OpenWindowRequest, id: WindowId) -> WindowView {
    WindowView {
        id: id,
        app_id: req.app_id,
        title: match req.title {
            Some(t) => t@,
            None => app_title_view(req.app_id),
        },
        icon_id: match req.icon_id {
            Some(t) => t@,
            None => app_icon_view(req.app_id),
        },
        rect: clamped_min_spec(
            match req.rect {
                Some(r) => r,
                None => default_open_rect(id),
            },
            MIN_WINDOW_WIDTH,
            MIN_WINDOW_HEIGHT,
        ),
        restore_rect: None,
        z_index: 0,
        is_focused: false,
        minimized: false,
        maximized: false,
        flags: req.flags,
        persist_key: opt_string_view(req.persist_key),
        app_state: req.app_state,
        launch_params: req.launch_params,
    }
}

pub open spec fn minimized_window(w: WindowView) -> WindowView {
    WindowView { minimized: true, is_focused: false, ..w }
}

pub open spec fn restored_window(w: WindowView) -> WindowView {
    if w.maximized {
        WindowView {
            rect: match w.restore_rect {
                Some(r) => r,
                None => w.rect,
            },
            maximized: false,
            minimized: false,
            ..w
        }
    } else {
        WindowView { minimized: false, ..w }
    }
}

/// Terminal history after appending `cmd`, keeping the newest 100 entries.
pub open spec fn push_history_spec(h: Seq<Seq<char>>, cmd: Seq<char>) -> Seq<Seq<char>> {
    let h1 = h.push(cmd);
    if h1.len() > MAX_TERMINAL_HISTORY {
        h1.subrange(h1.len() - MAX_TERMINAL_HISTORY, h1.len() as int)
    } else {
        h1
    }
}

pub open spec fn open_effects(s: DesktopView, req: OpenWindowRequest) -> Seq<RuntimeEffect> {
    let base = seq![
        RuntimeEffect::PersistLayout,
        RuntimeEffect::FocusWindowInput(WindowId(s.next_window_id)),
    ];
    if req.app_id == AppId::Dialup && s.theme.audio_enabled {
        base.push(RuntimeEffect::PlaySound("dialup-open"))
    } else {
        base
    }
}

pub open spec fn open_window_spec(s: DesktopView, req: OpenWindowRequest) -> DesktopView {
    let id = WindowId(s.next_window_id);
    let ws = s.windows.push(opened_window(req, id));
    DesktopView {
        next_window_id: saturating_inc(s.next_window_id),
        windows: focus_at(ws, window_index(ws, id)),
        start_menu_open: false,
        ..s
    }
}

pub open spec fn restore_spec(s: DesktopView, id: WindowId) -> DesktopView {
    let i = window_index(s.windows, id);
    with_windows(s, focus_at(s.windows.update(i, restored_window(s.windows[i])), i))
}

pub open spec fn minimize_spec(s: DesktopView, id: WindowId) -> DesktopView {
    let i = window_index(s.windows, id);
    with_windows(s, s.windows.update(i, minimized_window(s.windows[i])))
}

pub open spec fn focus_spec(s: DesktopView, id: WindowId) -> DesktopView {
    DesktopView {
        windows: focus_at(s.windows, window_index(s.windows, id)),
        start_menu_open: false,
        ..s
    }
}

pub open spec fn theme_changed(s: DesktopView, t: ThemeView) -> DesktopView {
    DesktopView { theme: t, ..s }
}

pub type Outcome = Result<(DesktopView, InteractionState, Seq<RuntimeEffect>), ReducerError>;

pub open spec fn not_found() -> Outcome {
    Err(ReducerError::WindowNotFound)
}

/// What an action does before the final stack normalization.
pub open spec fn transition(s: DesktopView, it: InteractionState, a: DesktopAction) -> Outcome {
    let ws = s.windows;
    match a {
        DesktopAction::OpenWindow(req) => Ok((open_window_spec(s, req), it, open_effects(s, req))),
        DesktopAction::CloseWindow { window_id } => if !has_window(ws, window_id) {
            not_found()
        } else {
            Ok(
                (
                    DesktopView {
                        windows: without_window(ws, window_id),
                        active_modal: if s.active_modal == Some(window_id) {
                            None
                        } else {
                            s.active_modal
                        },
                        ..s
                    },
                    it,
                    seq![RuntimeEffect::PersistLayout],
                ),
            )
        },
        DesktopAction::FocusWindow { window_id } => if !has_window(ws, window_id) {
            not_found()
        } else {
            Ok((focus_spec(s, window_id), it, seq![RuntimeEffect::FocusWindowInput(window_id)]))
        },
        DesktopAction::MinimizeWindow { window_id } => if !has_window(ws, window_id) {
            not_found()
        } else {
            Ok((minimize_spec(s, window_id), it, seq![RuntimeEffect::PersistLayout]))
        },
        DesktopAction::MaximizeWindow { window_id, viewport } => if !has_window(ws, window_id) {
            not_found()
        } else {
            let i = window_index(ws, window_id);
            Ok(
                (
                    with_windows(s, focus_at(ws.update(i, maximized_into(ws[i], viewport)), i)),
                    it,
                    seq![RuntimeEffect::PersistLayout],
                ),
            )
        },
        DesktopAction::RestoreWindow { window_id } => if !has_window(ws, window_id) {
            not_found()
        } else {
            Ok((restore_spec(s, window_id), it, seq![RuntimeEffect::PersistLayout]))
        },
        DesktopAction::ToggleTaskbarWindow { window_id } => if !has_window(ws, window_id) {
            not_found()
        } else if ws[window_index(ws, window_id)].minimized {
            Ok((restore_spec(s, window_id), it, seq![RuntimeEffect::PersistLayout]))
        } else if focused_window_spec(ws) == Some(window_id) {
            Ok((minimize_spec(s, window_id), it, seq![RuntimeEffect::PersistLayout]))
        } else {
            Ok((focus_spec(s, window_id), it, seq![]))
        },
        DesktopAction::ToggleStartMenu => Ok(
            (DesktopView { start_menu_open: !s.start_menu_open, ..s }, it, seq![]),
        ),
        DesktopAction::CloseStartMenu => Ok(
            (DesktopView { start_menu_open: false, ..s }, it, seq![]),
        ),
        DesktopAction::BeginMove { window_id, pointer } => if !has_window(ws, window_id) {
            not_found()
        } else {
            let i = window_index(ws, window_id);
            Ok(
                (
                    with_windows(s, focus_at(ws, i)),
                    InteractionState {
                        dragging: Some(
                            DragSession {
                                window_id: window_id,
                                pointer_start: pointer,
                                rect_start: ws[i].rect,
                            },
                        ),
                        ..it
                    },
                    seq![],
                ),
            )
        },
        DesktopAction::UpdateMove { pointer } => match it.dragging {
            None => Ok((s, it, seq![])),
            Some(d) => if !has_window(ws, d.window_id) {
                not_found()
            } else {
                let i = window_index(ws, d.window_id);
                let dx = (pointer.x - d.pointer_start.x) as i32;
                let dy = (pointer.y - d.pointer_start.y) as i32;
                if ws[i].maximized {
                    Ok((s, it, seq![]))
                } else {
                    Ok(
                        (
                            with_windows(
                                s,
                                ws.update(
                                    i,
                                    WindowView { rect: offset_spec(d.rect_start, dx, dy), ..ws[i] },
                                ),
                            ),
                            it,
                            seq![],
                        ),
                    )
                }
            },
        },
        DesktopAction::EndMove => Ok(
            (s, InteractionState { dragging: None, ..it }, seq![RuntimeEffect::PersistLayout]),
        ),
        DesktopAction::EndMoveWithViewport { viewport } => Ok(
            (
                match it.dragging {
                    Some(d) => with_windows(s, snap_spec(ws, d.window_id, viewport)),
                    None => s,
                },
                InteractionState { dragging: None, ..it },
                seq![RuntimeEffect::PersistLayout],
            ),
        ),
        DesktopAction::BeginResize { window_id, edge, pointer } => if !has_window(ws, window_id) {
            not_found()
        } else {
            let i = window_index(ws, window_id);
            Ok(
                (
                    with_windows(s, focus_at(ws, i)),
                    InteractionState {
                        resizing: Some(
                            ResizeSession {
                                window_id: window_id,
                                edge: edge,
                                pointer_start: pointer,
                                rect_start: ws[i].rect,
                            },
                        ),
                        ..it
                    },
                    seq![],
                ),
            )
        },
        DesktopAction::UpdateResize { pointer } => match it.resizing {
            None => Ok((s, it, seq![])),
            Some(r) => if !has_window(ws, r.window_id) {
                not_found()
            } else {
                let i = window_index(ws, r.window_id);
                let dx = (pointer.x - r.pointer_start.x) as i32;
                let dy = (pointer.y - r.pointer_start.y) as i32;
                if !ws[i].maximized && ws[i].flags.resizable {
                    Ok(
                        (
                            with_windows(
                                s,
                                ws.update(
                                    i,
                                    WindowView {
                                        rect: clamped_min_spec(
                                            resize_spec(r.rect_start, r.edge, dx, dy),
                                            MIN_WINDOW_WIDTH,
                                            MIN_WINDOW_HEIGHT,
                                        ),
                                        ..ws[i]
                                    },
                                ),
                            ),
                            it,
                            seq![],
                        ),
                    )
                } else {
                    Ok((s, it, seq![]))
                }
            },
        },
        DesktopAction::EndResize => Ok(
            (s, InteractionState { resizing: None, ..it }, seq![RuntimeEffect::PersistLayout]),
        ),
        DesktopAction::SetThemeName { theme_name } => Ok(
            (
                theme_changed(s, ThemeView { name: theme_name@, ..s.theme }),
                it,
                seq![RuntimeEffect::PersistTheme],
            ),
        ),
        DesktopAction::SetWallpaper { wallpaper_id } => Ok(
            (
                theme_changed(s, ThemeView { wallpaper_id: wallpaper_id@, ..s.theme }),
                it,
                seq![RuntimeEffect::PersistTheme],
            ),
        ),
        DesktopAction::SetReducedMotion { enabled } => Ok(
            (
                theme_changed(s, ThemeView { reduced_motion: enabled, ..s.theme }),
                it,
                seq![RuntimeEffect::PersistTheme],
            ),
        ),
        DesktopAction::PushTerminalHistory { command } => if s.preferences.terminal_history_enabled
            && !is_blank(command@) {
            Ok(
                (
                    DesktopView {
                        terminal_history: push_history_spec(s.terminal_history, command@),
                        ..s
                    },
                    it,
                    seq![RuntimeEffect::PersistTerminalHistory],
                ),
            )
        } else {
            Ok((s, it, seq![]))
        },
        DesktopAction::SetAppState { window_id, app_state } => if !has_window(ws, window_id) {
            not_found()
        } else {
            let i = window_index(ws, window_id);
            Ok(
                (
                    with_windows(s, ws.update(i, WindowView { app_state: app_state, ..ws[i] })),
                    it,
                    seq![RuntimeEffect::PersistLayout],
                ),
            )
        },
        DesktopAction::HydrateSnapshot { snapshot } => {
            let r = from_snapshot_spec(snapshot@);
            let max = s.preferences.max_restore_windows;
            Ok(
                (
                    with_windows(
                        r,
                        if r.windows.len() > max {
                            r.windows.subrange(0, max as int)
                        } else {
                            r.windows
                        },
                    ),
                    it,
                    seq![],
                ),
            )
        },
        DesktopAction::ApplyDeepLink { deep_link } => Ok(
            (s, it, seq![RuntimeEffect::ParseAndOpenDeepLink(deep_link)]),
        ),
    }
}

/// The full transition: the action, then stack normalization.
pub open spec fn reduce_spec(s: DesktopView, it: InteractionState, a: DesktopAction) -> Outcome {
    match transition(s, it, a) {
        Ok((s1, i1, e1)) => Ok((with_windows(s1, normalize_stack(s1.windows)), i1, e1)),
        Err(e) => Err(e),
    }
}

/// Inputs on which the reducer's `i32` geometry stays in range; outside
/// them the pixel arithmetic would overflow.
pub open spec fn reduce_fits(s: DesktopView, it: InteractionState, a: DesktopAction) -> bool {
    let ws = s.windows;
    match a {
        DesktopAction::OpenWindow(_) => (s.next_window_id as i32) != i32::MIN,
        DesktopAction::UpdateMove { pointer } => match it.dragging {
            Some(d) => {
                &&& fits_i32(pointer.x - d.pointer_start.x)
                &&& fits_i32(pointer.y - d.pointer_start.y)
                &&& (has_window(ws, d.window_id) && !ws[window_index(ws, d.window_id)].maximized)
                    ==> offset_fits(
                    d.rect_start,
                    (pointer.x - d.pointer_start.x) as i32,
                    (pointer.y - d.pointer_start.y) as i32,
                )
            },
            None => true,
        },
        DesktopAction::UpdateResize { pointer } => match it.resizing {
            Some(r) => {
                &&& fits_i32(pointer.x - r.pointer_start.x)
                &&& fits_i32(pointer.y - r.pointer_start.y)
                &&& (has_window(ws, r.window_id) && !ws[window_index(ws, r.window_id)].maximized
                    && ws[window_index(ws, r.window_id)].flags.resizable) ==> resize_fits(
                    r.rect_start,
                    r.edge,
                    (pointer.x - r.pointer_start.x) as i32,
                    (pointer.y - r.pointer_start.y) as i32,
                )
            },
            None => true,
        },
        DesktopAction::EndMoveWithViewport { viewport } => match it.dragging {
            Some(d) => has_window(ws, d.window_id) ==> snap_fits(
                ws[window_index(ws, d.window_id)],
                viewport,
            ),
            None => true,
        },
        _ => true,
    }
}


// ---------------------------------------------------------------------
// Transition implementation
// ---------------------------------------------------------------------

pub proof fn lemma_view_update(v: Seq<WindowRecord>, i: int, w: WindowRecord)
    requires
        0 <= i < v.len(),
    ensures
        windows_view(v.update(i, w)) == windows_view(v).update(i, w@),
{
    assert(windows_view(v.update(i, w)) =~= windows_view(v).update(i, w@));
}

pub proof fn lemma_first_index_after_update(ws: Seq<WindowView>, id: WindowId, i: int, w: WindowView)
    requires
        is_first_index(ws, id, i),
        w.id == id,
    ensures
        window_index(ws.update(i, w), id) == i,
        has_window(ws.update(i, w), id),
{
    let u = ws.update(i, w);
    assert forall|j: int| 0 <= j < i implies (#[trigger] u[j]).id != id by {
        assert(u[j] == ws[j]);
    }
    lemma_window_index(u, id, i);
}

fn effects1(e: RuntimeEffect) -> (r: Vec<RuntimeEffect>)
    ensures
        r@ == seq![e],
{
    let mut v = Vec::new();
    v.push(e);
    v
}

fn mark_minimized(w: &mut WindowRecord)
    ensures
        final(w)@ == minimized_window(old(w)@),
{
    w.minimized = true;
    w.is_focused = false;
}

fn mark_restored(w: &mut WindowRecord)
    ensures
        final(w)@ == restored_window(old(w)@),
{
    if w.maximized {
        if let Some(restore_rect) = w.restore_rect {
            w.rect = restore_rect;
        }
        w.maximized = false;
    }
    w.minimized = false;
}

fn mark_maximized(w: &mut WindowRecord, viewport: WindowRect)
    ensures
        final(w)@ == maximized_into(old(w)@, viewport),
{
    if !w.maximized {
        w.restore_rect = Some(w.rect);
    }
    w.rect = viewport.clamped_min(MIN_WINDOW_WIDTH, MIN_WINDOW_HEIGHT);
    w.maximized = true;
    w.minimized = false;
}

fn reduce_minimize(state: &mut DesktopState, window_id: WindowId) -> (r: Result<Vec<RuntimeEffect>, ReducerError>)
    ensures
        r is Err ==> final(state)@ == old(state)@,
        r is Err ==> !has_window(old(state)@.windows, window_id),
        r is Ok ==> has_window(old(state)@.windows, window_id) && r->Ok_0@ == seq![RuntimeEffect::PersistLayout]
            && final(state)@ == with_windows(
            minimize_spec(old(state)@, window_id),
            normalize_stack(minimize_spec(old(state)@, window_id).windows),
        ),
        r is Err ==> r == Err::<Vec<RuntimeEffect>, ReducerError>(ReducerError::WindowNotFound),
{
    let i = match find_window_index(&state.windows, window_id) {
        Some(i) => i,
        None => return Err(ReducerError::WindowNotFound),
    };
    let ghost pre = state.windows@;
    mark_minimized(&mut state.windows[i]);
    proof {
        lemma_view_update(pre, i as int, state.windows@[i as int]);
        assert(state.windows@ == pre.update(i as int, state.windows@[i as int]));
    }
    normalize_window_stack(state);
    Ok(effects1(RuntimeEffect::PersistLayout))
}

fn reduce_restore(state: &mut DesktopState, window_id: WindowId) -> (r: Result<Vec<RuntimeEffect>, ReducerError>)
    ensures
        r is Err ==> final(state)@ == old(state)@,
        r is Err ==> !has_window(old(state)@.windows, window_id),
        r is Ok ==> has_window(old(state)@.windows, window_id) && r->Ok_0@ == seq![RuntimeEffect::PersistLayout]
            && final(state)@ == restore_spec(old(state)@, window_id),
        r is Err ==> r == Err::<Vec<RuntimeEffect>, ReducerError>(ReducerError::WindowNotFound),
{
    let ghost ws = old(state)@.windows;
    let i = match find_window_index(&state.windows, window_id) {
        Some(i) => i,
        None => return Err(ReducerError::WindowNotFound),
    };
    let ghost pre = state.windows@;
    mark_restored(&mut state.windows[i]);
    proof {
        lemma_view_update(pre, i as int, state.windows@[i as int]);
        assert(state.windows@ == pre.update(i as int, state.windows@[i as int]));
        lemma_first_index_after_update(ws, window_id, i as int, restored_window(ws[i as int]));
    }
    let _ = focus_window_internal(state, window_id);
    Ok(effects1(RuntimeEffect::PersistLayout))
}


fn reduce_focus(state: &mut DesktopState, window_id: WindowId) -> (r: Result<Vec<RuntimeEffect>, ReducerError>)
    ensures
        r is Err ==> final(state)@ == old(state)@ && !has_window(old(state)@.windows, window_id) && r
            == Err::<Vec<RuntimeEffect>, ReducerError>(ReducerError::WindowNotFound),
        r is Ok ==> has_window(old(state)@.windows, window_id) && r->Ok_0@ == seq![
            RuntimeEffect::FocusWindowInput(window_id),
        ] && final(state)@ == focus_spec(old(state)@, window_id),
{
    match focus_window_internal(state, window_id) {
        Ok(()) => {},
        Err(e) => return Err(e),
    }
    state.start_menu_open = false;
    Ok(effects1(RuntimeEffect::FocusWindowInput(window_id)))
}

fn reduce_toggle_taskbar(state: &mut DesktopState, window_id: WindowId) -> (r: Result<
    Vec<RuntimeEffect>,
    ReducerError,
>)
    ensures
        match transition(old(state)@, InteractionState { dragging: None, resizing: None, desktop_selection_origin: None }, DesktopAction::ToggleTaskbarWindow { window_id }) {
            Ok((s1, _i1, e1)) => r is Ok && r->Ok_0@ == e1 && final(state)@ == with_windows(
                s1,
                normalize_stack(s1.windows),
            ),
            Err(e) => r == Err::<Vec<RuntimeEffect>, ReducerError>(e) && final(state)@ == old(state)@,
        },
{
    let ghost s0 = old(state)@;
    let focused = state.focused_window_id();
    let i = match find_window_index(&state.windows, window_id) {
        Some(i) => i,
        None => return Err(ReducerError::WindowNotFound),
    };
    assert(s0.windows[i as int] == state.windows@[i as int]@);
    let minimized = state.windows[i].minimized;
    let is_focused = match focused {
        Some(f) => f == window_id,
        None => false,
    };
    if minimized {
        let _ = reduce_restore(state, window_id);
        normalize_window_stack(state);
        Ok(effects1(RuntimeEffect::PersistLayout))
    } else if is_focused {
        let _ = reduce_minimize(state, window_id);
        proof {
            lemma_normalize_idempotent(minimize_spec(s0, window_id).windows);
        }
        normalize_window_stack(state);
        Ok(effects1(RuntimeEffect::PersistLayout))
    } else {
        let _ = reduce_focus(state, window_id);
        normalize_window_stack(state);
        Ok(Vec::new())
    }
}

fn reduce_close(state: &mut DesktopState, window_id: WindowId) -> (r: Result<Vec<RuntimeEffect>, ReducerError>)
    ensures
        match transition(old(state)@, InteractionState { dragging: None, resizing: None, desktop_selection_origin: None }, DesktopAction::CloseWindow { window_id }) {
            Ok((s1, _i1, e1)) => r is Ok && r->Ok_0@ == e1 && final(state)@ == with_windows(
                s1,
                normalize_stack(s1.windows),
            ),
            Err(e) => r == Err::<Vec<RuntimeEffect>, ReducerError>(e) && final(state)@ == old(state)@,
        },
{
    let ghost s0 = old(state)@;
    proof {
        lemma_without_window_len(s0.windows, window_id);
    }
    let before_len = state.windows.len();
    remove_windows_with_id(state, window_id);
    if state.windows.len() == before_len {
        proof {
            assert(state@.windows =~= s0.windows) by {
                assert forall|k: int| 0 <= k < s0.windows.len() implies state@.windows[k]
                    == s0.windows[k] by {
                    lemma_without_window_identity(s0.windows, window_id);
                }
            }
        }
        return Err(ReducerError::WindowNotFound);
    }
    let is_modal = match state.active_modal {
        Some(m) => m == window_id,
        None => false,
    };
    if is_modal {
        state.active_modal = None;
    }
    normalize_window_stack(state);
    Ok(effects1(RuntimeEffect::PersistLayout))
}

pub proof fn lemma_without_window_identity(ws: Seq<WindowView>, id: WindowId)
    requires
        !has_window(ws, id),
    ensures
        without_window(ws, id) == ws,
    decreases ws.len(),
{
    if ws.len() > 0 {
        assert(!has_window(ws.drop_last(), id)) by {
            if has_window(ws.drop_last(), id) {
                let k = choose|k: int| 0 <= k < ws.drop_last().len() && (#[trigger] ws.drop_last()[k]).id == id;
                assert(ws[k] == ws.drop_last()[k]);
            }
        }
        lemma_without_window_identity(ws.drop_last(), id);
        assert(ws.last() == ws[ws.len() - 1]);
        assert(ws.drop_last().push(ws.last()) =~= ws);
    }
}


fn next_window_id(state: &mut DesktopState) -> (id: WindowId)
    ensures
        id == WindowId(old(state)@.next_window_id),
        final(state)@ == (DesktopView {
            next_window_id: saturating_inc(old(state)@.next_window_id),
            ..old(state)@
        }),
{
    let id = WindowId(state.next_window_id);
    state.next_window_id = state.next_window_id.saturating_add(1);
    id
}

fn default_offset(window_id: WindowId) -> (off: i32)
    requires
        (window_id.0 as i32) != i32::MIN,
    ensures
        off == trunc_rem((window_id.0 as i32) - 1, 8) * 20,
{
    let v: i64 = (window_id.0 as i32) as i64;
    let t: i64 = v - 1;
    let rem: i64 = if t >= 0 {
        t % 8
    } else {
        -((-t) % 8)
    };
    (rem * 20) as i32
}

fn reduce_open(state: &mut DesktopState, req: OpenWindowRequest) -> (r: Result<Vec<RuntimeEffect>, ReducerError>)
    requires
        (old(state)@.next_window_id as i32) != i32::MIN,
    ensures
        r is Ok,
        r->Ok_0@ == open_effects(old(state)@, req),
        final(state)@ == open_window_spec(old(state)@, req),
{
    let ghost s0 = old(state)@;
    let audio = state.theme.audio_enabled;
    let window_id = next_window_id(state);
    let off = default_offset(window_id);
    let base = match req.rect {
        Some(rect) => rect,
        None => WindowRect {
            x: 40 + off,
            y: 48 + off,
            w: DEFAULT_WINDOW_WIDTH,
            h: DEFAULT_WINDOW_HEIGHT,
        },
    };
    let rect = base.clamped_min(MIN_WINDOW_WIDTH, MIN_WINDOW_HEIGHT);
    let app_id = req.app_id;
    let record = WindowRecord {
        id: window_id,
        app_id: app_id,
        title: match req.title {
            Some(t) => t,
            None => owned(app_id.title()),
        },
        icon_id: match req.icon_id {
            Some(t) => t,
            None => owned(app_id.icon_id()),
        },
        rect: rect,
        restore_rect: None,
        z_index: 0,
        is_focused: false,
        minimized: false,
        maximized: false,
        flags: req.flags,
        persist_key: req.persist_key,
        app_state: req.app_state,
        launch_params: req.launch_params,
    };
    assert(record@ == opened_window(req, window_id));
    let ghost pre = state.windows@;
    state.windows.push(record);
    proof {
        assert(windows_view(state.windows@) =~= windows_view(pre).push(opened_window(req, window_id)));
        let ws = windows_view(state.windows@);
        assert forall|j: int| 0 <= j < ws.len() - 1 implies (#[trigger] ws[j]).id != window_id || true by {}
        assert(ws[ws.len() - 1].id == window_id);
        assert(has_window(ws, window_id));
    }
    match focus_window_internal(state, window_id) {
        Ok(()) => {},
        Err(e) => {
            return Err(e);
        },
    }
    state.start_menu_open = false;
    let mut effects = Vec::new();
    effects.push(RuntimeEffect::PersistLayout);
    effects.push(RuntimeEffect::FocusWindowInput(window_id));
    if matches!(app_id, AppId::Dialup) && audio {
        effects.push(RuntimeEffect::PlaySound("dialup-open"));
    }
    Ok(effects)
}

fn reduce_begin_move(
    state: &mut DesktopState,
    interaction: &mut InteractionState,
    window_id: WindowId,
    pointer: PointerPosition,
) -> (r: Result<Vec<RuntimeEffect>, ReducerError>)
    ensures
        match transition(old(state)@, *old(interaction), DesktopAction::BeginMove { window_id, pointer }) {
            Ok((s1, i1, e1)) => r is Ok && r->Ok_0@ == e1 && final(state)@ == s1 && *final(interaction) == i1,
            Err(e) => r == Err::<Vec<RuntimeEffect>, ReducerError>(e) && final(state)@ == old(state)@
                && *final(interaction) == *old(interaction),
        },
{
    let ghost s0 = old(state)@;
    let i = match find_window_index(&state.windows, window_id) {
        Some(i) => i,
        None => return Err(ReducerError::WindowNotFound),
    };
    assert(s0.windows[i as int] == state.windows@[i as int]@);
    let rect_start = state.windows[i].rect;
    let _ = focus_window_internal(state, window_id);
    interaction.dragging = Some(DragSession { window_id, pointer_start: pointer, rect_start });
    Ok(Vec::new())
}

fn reduce_begin_resize(
    state: &mut DesktopState,
    interaction: &mut InteractionState,
    window_id: WindowId,
    edge: ResizeEdge,
    pointer: PointerPosition,
) -> (r: Result<Vec<RuntimeEffect>, ReducerError>)
    ensures
        match transition(old(state)@, *old(interaction), DesktopAction::BeginResize { window_id, edge, pointer }) {
            Ok((s1, i1, e1)) => r is Ok && r->Ok_0@ == e1 && final(state)@ == s1 && *final(interaction) == i1,
            Err(e) => r == Err::<Vec<RuntimeEffect>, ReducerError>(e) && final(state)@ == old(state)@
                && *final(interaction) == *old(interaction),
        },
{
    let ghost s0 = old(state)@;
    let i = match find_window_index(&state.windows, window_id) {
        Some(i) => i,
        None => return Err(ReducerError::WindowNotFound),
    };
    assert(s0.windows[i as int] == state.windows@[i as int]@);
    let rect_start = state.windows[i].rect;
    let _ = focus_window_internal(state, window_id);
    interaction.resizing = Some(ResizeSession { window_id, edge, pointer_start: pointer, rect_start });
    Ok(Vec::new())
}

fn reduce_update_move(
    state: &mut DesktopState,
    interaction: &InteractionState,
    pointer: PointerPosition,
) -> (r: Result<Vec<RuntimeEffect>, ReducerError>)
    requires
        reduce_fits(old(state)@, *interaction, DesktopAction::UpdateMove { pointer }),
    ensures
        match transition(old(state)@, *interaction, DesktopAction::UpdateMove { pointer }) {
            Ok((s1, _i1, e1)) => r is Ok && r->Ok_0@ == e1 && final(state)@ == s1,
            Err(e) => r == Err::<Vec<RuntimeEffect>, ReducerError>(e) && final(state)@ == old(state)@,
        },
{
    let ghost s0 = old(state)@;
    if let Some(session) = interaction.dragging {
        let dx = pointer.x - session.pointer_start.x;
        let dy = pointer.y - session.pointer_start.y;
        let i = match find_window_index(&state.windows, session.window_id) {
            Some(i) => i,
            None => return Err(ReducerError::WindowNotFound),
        };
        assert(s0.windows[i as int] == state.windows@[i as int]@);
        if !state.windows[i].maximized {
            let ghost pre = state.windows@;
            state.windows[i].rect = session.rect_start.offset(dx, dy);
            proof {
                lemma_view_update(pre, i as int, state.windows@[i as int]);
                assert(state.windows@ == pre.update(i as int, state.windows@[i as int]));
            }
        }
    }
    Ok(Vec::new())
}

fn reduce_update_resize(
    state: &mut DesktopState,
    interaction: &InteractionState,
    pointer: PointerPosition,
) -> (r: Result<Vec<RuntimeEffect>, ReducerError>)
    requires
        reduce_fits(old(state)@, *interaction, DesktopAction::UpdateResize { pointer }),
    ensures
        match transition(old(state)@, *interaction, DesktopAction::UpdateResize { pointer }) {
            Ok((s1, _i1, e1)) => r is Ok && r->Ok_0@ == e1 && final(state)@ == s1,
            Err(e) => r == Err::<Vec<RuntimeEffect>, ReducerError>(e) && final(state)@ == old(state)@,
        },
{
    let ghost s0 = old(state)@;
    if let Some(session) = interaction.resizing {
        let dx = pointer.x - session.pointer_start.x;
        let dy = pointer.y - session.pointer_start.y;
        let i = match find_window_index(&state.windows, session.window_id) {
            Some(i) => i,
            None => return Err(ReducerError::WindowNotFound),
        };
        assert(s0.windows[i as int] == state.windows@[i as int]@);
        if !state.windows[i].maximized && state.windows[i].flags.resizable {
            let ghost pre = state.windows@;
            state.windows[i].rect = resize_rect(session.rect_start, session.edge, dx, dy).clamped_min(
                MIN_WINDOW_WIDTH,
                MIN_WINDOW_HEIGHT,
            );
            proof {
                lemma_view_update(pre, i as int, state.windows@[i as int]);
                assert(state.windows@ == pre.update(i as int, state.windows@[i as int]));
            }
        }
    }
    Ok(Vec::new())
}

fn reduce_set_app_state(state: &mut DesktopState, window_id: WindowId, app_state: Value) -> (r: Result<
    Vec<RuntimeEffect>,
    ReducerError,
>)
    ensures
        match transition(old(state)@, InteractionState { dragging: None, resizing: None, desktop_selection_origin: None }, DesktopAction::SetAppState { window_id, app_state }) {
            Ok((s1, _i1, e1)) => r is Ok && r->Ok_0@ == e1 && final(state)@ == s1,
            Err(e) => r == Err::<Vec<RuntimeEffect>, ReducerError>(e) && final(state)@ == old(state)@,
        },
{
    let ghost s0 = old(state)@;
    let i = match find_window_index(&state.windows, window_id) {
        Some(i) => i,
        None => return Err(ReducerError::WindowNotFound),
    };
    assert(s0.windows[i as int] == state.windows@[i as int]@);
    let ghost pre = state.windows@;
    state.windows[i].app_state = app_state;
    proof {
        lemma_view_update(pre, i as int, state.windows@[i as int]);
        assert(state.windows@ == pre.update(i as int, state.windows@[i as int]));
    }
    Ok(effects1(RuntimeEffect::PersistLayout))
}

fn push_terminal_history(state: &mut DesktopState, command: String) -> (r: Vec<RuntimeEffect>)
    ensures
        match transition(old(state)@, InteractionState { dragging: None, resizing: None, desktop_selection_origin: None }, DesktopAction::PushTerminalHistory { command }) {
            Ok((s1, _i1, e1)) => r@ == e1 && final(state)@ == s1,
            Err(_) => false,
        },
{
    if state.preferences.terminal_history_enabled && !str_is_blank(command.as_str()) {
        let ghost h0 = state.terminal_history@;
        let ghost cmd = command@;
        state.terminal_history.push(command);
        let ghost h1 = state.terminal_history@;
        assert(strings_view(h1) =~= strings_view(h0).push(cmd));
        if state.terminal_history.len() > MAX_TERMINAL_HISTORY {
            let overflow = state.terminal_history.len() - MAX_TERMINAL_HISTORY;
            let mut k: usize = 0;
            while k < overflow
                invariant
                    k <= overflow,
                    overflow == h1.len() - MAX_TERMINAL_HISTORY,
                    state.terminal_history@ == h1.subrange(k as int, h1.len() as int),
                    state@ == (DesktopView { terminal_history: strings_view(state.terminal_history@), ..old(state)@ }),
                decreases overflow - k,
            {
                let ghost before = state.terminal_history@;
                let _ = state.terminal_history.remove(0);
                assert(state.terminal_history@ =~= h1.subrange(k + 1, h1.len() as int));
                k = k + 1;
            }
            assert(strings_view(state.terminal_history@) =~= push_history_spec(strings_view(h0), cmd));
        }
        effects1(RuntimeEffect::PersistTerminalHistory)
    } else {
        Vec::new()
    }
}

fn reduce_hydrate(state: &mut DesktopState, snapshot: DesktopSnapshot) -> (r: Vec<RuntimeEffect>)
    ensures
        match transition(old(state)@, InteractionState { dragging: None, resizing: None, desktop_selection_origin: None }, DesktopAction::HydrateSnapshot { snapshot }) {
            Ok((s1, _i1, e1)) => r@ == e1 && final(state)@ == with_windows(s1, normalize_stack(s1.windows)),
            Err(_) => false,
        },
{
    let max_restore = state.preferences.max_restore_windows;
    *state = DesktopState::from_snapshot(snapshot);
    if state.windows.len() > max_restore {
        let ghost pre = state.windows@;
        state.windows.truncate(max_restore);
        assert(windows_view(state.windows@) =~= windows_view(pre).subrange(0, max_restore as int));
    }
    normalize_window_stack(state);
    Vec::new()
}


#[verifier::rlimit(60)]
/// Applies a [`DesktopAction`] to the desktop state and collects the
/// resulting side effects: the authoritative transition engine of the
/// window manager. An action that names a missing window fails with
/// [`ReducerError::WindowNotFound`] and changes nothing.
pub fn reduce_desktop(
    state: &mut DesktopState,
    interaction: &mut InteractionState,
    action: DesktopAction,
) -> (r: Result<Vec<RuntimeEffect>, ReducerError>)
    requires
        reduce_fits(old(state)@, *old(interaction), action),
    ensures
        match reduce_spec(old(state)@, *old(interaction), action) {
            Ok((s1, i1, e1)) => r is Ok && r->Ok_0@ == e1 && final(state)@ == s1 && *final(interaction)
                == i1,
            Err(e) => r == Err::<Vec<RuntimeEffect>, ReducerError>(e) && final(state)@ == old(state)@
                && *final(interaction) == *old(interaction),
        },
{
    let ghost s0 = old(state)@;
    let ghost it0 = *old(interaction);
    let ghost a = action;
    let effects = match action {
        DesktopAction::OpenWindow(req) => reduce_open(state, req),
        DesktopAction::CloseWindow { window_id } => {
            let r = reduce_close(state, window_id);
            proof {
                if r is Ok {
                    lemma_normalize_idempotent(transition(s0, it0, a)->Ok_0.0.windows);
                }
            }
            r
        },
        DesktopAction::FocusWindow { window_id } => reduce_focus(state, window_id),
        DesktopAction::MinimizeWindow { window_id } => {
            let r = reduce_minimize(state, window_id);
            proof {
                lemma_normalize_idempotent(minimize_spec(s0, window_id).windows);
            }
            r
        },
        DesktopAction::MaximizeWindow { window_id, viewport } => {
            match find_window_index(&state.windows, window_id) {
                Some(i) => {
                    let ghost pre = state.windows@;
                    assert(s0.windows[i as int] == pre[i as int]@);
                    mark_maximized(&mut state.windows[i], viewport);
                    proof {
                        lemma_view_update(pre, i as int, state.windows@[i as int]);
                        assert(state.windows@ == pre.update(i as int, state.windows@[i as int]));
                        lemma_first_index_after_update(
                            s0.windows,
                            window_id,
                            i as int,
                            maximized_into(s0.windows[i as int], viewport),
                        );
                    }
                    let _ = focus_window_internal(state, window_id);
                    Ok(effects1(RuntimeEffect::PersistLayout))
                },
                None => Err(ReducerError::WindowNotFound),
            }
        },
        DesktopAction::RestoreWindow { window_id } => reduce_restore(state, window_id),
        DesktopAction::ToggleTaskbarWindow { window_id } => {
            let r = reduce_toggle_taskbar(state, window_id);
            proof {
                if r is Ok {
                    lemma_normalize_idempotent(transition(s0, it0, a)->Ok_0.0.windows);
                }
            }
            r
        },
        DesktopAction::ToggleStartMenu => {
            state.start_menu_open = !state.start_menu_open;
            Ok(Vec::new())
        },
        DesktopAction::CloseStartMenu => {
            state.start_menu_open = false;
            Ok(Vec::new())
        },
        DesktopAction::BeginMove { window_id, pointer } => reduce_begin_move(
            state,
            interaction,
            window_id,
            pointer,
        ),
        DesktopAction::UpdateMove { pointer } => reduce_update_move(state, interaction, pointer),
        DesktopAction::EndMove => {
            interaction.dragging = None;
            Ok(effects1(RuntimeEffect::PersistLayout))
        },
        DesktopAction::EndMoveWithViewport { viewport } => {
            let dragged = match interaction.dragging {
                Some(session) => Some(session.window_id),
                None => None,
            };
            interaction.dragging = None;
            if let Some(window_id) = dragged {
                snap_window_to_viewport_edge(state, window_id, viewport);
            }
            Ok(effects1(RuntimeEffect::PersistLayout))
        },
        DesktopAction::BeginResize { window_id, edge, pointer } => reduce_begin_resize(
            state,
            interaction,
            window_id,
            edge,
            pointer,
        ),
        DesktopAction::UpdateResize { pointer } => reduce_update_resize(state, interaction, pointer),
        DesktopAction::EndResize => {
            interaction.resizing = None;
            Ok(effects1(RuntimeEffect::PersistLayout))
        },
        DesktopAction::SetThemeName { theme_name } => {
            state.theme.name = theme_name;
            Ok(effects1(RuntimeEffect::PersistTheme))
        },
        DesktopAction::SetWallpaper { wallpaper_id } => {
            state.theme.wallpaper_id = wallpaper_id;
            Ok(effects1(RuntimeEffect::PersistTheme))
        },
        DesktopAction::SetReducedMotion { enabled } => {
            state.theme.reduced_motion = enabled;
            Ok(effects1(RuntimeEffect::PersistTheme))
        },
        DesktopAction::PushTerminalHistory { command } => Ok(push_terminal_history(state, command)),
        DesktopAction::SetAppState { window_id, app_state } => reduce_set_app_state(
            state,
            window_id,
            app_state,
        ),
        DesktopAction::HydrateSnapshot { snapshot } => {
            let r = reduce_hydrate(state, snapshot);
            proof {
                lemma_normalize_idempotent(transition(s0, it0, a)->Ok_0.0.windows);
            }
            Ok(r)
        },
        DesktopAction::ApplyDeepLink { deep_link } => Ok(
            effects1(RuntimeEffect::ParseAndOpenDeepLink(deep_link)),
        ),
    };
    match effects {
        Ok(effects) => {
            normalize_window_stack(state);
            Ok(effects)
        },
        Err(e) => Err(e),
    }
}

// ---------------------------------------------------------------------
// Deep links
// ---------------------------------------------------------------------

/// A note deep link opens Notepad titled `Note - <slug>`, persisted under
/// `notes:<slug>`, with the slug as launch parameter.
pub open spec fn note_request(r: OpenWindowRequest, slug: Seq<char>) -> bool {
    &&& r.app_id == AppId::Notepad
    &&& r.title matches Some(t) && t@ == "Note - "@ + slug
    &&& r.persist_key matches Some(k) && k@ == "notes:"@ + slug
    &&& r.launch_params == json_string_member("slug"@, slug)
}

/// A project deep link opens Explorer titled `Project - <slug>`, persisted
/// under `projects:<slug>`, with the slug as launch parameter.
pub open spec fn project_request(r: OpenWindowRequest, slug: Seq<char>) -> bool {
    &&& r.app_id == AppId::Explorer
    &&& r.title matches Some(t) && t@ == "Project - "@ + slug
    &&& r.persist_key matches Some(k) && k@ == "projects:"@ + slug
    &&& r.launch_params == json_string_member("project_slug"@, slug)
}

/// Converts a parsed deep-link target into an open request.
pub fn build_open_request_from_deeplink(target: DeepLinkOpenTarget) -> (r: OpenWindowRequest)
    ensures
        r.icon_id.is_none(),
        r.rect.is_none(),
        r.flags == (WindowFlags {
            resizable: true,
            minimizable: true,
            maximizable: true,
            modal_parent: None,
        }),
        match target {
            DeepLinkOpenTarget::App(app_id) => r.app_id == app_id && r.title.is_none()
                && r.persist_key.is_none(),
            DeepLinkOpenTarget::NotesSlug(slug) => note_request(r, slug@),
            DeepLinkOpenTarget::ProjectSlug(slug) => project_request(r, slug@),
        },
{
    match target {
        DeepLinkOpenTarget::App(app_id) => OpenWindowRequest::new(app_id),
        DeepLinkOpenTarget::NotesSlug(slug) => {
            let mut req = OpenWindowRequest::new(AppId::Notepad);
            req.title = Some(String::from_str("Note - ").concat(slug.as_str()));
            req.persist_key = Some(String::from_str("notes:").concat(slug.as_str()));
            req.launch_params = json_object_with_string("slug", slug);
            req
        },
        DeepLinkOpenTarget::ProjectSlug(slug) => {
            let mut req = OpenWindowRequest::new(AppId::Explorer);
            req.title = Some(String::from_str("Project - ").concat(slug.as_str()));
            req.persist_key = Some(String::from_str("projects:").concat(slug.as_str()));
            req.launch_params = json_object_with_string("project_slug", slug);
            req
        },
    }
}

} // verus!
