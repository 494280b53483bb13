//! Taskbar and desktop-chrome decisions: layout of running-window
//! buttons, pinned-app status, window cycling, popup placement, clock
//! text, CSS classes and labels, and the wallpaper preset catalog.

use vstd::prelude::*;
use vstd::string::*;
use crate::icons::IconName;
use crate::model::{
    app_title_view, AppId, DesktopState, DesktopView, InteractionState, ResizeEdge, WindowId,
    WindowRecord, WindowRect, WindowView, windows_view,
};
use crate::reducer::{find_window_index, has_window, window_index, DesktopAction};
use crate::strings::{decimal, decimal_string, push_decimal, push_zero_padded, str_eq, zero_padded};

verus! {

/// Height of the taskbar in pixels.
pub const TASKBAR_HEIGHT_PX: i32 = 38;

// ---------------------------------------------------------------------
// Running-window layout
// ---------------------------------------------------------------------

/// How the running-window buttons fit on the taskbar.
#[derive(Debug, Clone, Copy, PartialEq, Eq, Structural)]
pub struct TaskbarLayoutPlan {
    pub compact_running_items: bool,
    pub visible_running_count: usize,
}

/// Width the taskbar keeps for everything but running-window buttons.
pub open spec fn reserved_width(pinned_count: int, tray_widget_count: int, clock_show_date: bool) -> int {
    96 + pinned_count * 42 + (28 + (if tray_widget_count < 4 {
        tray_widget_count
    } else {
        4
    }) * 56) + (if clock_show_date {
        136int
    } else {
        88int
    }) + 48
}

/// Width left for running-window buttons (the viewport counts as at least
/// 320 pixels).
pub open spec fn available_width(viewport_width: int, reserved: int) -> int {
    let w = if viewport_width < 320 {
        320int
    } else {
        viewport_width
    };
    if w - reserved < 0 {
        0int
    } else {
        w - reserved
    }
}

/// Full 148-pixel buttons when they all fit; otherwise compact 44-pixel
/// buttons, as many as fit (at least one when 32 pixels are left), never
/// more than there are windows.
pub open spec fn taskbar_layout(
    viewport_width: int,
    pinned_count: int,
    running_count: int,
    tray_widget_count: int,
    clock_show_date: bool,
) -> (bool, int) {
    if running_count == 0 {
        (false, 0)
    } else {
        let available = available_width(
            viewport_width,
            reserved_width(pinned_count, tray_widget_count, clock_show_date),
        );
        if available / 148 >= running_count {
            (false, running_count)
        } else {
            let c = available / 44;
            let c2 = if c == 0 && available >= 32 {
                1int
            } else {
                c
            };
            (true, if c2 < running_count {
                c2
            } else {
                running_count
            })
        }
    }
}

/// Plans the running-window buttons for a viewport width.
pub fn compute_taskbar_layout(
    viewport_width: i32,
    pinned_count: usize,
    running_count: usize,
    tray_widget_count: usize,
    clock_show_date: bool,
) -> (r: TaskbarLayoutPlan)
    requires
        running_count > 0 ==> reserved_width(pinned_count as int, tray_widget_count as int, clock_show_date)
            <= i32::MAX,
    ensures
        (r.compact_running_items, r.visible_running_count as int) == taskbar_layout(
            viewport_width as int,
            pinned_count as int,
            running_count as int,
            tray_widget_count as int,
            clock_show_date,
        ),
{
    if running_count == 0 {
        return TaskbarLayoutPlan { compact_running_items: false, visible_running_count: 0 };
    }
    let viewport_width: i32 = if viewport_width < 320 {
        320
    } else {
        viewport_width
    };
    let pinned_width: i32 = (pinned_count as i32) * 42;
    let tray: i32 = if tray_widget_count < 4 {
        tray_widget_count as i32
    } else {
        4
    };
    let tray_width: i32 = 28 + tray * 56;
    let clock_width: i32 = if clock_show_date {
        136
    } else {
        88
    };
    let reserved: i32 = 96 + pinned_width + tray_width + clock_width + 48;
    let available: i32 = if viewport_width - reserved < 0 {
        0
    } else {
        viewport_width - reserved
    };
    let full_visible = (available / 148) as usize;
    if full_visible >= running_count {
        return TaskbarLayoutPlan { compact_running_items: false, visible_running_count: running_count };
    }
    let mut compact_visible = (available / 44) as usize;
    if compact_visible == 0 && available >= 32 {
        compact_visible = 1;
    }
    TaskbarLayoutPlan {
        compact_running_items: true,
        visible_running_count: if compact_visible < running_count {
            compact_visible
        } else {
            running_count
        },
    }
}

// ---------------------------------------------------------------------
// Pinned apps
// ---------------------------------------------------------------------

/// Apps pinned to the taskbar, in display order.
pub open spec fn pinned_apps_spec() -> Seq<AppId> {
    seq![AppId::Explorer, AppId::Terminal, AppId::Notepad, AppId::Calculator]
}

pub fn pinned_taskbar_apps() -> (r: Vec<AppId>)
    ensures
        r@ == pinned_apps_spec(),
{
    let mut v: Vec<AppId> = Vec::new();
    v.push(AppId::Explorer);
    v.push(AppId::Terminal);
    v.push(AppId::Notepad);
    v.push(AppId::Calculator);
    assert(v@ =~= pinned_apps_spec());
    v
}

/// Taskbar status of a pinned app.
#[derive(Debug, Clone, Copy, PartialEq, Eq, Structural)]
pub struct PinnedTaskbarAppState {
    pub running_count: usize,
    pub focused: bool,
    pub all_minimized: bool,
}

/// Number of windows of `app` in `ws`.
pub open spec fn app_window_count(ws: Seq<WindowView>, app: AppId) -> nat
    decreases ws.len(),
{
    if ws.len() == 0 {
        0
    } else {
        app_window_count(ws.drop_last(), app) + if ws.last().app_id == app {
            1nat
        } else {
            0nat
        }
    }
}

/// A pinned app counts its windows, is focused when one of them is
/// focused and shown, and is minimized when it has windows and all are
/// minimized.
pub open spec fn pinned_status(ws: Seq<WindowView>, app: AppId) -> (nat, bool, bool) {
    (
        app_window_count(ws, app),
        exists|i: int|
            0 <= i < ws.len() && (#[trigger] ws[i]).app_id == app && ws[i].is_focused && !ws[i].minimized,
        app_window_count(ws, app) > 0 && forall|i: int|
            0 <= i < ws.len() && (#[trigger] ws[i]).app_id == app ==> ws[i].minimized,
    )
}

/// The taskbar status of `app_id`.
pub fn pinned_taskbar_app_state(state: &DesktopState, app_id: AppId) -> (r: PinnedTaskbarAppState)
    ensures
        (r.running_count as nat, r.focused, r.all_minimized) == pinned_status(state@.windows, app_id),
{
    let ghost ws = state@.windows;
    let n = state.windows.len();
    let mut count: usize = 0;
    let mut focused = false;
    let mut all_min = true;
    let mut i: usize = 0;
    assert(ws.take(0) =~= Seq::<WindowView>::empty());
    while i < n
        invariant
            ws == state@.windows,
            n == ws.len(),
            i <= n,
            count <= i,
            count == app_window_count(ws.take(i as int), app_id),
            focused == exists|k: int|
                0 <= k < i && (#[trigger] ws[k]).app_id == app_id && ws[k].is_focused && !ws[k].minimized,
            all_min == forall|k: int| 0 <= k < i && (#[trigger] ws[k]).app_id == app_id ==> ws[k].minimized,
        decreases n - i,
    {
        let w = &state.windows[i];
        assert(ws[i as int] == w@);
        assert(ws.take(i + 1).drop_last() =~= ws.take(i as int));
        if w.app_id == app_id {
            count = count + 1;
            if w.is_focused && !w.minimized {
                focused = true;
            }
            if !w.minimized {
                all_min = false;
            }
        }
        i = i + 1;
    }
    assert(ws.take(n as int) =~= ws);
    PinnedTaskbarAppState { running_count: count, focused, all_minimized: count > 0 && all_min }
}

/// Whether window `w` belongs to `app` and meets requirement `level`:
/// 0 any, 1 shown, 2 shown and focused.
pub open spec fn meets(w: WindowView, app: AppId, level: int) -> bool {
    w.app_id == app && (level >= 1 ==> !w.minimized) && (level >= 2 ==> w.is_focused)
}

pub open spec fn has_level(ws: Seq<WindowView>, app: AppId, level: int) -> bool {
    exists|i: int| 0 <= i < ws.len() && #[trigger] meets(ws[i], app, level)
}

/// The last position whose window meets `level` for `app`.
pub open spec fn last_index_where(ws: Seq<WindowView>, app: AppId, level: int) -> int {
    choose|i: int| 0 <= i < ws.len() && meets(ws[i], app, level) && forall|j: int|
        i < j < ws.len() ==> !meets(#[trigger] ws[j], app, level)
}

/// The window a pinned app activates: its topmost focused shown window,
/// else its topmost shown one, else its topmost one.
pub open spec fn preferred_window(ws: Seq<WindowView>, app: AppId) -> Option<WindowId> {
    if has_level(ws, app, 2) {
        Some(ws[last_index_where(ws, app, 2)].id)
    } else if has_level(ws, app, 1) {
        Some(ws[last_index_where(ws, app, 1)].id)
    } else if has_level(ws, app, 0) {
        Some(ws[last_index_where(ws, app, 0)].id)
    } else {
        None
    }
}

fn find_last(ws: &Vec<WindowRecord>, app: AppId, level: u8) -> (r: Option<usize>)
    requires
        level <= 2,
    ensures
        match r {
            Some(i) => i < ws@.len() && has_level(windows_view(ws@), app, level as int) && i as int
                == last_index_where(windows_view(ws@), app, level as int),
            None => !has_level(windows_view(ws@), app, level as int),
        },
{
    let ghost v = windows_view(ws@);
    let mut i: usize = ws.len();
    while i > 0
        invariant
            v == windows_view(ws@),
            i <= ws@.len(),
            level <= 2,
            forall|j: int| i <= j < ws@.len() ==> !meets(#[trigger] v[j], app, level as int),
        decreases i,
    {
        i = i - 1;
        let w = &ws[i];
        assert(v[i as int] == w@);
        let ok = w.app_id == app && (level < 1 || !w.minimized) && (level < 2 || w.is_focused);
        if ok {
            proof {
                assert(meets(v[i as int], app, level as int));
                let k = last_index_where(v, app, level as int);
                assert(k == i as int) by {
                    if k < i {
                        assert(!meets(v[i as int], app, level as int));
                    } else if k > i {
                        assert(!meets(v[k], app, level as int));
                    }
                }
            }
            return Some(i);
        }
    }
    None
}

/// The window a pinned app activates, if it has any.
pub fn preferred_window_for_app(state: &DesktopState, app_id: AppId) -> (r: Option<WindowId>)
    ensures
        r == preferred_window(state@.windows, app_id),
{
    let found = match find_last(&state.windows, app_id, 2) {
        Some(i) => Some(i),
        None => match find_last(&state.windows, app_id, 1) {
            Some(i) => Some(i),
            None => find_last(&state.windows, app_id, 0),
        },
    };
    match found {
        Some(i) => {
            assert(state@.windows[i as int] == state.windows@[i as int]@);
            Some(state.windows[i].id)
        },
        None => None,
    }
}

// ---------------------------------------------------------------------
// Keyboard cycling through running windows
// ---------------------------------------------------------------------

/// The window `delta` steps away, cyclically, from the selected window
/// (or, when none is selected or found, from the first focused shown
/// window, or the first window).
pub open spec fn cycle_target(ws: Seq<WindowView>, selected: Option<WindowId>, delta: int) -> Option<WindowId> {
    if ws.len() == 0 {
        None
    } else {
        Some(ws[(cycle_start(ws, selected) + delta) % (ws.len() as int)].id)
    }
}

/// Where cycling starts: the selected window when it is among `ws`,
/// otherwise the first focused shown window, or the first window.
pub open spec fn cycle_start(ws: Seq<WindowView>, selected: Option<WindowId>) -> int {
    match selected {
        Some(id) => if exists|i: int| 0 <= i < ws.len() && (#[trigger] ws[i]).id == id {
            first_index_with(ws, with_id(id))
        } else {
            first_focused_shown(ws)
        },
        None => first_focused_shown(ws),
    }
}

pub open spec fn with_id(id: WindowId) -> spec_fn(WindowView) -> bool {
    |w: WindowView| w.id == id
}

pub open spec fn focused_and_shown() -> spec_fn(WindowView) -> bool {
    |w: WindowView| w.is_focused && !w.minimized
}

/// The first position whose window satisfies `p`.
pub open spec fn first_index_with(ws: Seq<WindowView>, p: spec_fn(WindowView) -> bool) -> int {
    choose|i: int| 0 <= i < ws.len() && p(ws[i]) && forall|j: int| 0 <= j < i ==> !p(#[trigger] ws[j])
}

/// The first focused shown window, or position 0 when there is none.
pub open spec fn first_focused_shown(ws: Seq<WindowView>) -> int {
    if exists|i: int| 0 <= i < ws.len() && (#[trigger] ws[i]).is_focused && !ws[i].minimized {
        first_index_with(ws, focused_and_shown())
    } else {
        0
    }
}

proof fn lemma_first_index_exists(ws: Seq<WindowView>, p: spec_fn(WindowView) -> bool, i: int)
    requires
        0 <= i < ws.len(),
        p(ws[i]),
    ensures
        0 <= first_index_with(ws, p) < ws.len(),
    decreases i,
{
    if exists|j: int| 0 <= j < i && p(#[trigger] ws[j]) {
        let j = choose|j: int| 0 <= j < i && p(#[trigger] ws[j]);
        lemma_first_index_exists(ws, p, j);
    } else {
        assert(0 <= i < ws.len() && p(ws[i]) && forall|j: int| 0 <= j < i ==> !p(#[trigger] ws[j]));
    }
}

/// Cycling starts at a position of `ws`.
proof fn lemma_cycle_start_in_range(ws: Seq<WindowView>, selected: Option<WindowId>)
    requires
        ws.len() > 0,
    ensures
        0 <= cycle_start(ws, selected) < ws.len(),
{
    if exists|i: int| 0 <= i < ws.len() && (#[trigger] ws[i]).is_focused && !ws[i].minimized {
        let i = choose|i: int| 0 <= i < ws.len() && (#[trigger] ws[i]).is_focused && !ws[i].minimized;
        lemma_first_index_exists(ws, focused_and_shown(), i);
    }
    match selected {
        Some(id) => {
            if exists|i: int| 0 <= i < ws.len() && (#[trigger] ws[i]).id == id {
                let i = choose|i: int| 0 <= i < ws.len() && (#[trigger] ws[i]).id == id;
                lemma_first_index_exists(ws, with_id(id), i);
            }
        },
        None => {},
    }
}

fn position_where(ws: &Vec<WindowRecord>, id: Option<WindowId>) -> (r: Option<usize>)
    ensures
        match r {
            Some(i) => i < ws@.len() && match id {
                Some(id) => i as int == first_index_with(windows_view(ws@), with_id(id)) && with_id(id)(
                    windows_view(ws@)[i as int],
                ),
                None => i as int == first_index_with(windows_view(ws@), focused_and_shown())
                    && focused_and_shown()(windows_view(ws@)[i as int]),
            },
            None => match id {
                Some(id) => forall|j: int| 0 <= j < ws@.len() ==> (#[trigger] windows_view(ws@)[j]).id != id,
                None => forall|j: int| 0 <= j < ws@.len() ==> !((#[trigger] windows_view(ws@)[j]).is_focused && !windows_view(ws@)[j].minimized),
            },
        },
{
    let ghost v = windows_view(ws@);
    let ghost p = match id {
        Some(id) => with_id(id),
        None => focused_and_shown(),
    };
    let n = ws.len();
    let mut i: usize = 0;
    while i < n
        invariant
            v == windows_view(ws@),
            n == v.len(),
            i <= n,
            p == (match id {
                Some(id) => with_id(id),
                None => focused_and_shown(),
            }),
            forall|j: int| 0 <= j < i ==> !p(#[trigger] v[j]),
        decreases n - i,
    {
        let w = &ws[i];
        assert(v[i as int] == w@);
        let hit = match id {
            Some(id) => w.id == id,
            None => w.is_focused && !w.minimized,
        };
        if hit {
            proof {
                assert(p(v[i as int]));
                let k = first_index_with(v, p);
                assert(k == i as int) by {
                    if k < i {
                        assert(!p(v[k]));
                    } else if k > i {
                        assert(!p(v[i as int]));
                    }
                }
            }
            return Some(i);
        }
        i = i + 1;
    }
    proof {
        assert forall|j: int| 0 <= j < n implies !p(#[trigger] v[j]) by {}
    }
    None
}

/// Steps the keyboard selection through the running windows.
pub fn cycle_selected_running_window(
    running_windows: &Vec<WindowRecord>,
    selected: Option<WindowId>,
    delta: i32,
) -> (r: Option<WindowId>)
    requires
        running_windows@.len() <= i32::MAX,
        running_windows@.len() > 0 ==> cycle_start(windows_view(running_windows@), selected) + delta
            <= i32::MAX,
    ensures
        r == cycle_target(windows_view(running_windows@), selected, delta as int),
{
    let ghost ws = windows_view(running_windows@);
    let n = running_windows.len();
    if n == 0 {
        return None;
    }
    let by_id = match selected {
        Some(id) => position_where(running_windows, Some(id)),
        None => None,
    };
    let current: usize = match by_id {
        Some(i) => i,
        None => match position_where(running_windows, None) {
            Some(i) => i,
            None => 0,
        },
    };
    proof {
        let start = match selected {
            Some(id) => if exists|i: int| 0 <= i < ws.len() && (#[trigger] ws[i]).id == id {
                first_index_with(ws, with_id(id))
            } else {
                first_focused_shown(ws)
            },
            None => first_focused_shown(ws),
        };
        match selected {
            Some(id) => {
                if by_id is Some {
                    assert(with_id(id)(ws[current as int]));
                } else {
                    assert(!exists|i: int| 0 <= i < ws.len() && (#[trigger] ws[i]).id == id);
                }
            },
            None => {},
        }
        if by_id is None {
            if exists|i: int| 0 <= i < ws.len() && (#[trigger] ws[i]).is_focused && !ws[i].minimized {
                let i = choose|i: int| 0 <= i < ws.len() && (#[trigger] ws[i]).is_focused && !ws[i].minimized;
                assert(focused_and_shown()(ws[i]));
            }
        }
        assert(current as int == start);
    }
    let raw: i64 = current as i64 + delta as i64;
    assert((n as int) * 2147483648 <= 2147483647 * 2147483648) by (nonlinear_arith)
        requires
            n <= 2147483647,
    ;
    let shifted: u64 = (raw + (n as i64) * 2147483648) as u64;
    let next: u64 = shifted % (n as u64);
    proof {
        vstd::arithmetic::div_mod::lemma_mod_multiples_vanish(2147483648, raw as int, n as int);
        assert((n as int) * 2147483648 + raw as int == shifted as int);
    }
    assert(running_windows@[next as int]@ == ws[next as int]);
    Some(running_windows[next as usize].id)
}

// ---------------------------------------------------------------------
// Button classes and labels
// ---------------------------------------------------------------------

pub open spec fn flag_class(on: bool, name: Seq<char>) -> Seq<char> {
    if on {
        name
    } else {
        Seq::empty()
    }
}

/// CSS classes of a running-window button.
pub open spec fn window_button_class(focused: bool, minimized: bool, compact: bool, keyboard_selected: bool) -> Seq<char> {
    "taskbar-app"@ + flag_class(focused, " focused"@) + (if minimized {
        " minimized"@
    } else {
        " active"@
    }) + flag_class(compact, " compact"@) + flag_class(keyboard_selected, " keyboard-selected"@)
}

fn append_if(s: &mut String, on: bool, text: &str)
    ensures
        final(s)@ == old(s)@ + flag_class(on, text@),
{
    if on {
        s.append(text);
    } else {
        assert(old(s)@ + flag_class(on, text@) =~= old(s)@);
    }
}

pub fn taskbar_window_button_class(focused: bool, minimized: bool, compact: bool, keyboard_selected: bool) -> (r: String)
    ensures
        r@ == window_button_class(focused, minimized, compact, keyboard_selected),
{
    let mut s = String::from_str("taskbar-app");
    append_if(&mut s, focused, " focused");
    if minimized {
        s.append(" minimized");
    } else {
        s.append(" active");
    }
    append_if(&mut s, compact, " compact");
    append_if(&mut s, keyboard_selected, " keyboard-selected");
    s
}

/// CSS classes of a pinned-app button.
pub open spec fn pinned_button_class(st: PinnedTaskbarAppState) -> Seq<char> {
    "taskbar-app taskbar-pinned"@ + flag_class(st.running_count > 0, " active"@) + flag_class(
        st.focused,
        " focused"@,
    ) + flag_class(st.all_minimized, " minimized"@)
}

pub fn taskbar_pinned_button_class(status: PinnedTaskbarAppState) -> (r: String)
    ensures
        r@ == pinned_button_class(status),
{
    let mut s = String::from_str("taskbar-app taskbar-pinned");
    append_if(&mut s, status.running_count > 0, " active");
    append_if(&mut s, status.focused, " focused");
    append_if(&mut s, status.all_minimized, " minimized");
    s
}

/// Accessible label of a running-window button: the title, then its
/// state words, separated by commas.
pub open spec fn window_aria_label(w: WindowView) -> Seq<char> {
    w.title + flag_class(w.is_focused && !w.minimized, ", focused"@) + flag_class(
        w.minimized,
        ", minimized"@,
    ) + flag_class(w.maximized, ", maximized"@)
}

pub fn taskbar_window_aria_label(win: &WindowRecord) -> (r: String)
    ensures
        r@ == window_aria_label(win@),
{
    let mut s = win.title.clone();
    append_if(&mut s, win.is_focused && !win.minimized, ", focused");
    append_if(&mut s, win.minimized, ", minimized");
    append_if(&mut s, win.maximized, ", maximized");
    s
}

/// Accessible label of a pinned-app button.
pub open spec fn pinned_aria_label(app: AppId, count: nat) -> Seq<char> {
    if count == 0 {
        "Pinned "@ + app_title_view(app) + " (not running)"@
    } else if count == 1 {
        "Pinned "@ + app_title_view(app) + " (1 window running)"@
    } else {
        "Pinned "@ + app_title_view(app) + " ("@ + decimal(count) + " windows running)"@
    }
}

pub fn taskbar_pinned_aria_label(app_id: AppId, status: PinnedTaskbarAppState) -> (r: String)
    ensures
        r@ == pinned_aria_label(app_id, status.running_count as nat),
{
    let s = String::from_str("Pinned ").concat(app_id.title());
    if status.running_count == 0 {
        s.concat(" (not running)")
    } else if status.running_count == 1 {
        s.concat(" (1 window running)")
    } else {
        let mut t = s.concat(" (");
        push_decimal(&mut t, status.running_count as u64);
        t.concat(" windows running)")
    }
}

/// DOM id of a running-window button.
pub fn taskbar_window_button_dom_id(window_id: WindowId) -> (r: String)
    ensures
        r@ == "taskbar-window-button-"@ + decimal(window_id.0 as nat),
{
    let mut s = String::from_str("taskbar-window-button-");
    push_decimal(&mut s, window_id.0);
    s
}

/// CSS class of a window resize handle.
pub open spec fn edge_class(e: ResizeEdge) -> Seq<char> {
    match e {
        ResizeEdge::North => "edge-n"@,
        ResizeEdge::South => "edge-s"@,
        ResizeEdge::East => "edge-e"@,
        ResizeEdge::West => "edge-w"@,
        ResizeEdge::NorthEast => "edge-ne"@,
        ResizeEdge::NorthWest => "edge-nw"@,
        ResizeEdge::SouthEast => "edge-se"@,
        ResizeEdge::SouthWest => "edge-sw"@,
    }
}

pub fn resize_edge_class(edge: ResizeEdge) -> (r: &'static str)
    ensures
        r@ == edge_class(edge),
{
    match edge {
        ResizeEdge::North => "edge-n",
        ResizeEdge::South => "edge-s",
        ResizeEdge::East => "edge-e",
        ResizeEdge::West => "edge-w",
        ResizeEdge::NorthEast => "edge-ne",
        ResizeEdge::NorthWest => "edge-nw",
        ResizeEdge::SouthEast => "edge-se",
        ResizeEdge::SouthWest => "edge-sw",
    }
}

// ---------------------------------------------------------------------
// Popup placement
// ---------------------------------------------------------------------

pub open spec fn clamp_spec(v: int, lo: int, hi: int) -> int {
    if v < lo {
        lo
    } else if v > hi {
        hi
    } else {
        v
    }
}

/// A popup of the given size placed at the pointer, kept 6 pixels inside
/// the usable area whose bottom edge is `bottom`.
pub open spec fn popup_position(vp_w: int, bottom: int, x: int, y: int, w: int, h: int) -> (int, int) {
    let max_x = if vp_w - w - 6 < 6 {
        6
    } else {
        vp_w - w - 6
    };
    let max_y = if bottom - h - 6 < 6 {
        6
    } else {
        bottom - h - 6
    };
    (clamp_spec(x, 6, max_x), clamp_spec(y, 6, max_y))
}

fn clamp_i32(v: i32, lo: i32, hi: i32) -> (r: i32)
    requires
        lo <= hi,
    ensures
        r == clamp_spec(v as int, lo as int, hi as int),
{
    if v < lo {
        lo
    } else if v > hi {
        hi
    } else {
        v
    }
}

pub open spec fn popup_fits(vp: WindowRect, w: i32, h: i32, extra: int) -> bool {
    -1000000000 <= vp.w <= 1000000000 && -1000000000 <= vp.h <= 1000000000 && -1000000000 <= w
        <= 1000000000 && -1000000000 <= h <= 1000000000 && -100 <= extra <= 100
}

/// Places a desktop context menu inside the desktop viewport.
pub fn clamp_desktop_popup_position(viewport: WindowRect, x: i32, y: i32, popup_w: i32, popup_h: i32) -> (r: (
    i32,
    i32,
))
    requires
        popup_fits(viewport, popup_w, popup_h, 0),
    ensures
        (r.0 as int, r.1 as int) == popup_position(viewport.w as int, viewport.h as int, x as int, y as int, popup_w as int, popup_h as int),
{
    let max_x: i32 = if viewport.w - popup_w - 6 < 6 {
        6
    } else {
        viewport.w - popup_w - 6
    };
    let max_y: i32 = if viewport.h - popup_h - 6 < 6 {
        6
    } else {
        viewport.h - popup_h - 6
    };
    (clamp_i32(x, 6, max_x), clamp_i32(y, 6, max_y))
}

/// Places a taskbar context menu; it may overlap the taskbar itself.
pub fn clamp_taskbar_popup_position(viewport: WindowRect, x: i32, y: i32, popup_w: i32, popup_h: i32) -> (r: (
    i32,
    i32,
))
    requires
        popup_fits(viewport, popup_w, popup_h, 0),
    ensures
        (r.0 as int, r.1 as int) == popup_position(
            viewport.w as int,
            viewport.h + TASKBAR_HEIGHT_PX,
            x as int,
            y as int,
            popup_w as int,
            popup_h as int,
        ),
{
    let max_x: i32 = if viewport.w - popup_w - 6 < 6 {
        6
    } else {
        viewport.w - popup_w - 6
    };
    let max_y: i32 = if viewport.h + TASKBAR_HEIGHT_PX - popup_h - 6 < 6 {
        6
    } else {
        viewport.h + TASKBAR_HEIGHT_PX - popup_h - 6
    };
    (clamp_i32(x, 6, max_x), clamp_i32(y, 6, max_y))
}

// ---------------------------------------------------------------------
// Clock
// ---------------------------------------------------------------------

/// How the taskbar clock is shown.
#[derive(Debug, Clone, Copy, PartialEq, Eq, Structural)]
pub struct TaskbarClockConfig {
    pub use_24_hour: bool,
    pub show_date: bool,
}

impl Default for TaskbarClockConfig {
    fn default() -> (r: Self)
        ensures
            !r.use_24_hour,
            r.show_date,
    {
        TaskbarClockConfig { use_24_hour: false, show_date: true }
    }
}

/// A wall-clock reading.
#[derive(Debug, Clone, Copy, PartialEq, Eq, Structural)]
pub struct TaskbarClockSnapshot {
    pub year: u32,
    pub month: u32,
    pub day: u32,
    pub hour: u32,
    pub minute: u32,
    pub second: u32,
}

/// `HH:MM:SS` on a 24-hour clock, or `hh:MM:SS AM|PM` on a 12-hour clock
/// where hour 0 reads 12.
pub open spec fn clock_time_text(t: TaskbarClockSnapshot, c: TaskbarClockConfig) -> Seq<char> {
    if c.use_24_hour {
        zero_padded(t.hour as nat, 2) + ":"@ + zero_padded(t.minute as nat, 2) + ":"@ + zero_padded(
            t.second as nat,
            2,
        )
    } else {
        let h = if t.hour % 12 == 0 {
            12
        } else {
            t.hour % 12
        };
        zero_padded(h as nat, 2) + ":"@ + zero_padded(t.minute as nat, 2) + ":"@ + zero_padded(
            t.second as nat,
            2,
        ) + (if t.hour >= 12 {
            " PM"@
        } else {
            " AM"@
        })
    }
}

/// `YYYY-MM-DD`.
pub open spec fn clock_date_text(t: TaskbarClockSnapshot) -> Seq<char> {
    zero_padded(t.year as nat, 4) + "-"@ + zero_padded(t.month as nat, 2) + "-"@ + zero_padded(t.day as nat, 2)
}

pub fn format_taskbar_clock_time(snapshot: TaskbarClockSnapshot, config: TaskbarClockConfig) -> (r: String)
    ensures
        r@ == clock_time_text(snapshot, config),
{
    let mut s = String::new();
    let hour: u32 = if config.use_24_hour {
        snapshot.hour
    } else if snapshot.hour % 12 == 0 {
        12
    } else {
        snapshot.hour % 12
    };
    push_zero_padded(&mut s, hour as u64, 2);
    s.append(":");
    push_zero_padded(&mut s, snapshot.minute as u64, 2);
    s.append(":");
    push_zero_padded(&mut s, snapshot.second as u64, 2);
    if !config.use_24_hour {
        if snapshot.hour >= 12 {
            s.append(" PM");
        } else {
            s.append(" AM");
        }
    }
    proof {
        assert(s@ =~= clock_time_text(snapshot, config));
    }
    s
}

pub fn format_taskbar_clock_date(snapshot: TaskbarClockSnapshot) -> (r: String)
    ensures
        r@ == clock_date_text(snapshot),
{
    let mut s = String::new();
    push_zero_padded(&mut s, snapshot.year as u64, 4);
    s.append("-");
    push_zero_padded(&mut s, snapshot.month as u64, 2);
    s.append("-");
    push_zero_padded(&mut s, snapshot.day as u64, 2);
    assert(s@ =~= clock_date_text(snapshot));
    s
}

/// Accessible clock text: the date first when it is shown.
pub fn format_taskbar_clock_aria(snapshot: TaskbarClockSnapshot, config: TaskbarClockConfig) -> (r: String)
    ensures
        r@ == (if config.show_date {
            clock_date_text(snapshot) + ", "@ + clock_time_text(snapshot, config)
        } else {
            clock_time_text(snapshot, config)
        }),
{
    let time_text = format_taskbar_clock_time(snapshot, config);
    if config.show_date {
        format_taskbar_clock_date(snapshot).concat(", ").concat(time_text.as_str())
    } else {
        time_text
    }
}

// ---------------------------------------------------------------------
// Window activation from the taskbar
// ---------------------------------------------------------------------

pub open spec fn activation_action(w: WindowView, window_id: WindowId) -> Option<DesktopAction> {
    if w.minimized {
        Some(DesktopAction::RestoreWindow { window_id })
    } else if !w.is_focused {
        Some(DesktopAction::FocusWindow { window_id })
    } else {
        None
    }
}

/// What activating a window's taskbar entry asks of the reducer: restore
/// it when minimized, focus it when shown but unfocused, nothing
/// otherwise (or when it is gone).
pub fn focus_or_unminimize_action(state: &DesktopState, window_id: WindowId) -> (r: Option<DesktopAction>)
    ensures
        !has_window(state@.windows, window_id) ==> r is None,
        has_window(state@.windows, window_id) ==> r == activation_action(
            state@.windows[window_index(state@.windows, window_id)],
            window_id,
        ),
{
    match find_window_index(&state.windows, window_id) {
        Some(i) => {
            assert(state@.windows[i as int] == state.windows@[i as int]@);
            let w = &state.windows[i];
            if w.minimized {
                Some(DesktopAction::RestoreWindow { window_id })
            } else if !w.is_focused {
                Some(DesktopAction::FocusWindow { window_id })
            } else {
                None
            }
        },
        None => None,
    }
}

/// The actions that end a pointer drag or resize when the pointer is
/// released outside a window: a drag ends with edge snapping against the
/// viewport, a resize simply ends.
pub fn end_active_pointer_interaction(interaction: &InteractionState, viewport: WindowRect) -> (r: Vec<DesktopAction>)
    ensures
        r@ == (if interaction.dragging is Some {
            seq![DesktopAction::EndMoveWithViewport { viewport }]
        } else {
            Seq::empty()
        }) + (if interaction.resizing is Some {
            seq![DesktopAction::EndResize]
        } else {
            Seq::empty()
        }),
{
    let mut v: Vec<DesktopAction> = Vec::new();
    if interaction.dragging.is_some() {
        v.push(DesktopAction::EndMoveWithViewport { viewport });
    }
    if interaction.resizing.is_some() {
        v.push(DesktopAction::EndResize);
    }
    assert(v@ =~= (if interaction.dragging is Some {
        seq![DesktopAction::EndMoveWithViewport { viewport }]
    } else {
        Seq::empty()
    }) + (if interaction.resizing is Some {
        seq![DesktopAction::EndResize]
    } else {
        Seq::empty()
    }));
    v
}

// ---------------------------------------------------------------------
// Wallpaper presets
// ---------------------------------------------------------------------

#[derive(Debug, Clone, Copy, PartialEq, Eq, Structural)]
pub enum WallpaperPresetKind {
    Pattern,
    Picture,
}

/// A built-in desktop wallpaper.
#[derive(Debug, Clone, Copy, PartialEq, Eq)]
pub struct WallpaperPreset {
    pub id: &'static str,
    pub label: &'static str,
    pub kind: WallpaperPresetKind,
    pub note: &'static str,
}

pub type PresetView = (Seq<char>, Seq<char>, WallpaperPresetKind, Seq<char>);

impl View for WallpaperPreset {
    type V = PresetView;

    open spec fn view(&self) -> PresetView {
        (self.id@, self.label@, self.kind, self.note@)
    }
}

/// The built-in wallpapers in catalog order.
pub open spec fn presets_spec() -> Seq<PresetView> {
    seq![
        ("teal-solid"@, "Solid Teal"@, WallpaperPresetKind::Pattern, "Classic single-color desktop fill"@),
        ("teal-grid"@, "Teal Grid"@, WallpaperPresetKind::Pattern, "Subtle tiled grid on teal"@),
        ("woven-steel"@, "Woven Steel"@, WallpaperPresetKind::Pattern, "Crosshatch weave pattern"@),
        ("cloud-bands"@, "Cloud Bands"@, WallpaperPresetKind::Picture, "Soft sky bands and clouds"@),
        ("green-hills"@, "Green Hills"@, WallpaperPresetKind::Picture, "Rolling hills and blue sky"@),
        ("sunset-lake"@, "Sunset Lake"@, WallpaperPresetKind::Picture, "Warm dusk landscape scene"@),
    ]
}

fn preset(id: &'static str, label: &'static str, kind: WallpaperPresetKind, note: &'static str) -> (r: WallpaperPreset)
    ensures
        r@ == (id@, label@, kind, note@),
{
    WallpaperPreset { id, label, kind, note }
}

pub fn desktop_wallpaper_presets() -> (r: Vec<WallpaperPreset>)
    ensures
        r@.map_values(|p: WallpaperPreset| p@) == presets_spec(),
{
    let mut v: Vec<WallpaperPreset> = Vec::new();
    v.push(preset("teal-solid", "Solid Teal", WallpaperPresetKind::Pattern, "Classic single-color desktop fill"));
    v.push(preset("teal-grid", "Teal Grid", WallpaperPresetKind::Pattern, "Subtle tiled grid on teal"));
    v.push(preset("woven-steel", "Woven Steel", WallpaperPresetKind::Pattern, "Crosshatch weave pattern"));
    v.push(preset("cloud-bands", "Cloud Bands", WallpaperPresetKind::Picture, "Soft sky bands and clouds"));
    v.push(preset("green-hills", "Green Hills", WallpaperPresetKind::Picture, "Rolling hills and blue sky"));
    v.push(preset("sunset-lake", "Sunset Lake", WallpaperPresetKind::Picture, "Warm dusk landscape scene"));
    assert(v@.map_values(|p: WallpaperPreset| p@) =~= presets_spec());
    v
}

pub open spec fn preset_kind_label(k: WallpaperPresetKind) -> Seq<char> {
    match k {
        WallpaperPresetKind::Pattern => "Pattern"@,
        WallpaperPresetKind::Picture => "Picture"@,
    }
}

pub fn wallpaper_preset_kind_label(kind: WallpaperPresetKind) -> (r: &'static str)
    ensures
        r@ == preset_kind_label(kind),
{
    match kind {
        WallpaperPresetKind::Pattern => "Pattern",
        WallpaperPresetKind::Picture => "Picture",
    }
}

/// The id a stored wallpaper id stands for: `slate-grid` is the older name
/// of `teal-grid`.
pub open spec fn canonical_wallpaper_id(id: Seq<char>) -> Seq<char> {
    if id == "slate-grid"@ {
        "teal-grid"@
    } else {
        id
    }
}

/// Looking up a preset by the id of a looked-up preset finds the same
/// preset.
pub proof fn lemma_preset_for_idempotent(id: Seq<char>)
    ensures
        preset_for(preset_for(id).0) == preset_for(id),
{
    lemma_preset_ids_distinct();
    reveal_strlit("slate-grid");
    reveal_strlit("teal-solid");
    reveal_strlit("teal-grid");
    reveal_strlit("woven-steel");
    reveal_strlit("cloud-bands");
    reveal_strlit("green-hills");
    reveal_strlit("sunset-lake");
    let ps = presets_spec();
    let p = preset_for(id);
    let i: int = if exists|i: int| 0 <= i < ps.len() && (#[trigger] ps[i]).0 == canonical_wallpaper_id(id) {
        choose|i: int| 0 <= i < ps.len() && (#[trigger] ps[i]).0 == canonical_wallpaper_id(id)
    } else {
        0
    };
    assert(p == ps[i]);
    assert(canonical_wallpaper_id(p.0) == p.0) by {
        assert(p.0 != "slate-grid"@) by {
            assert(p.0.len() != "slate-grid"@.len() || p.0[0] != 's' || p.0[1] != 'l');
        }
    }
    assert(ps[i].0 == p.0);
    let j = choose|j: int| 0 <= j < ps.len() && (#[trigger] ps[j]).0 == p.0;
    if j != i {
        assert(ps[j].0 != ps[i].0);
    }
}

/// The preset a wallpaper id names; an unknown id falls back to the first
/// preset.
pub open spec fn preset_for(id: Seq<char>) -> PresetView {
    let n = canonical_wallpaper_id(id);
    if exists|i: int| 0 <= i < presets_spec().len() && (#[trigger] presets_spec()[i]).0 == n {
        presets_spec()[choose|i: int| 0 <= i < presets_spec().len() && (#[trigger] presets_spec()[i]).0 == n]
    } else {
        presets_spec()[0]
    }
}

proof fn lemma_preset_ids_distinct()
    ensures
        forall|a: int, b: int|
            0 <= a < presets_spec().len() && 0 <= b < presets_spec().len() && a != b ==> (
            #[trigger] presets_spec()[a]).0 != (#[trigger] presets_spec()[b]).0,
{
    reveal_strlit("teal-solid");
    reveal_strlit("teal-grid");
    reveal_strlit("woven-steel");
    reveal_strlit("cloud-bands");
    reveal_strlit("green-hills");
    reveal_strlit("sunset-lake");
    let ps = presets_spec();
    assert(ps[0].0.len() == 10 && ps[1].0.len() == 9);
    assert(ps[0].0[0] == 't' && ps[1].0[0] == 't' && ps[2].0[0] == 'w' && ps[3].0[0] == 'c' && ps[4].0[0] == 'g' && ps[5].0[0] == 's');
}

pub fn wallpaper_preset_by_id(id: &str) -> (r: WallpaperPreset)
    ensures
        r@ == preset_for(id@),
{
    let normalized: &str = if str_eq(id, "slate-grid") {
        "teal-grid"
    } else {
        id
    };
    let presets = desktop_wallpaper_presets();
    let ghost ps = presets_spec();
    proof {
        reveal_strlit("slate-grid");
        reveal_strlit("teal-grid");
        lemma_preset_ids_distinct();
    }
    assert(normalized@ == canonical_wallpaper_id(id@));
    assert(presets@.len() == ps.len());
    let mut i: usize = 0;
    while i < presets.len()
        invariant
            presets@.map_values(|p: WallpaperPreset| p@) == ps,
            presets@.len() == ps.len(),
            ps == presets_spec(),
            normalized@ == canonical_wallpaper_id(id@),
            forall|a: int, b: int| 0 <= a < ps.len() && 0 <= b < ps.len() && a != b ==> (#[trigger] ps[a]).0 != (#[trigger] ps[b]).0,
            i <= presets@.len(),
            forall|k: int| 0 <= k < i ==> (#[trigger] ps[k]).0 != normalized@,
        decreases presets@.len() - i,
    {
        assert(ps[i as int] == presets@[i as int]@);
        if str_eq(presets[i].id, normalized) {
            proof {
                let n = canonical_wallpaper_id(id@);
                assert(n == normalized@);
                let k = choose|k: int| 0 <= k < ps.len() && (#[trigger] ps[k]).0 == n;
                assert(k == i as int) by {
                    if k < i {
                        assert(ps[k].0 != n);
                    } else if k > i {
                        assert(ps[k].0 != ps[i as int].0);
                    }
                }
            }
            return presets[i];
        }
        i = i + 1;
    }
    assert(ps[0] == presets@[0]@);
    presets[0]
}

/// DOM id of a wallpaper option.
pub fn wallpaper_option_dom_id(id: &str) -> (r: String)
    ensures
        r@ == "wallpaper-option-"@ + id@,
{
    String::from_str("wallpaper-option-").concat(id)
}

// ---------------------------------------------------------------------
// Tray widgets
// ---------------------------------------------------------------------

/// What activating a tray widget does.
#[derive(Debug, Clone, Copy, PartialEq, Eq, Structural)]
pub enum TaskbarTrayWidgetAction {
    NoAction,
    ToggleHighContrast,
    ToggleReducedMotion,
}

/// One status widget of the taskbar tray.
#[derive(Debug, Clone, PartialEq, Eq)]
pub struct TaskbarTrayWidget {
    pub id: &'static str,
    pub icon: IconName,
    pub label: &'static str,
    pub value: String,
    pub pressed: Option<bool>,
    pub action: TaskbarTrayWidgetAction,
}

pub struct TrayWidgetView {
    pub id: Seq<char>,
    pub icon: IconName,
    pub label: Seq<char>,
    pub value: Seq<char>,
    pub pressed: Option<bool>,
    pub action: TaskbarTrayWidgetAction,
}

impl View for TaskbarTrayWidget {
    type V = TrayWidgetView;

    open spec fn view(&self) -> TrayWidgetView {
        TrayWidgetView {
            id: self.id@,
            icon: self.icon,
            label: self.label@,
            value: self.value@,
            pressed: self.pressed,
            action: self.action,
        }
    }
}

pub open spec fn on_off(b: bool) -> Seq<char> {
    if b {
        "ON"@
    } else {
        "OFF"@
    }
}

/// Some dial-up window is open and not minimized.
pub open spec fn dialup_online(ws: Seq<WindowView>) -> bool {
    exists|i: int| 0 <= i < ws.len() && (#[trigger] ws[i]).app_id == AppId::Dialup && !ws[i].minimized
}

pub open spec fn minimized_count(ws: Seq<WindowView>) -> nat {
    ws.filter(|w: WindowView| w.minimized).len()
}

/// The tray: open and minimized window counts, network status (online
/// while a dial-up window is shown), high contrast and reduced motion.
pub open spec fn tray_widgets(d: DesktopView) -> Seq<TrayWidgetView> {
    let online = dialup_online(d.windows);
    seq![
        TrayWidgetView {
            id: "win-count"@,
            icon: IconName::WindowMultiple,
            label: "Open windows"@,
            value: decimal(d.windows.len()),
            pressed: None,
            action: TaskbarTrayWidgetAction::NoAction,
        },
        TrayWidgetView {
            id: "bg-count"@,
            icon: IconName::DesktopArrowDown,
            label: "Minimized windows"@,
            value: decimal(minimized_count(d.windows)),
            pressed: None,
            action: TaskbarTrayWidgetAction::NoAction,
        },
        TrayWidgetView {
            id: "network"@,
            icon: if online { IconName::WifiOn } else { IconName::WifiOff },
            label: "Network status"@,
            value: if online { "ON"@ } else { "IDLE"@ },
            pressed: Some(online),
            action: TaskbarTrayWidgetAction::NoAction,
        },
        TrayWidgetView {
            id: "contrast"@,
            icon: if d.theme.high_contrast { IconName::Checkmark } else { IconName::Dismiss },
            label: "High contrast"@,
            value: on_off(d.theme.high_contrast),
            pressed: Some(d.theme.high_contrast),
            action: TaskbarTrayWidgetAction::ToggleHighContrast,
        },
        TrayWidgetView {
            id: "motion"@,
            icon: if d.theme.reduced_motion { IconName::MotionOff } else { IconName::MotionOn },
            label: "Reduced motion"@,
            value: on_off(d.theme.reduced_motion),
            pressed: Some(d.theme.reduced_motion),
            action: TaskbarTrayWidgetAction::ToggleReducedMotion,
        },
    ]
}

fn on_off_text(b: bool) -> (r: String)
    ensures
        r@ == on_off(b),
{
    if b {
        String::from_str("ON")
    } else {
        String::from_str("OFF")
    }
}

/// The taskbar tray widgets for a desktop state.
pub fn build_taskbar_tray_widgets(state: &DesktopState) -> (r: Vec<TaskbarTrayWidget>)
    ensures
        r@.map_values(|w: TaskbarTrayWidget| w@) == tray_widgets(state@),
{
    let ghost ws = state@.windows;
    let mut minimized: usize = 0;
    let mut online = false;
    let mut i: usize = 0;
    assert(ws.take(0).filter(|w: WindowView| w.minimized) =~= Seq::<WindowView>::empty());
    while i < state.windows.len()
        invariant
            ws == state@.windows,
            ws == windows_view(state.windows@),
            i <= state.windows@.len(),
            minimized as nat == ws.take(i as int).filter(|w: WindowView| w.minimized).len(),
            online == dialup_online(ws.take(i as int)),
        decreases state.windows@.len() - i,
    {
        let w = &state.windows[i];
        proof {
            assert(ws[i as int] == w@);
            ws.take(i as int).lemma_filter_push(w@, |w: WindowView| w.minimized);
            assert(ws.take(i as int).push(w@) =~= ws.take(i + 1));
            ws.take(i as int).filter(|w: WindowView| w.minimized).lemma_filter_len(|w: WindowView| w.minimized);
            ws.take(i as int).lemma_filter_len(|w: WindowView| w.minimized);
            let t = ws.take(i + 1);
            if dialup_online(ws.take(i as int)) {
                let j = choose|j: int| 0 <= j < i && (#[trigger] ws.take(i as int)[j]).app_id == AppId::Dialup
                    && !ws.take(i as int)[j].minimized;
                assert(t[j] == ws.take(i as int)[j]);
            }
            if dialup_online(t) {
                let j = choose|j: int| 0 <= j < t.len() && (#[trigger] t[j]).app_id == AppId::Dialup && !t[j].minimized;
                if j < i {
                    assert(ws.take(i as int)[j] == t[j]);
                }
            }
        }
        if w.minimized {
            minimized = minimized + 1;
        }
        if matches!(w.app_id, AppId::Dialup) && !w.minimized {
            online = true;
            proof {
                assert(ws.take(i + 1)[i as int] == w@);
            }
        }
        i = i + 1;
    }
    assert(ws.take(i as int) =~= ws);
    let high_contrast = state.theme.high_contrast;
    let reduced_motion = state.theme.reduced_motion;
    let mut win_count = String::new();
    push_decimal(&mut win_count, state.windows.len() as u64);
    let mut bg_count = String::new();
    push_decimal(&mut bg_count, minimized as u64);
    proof {
        reveal_strlit("win-count");
        reveal_strlit("bg-count");
        reveal_strlit("network");
        reveal_strlit("contrast");
        reveal_strlit("motion");
    }
    let mut v: Vec<TaskbarTrayWidget> = Vec::new();
    v.push(TaskbarTrayWidget {
        id: "win-count",
        icon: IconName::WindowMultiple,
        label: "Open windows",
        value: win_count,
        pressed: None,
        action: TaskbarTrayWidgetAction::NoAction,
    });
    v.push(TaskbarTrayWidget {
        id: "bg-count",
        icon: IconName::DesktopArrowDown,
        label: "Minimized windows",
        value: bg_count,
        pressed: None,
        action: TaskbarTrayWidgetAction::NoAction,
    });
    v.push(TaskbarTrayWidget {
        id: "network",
        icon: if online { IconName::WifiOn } else { IconName::WifiOff },
        label: "Network status",
        value: if online { String::from_str("ON") } else { String::from_str("IDLE") },
        pressed: Some(online),
        action: TaskbarTrayWidgetAction::NoAction,
    });
    v.push(TaskbarTrayWidget {
        id: "contrast",
        icon: if high_contrast { IconName::Checkmark } else { IconName::Dismiss },
        label: "High contrast",
        value: on_off_text(high_contrast),
        pressed: Some(high_contrast),
        action: TaskbarTrayWidgetAction::ToggleHighContrast,
    });
    v.push(TaskbarTrayWidget {
        id: "motion",
        icon: if reduced_motion { IconName::MotionOff } else { IconName::MotionOn },
        label: "Reduced motion",
        value: on_off_text(reduced_motion),
        pressed: Some(reduced_motion),
        action: TaskbarTrayWidgetAction::ToggleReducedMotion,
    });
    assert(v@.map_values(|w: TaskbarTrayWidget| w@) =~= tray_widgets(state@));
    v
}

// ---------------------------------------------------------------------
// Taskbar order and keyboard shortcut targets
// ---------------------------------------------------------------------

/// `a` comes no later than `b` in taskbar order: by stacking order, then
/// by id.
pub open spec fn stack_key_le(a: WindowView, b: WindowView) -> bool {
    a.z_index < b.z_index || (a.z_index == b.z_index && a.id.0 <= b.id.0)
}

pub open spec fn in_taskbar_order(ws: Seq<WindowView>) -> bool {
    forall|i: int, j: int| 0 <= i < j < ws.len() ==> stack_key_le(#[trigger] ws[i], #[trigger] ws[j])
}

/// The windows in taskbar order: sorted by stacking order and id, equal
/// keys keeping their order.
pub fn ordered_taskbar_windows(state: &DesktopState) -> (r: Vec<WindowRecord>)
    ensures
        windows_view(r@).to_multiset() == state@.windows.to_multiset(),
        in_taskbar_order(windows_view(r@)),
{
    let ghost all = state@.windows;
    let mut out: Vec<WindowRecord> = Vec::new();
    let mut i: usize = 0;
    assert(all.take(0) =~= Seq::<WindowView>::empty());
    assert(windows_view(out@) =~= Seq::<WindowView>::empty());
    while i < state.windows.len()
        invariant
            all == state@.windows,
            all == windows_view(state.windows@),
            i <= state.windows@.len(),
            windows_view(out@).to_multiset() == all.take(i as int).to_multiset(),
            in_taskbar_order(windows_view(out@)),
        decreases state.windows@.len() - i,
    {
        let w = &state.windows[i];
        let z = w.z_index;
        let id = w.id.0;
        let ghost old_view = windows_view(out@);
        let mut k: usize = 0;
        while k < out.len() && (out[k].z_index < z || (out[k].z_index == z && out[k].id.0 <= id))
            invariant
                old_view == windows_view(out@),
                z == w@.z_index,
                id == w@.id.0,
                k <= out@.len(),
                forall|j: int| 0 <= j < k ==> stack_key_le(#[trigger] old_view[j], w@),
            decreases out@.len() - k,
        {
            assert(old_view[k as int] == out@[k as int]@);
            k = k + 1;
        }
        let ghost e = w@;
        proof {
            assert(e == all[i as int]);
        }
        out.insert(k, w.duplicate());
        proof {
            broadcast use vstd::seq_lib::group_to_multiset_ensures;

            let nv = windows_view(out@);
            assert(nv =~= old_view.insert(k as int, e));
            assert(all.take(i + 1) =~= all.take(i as int).push(e));
            assert forall|a: int, b: int| 0 <= a < b < nv.len() implies stack_key_le(
                #[trigger] nv[a],
                #[trigger] nv[b],
            ) by {
                if b == k {
                } else if a == k {
                    assert(!stack_key_le(old_view[k as int], e));
                    if b - 1 > k {
                        assert(stack_key_le(old_view[k as int], old_view[b - 1]));
                    }
                } else if a < k && b > k {
                    assert(stack_key_le(old_view[a], old_view[b - 1]));
                } else if a > k {
                    assert(stack_key_le(old_view[a - 1], old_view[b - 1]));
                } else {
                    assert(stack_key_le(old_view[a], old_view[b]));
                }
            }
        }
        i = i + 1;
    }
    assert(all.take(i as int) =~= all);
    out
}

/// What a taskbar keyboard shortcut can activate.
#[derive(Debug, Clone, Copy, PartialEq, Eq, Structural)]
pub enum TaskbarShortcutTarget {
    Pinned(AppId),
    Window(WindowId),
}

pub open spec fn window_targets(ws: Seq<WindowView>) -> Seq<TaskbarShortcutTarget> {
    ws.map_values(|w: WindowView| TaskbarShortcutTarget::Window(w.id))
}

/// The shortcut targets: the pinned apps in display order, then the
/// windows in taskbar order.
pub fn build_taskbar_shortcut_targets(state: &DesktopState) -> (r: Vec<TaskbarShortcutTarget>)
    ensures
        exists|ordered: Seq<WindowView>|
            ordered.to_multiset() == state@.windows.to_multiset() && in_taskbar_order(ordered) && r@
                == pinned_apps_spec().map_values(|a: AppId| TaskbarShortcutTarget::Pinned(a)) + #[trigger] window_targets(
                ordered,
            ),
{
    let pinned = pinned_taskbar_apps();
    let mut targets: Vec<TaskbarShortcutTarget> = Vec::new();
    let mut i: usize = 0;
    while i < pinned.len()
        invariant
            pinned@ == pinned_apps_spec(),
            i <= pinned@.len(),
            targets@ == pinned@.take(i as int).map_values(|a: AppId| TaskbarShortcutTarget::Pinned(a)),
        decreases pinned@.len() - i,
    {
        targets.push(TaskbarShortcutTarget::Pinned(pinned[i]));
        assert(pinned@.take(i + 1).map_values(|a: AppId| TaskbarShortcutTarget::Pinned(a)) =~= pinned@.take(
            i as int,
        ).map_values(|a: AppId| TaskbarShortcutTarget::Pinned(a)).push(TaskbarShortcutTarget::Pinned(pinned@[i as int])));
        i = i + 1;
    }
    assert(pinned@.take(i as int) =~= pinned@);
    let ghost head = targets@;
    let ordered = ordered_taskbar_windows(state);
    let ghost ov = windows_view(ordered@);
    let mut j: usize = 0;
    while j < ordered.len()
        invariant
            ov == windows_view(ordered@),
            j <= ordered@.len(),
            targets@ == head + window_targets(ov.take(j as int)),
        decreases ordered@.len() - j,
    {
        targets.push(TaskbarShortcutTarget::Window(ordered[j].id));
        proof {
            assert(ov[j as int].id == ordered@[j as int].id);
            assert(window_targets(ov.take(j + 1)) =~= window_targets(ov.take(j as int)).push(
                TaskbarShortcutTarget::Window(ov[j as int].id),
            ));
        }
        j = j + 1;
    }
    assert(ov.take(j as int) =~= ov);
    assert(targets@ == pinned_apps_spec().map_values(|a: AppId| TaskbarShortcutTarget::Pinned(a)) + window_targets(ov));
    targets
}

// ---------------------------------------------------------------------
// Keyboard navigation
// ---------------------------------------------------------------------

/// What a key does in the wallpaper list of Display Properties.
#[derive(Debug, Clone, PartialEq, Eq)]
pub enum WallpaperListKey {
    /// Select the preset with this id.
    Select(String),
    /// Preview the selected preset.
    Preview,
    /// The key does nothing here.
    Ignore,
}

/// The list position of the selected preset, or the first when the
/// selection names none.
pub open spec fn preset_position(id: Seq<char>) -> int {
    let ps = presets_spec();
    if exists|i: int| 0 <= i < ps.len() && (#[trigger] ps[i]).0 == id {
        choose|i: int| 0 <= i < ps.len() && (#[trigger] ps[i]).0 == id
    } else {
        0
    }
}

/// Arrow keys step through the list without wrapping, Home and End jump
/// to its ends, Enter and Space preview the selection.
pub open spec fn wallpaper_list_key_target(selected: Seq<char>, key: Seq<char>) -> Option<int> {
    let cur = preset_position(selected);
    let last = presets_spec().len() - 1;
    if key == "ArrowUp"@ {
        Some(if cur > 0 { cur - 1 } else { 0 })
    } else if key == "ArrowDown"@ {
        Some(if cur + 1 < last { cur + 1 } else { last })
    } else if key == "Home"@ {
        Some(0)
    } else if key == "End"@ {
        Some(last)
    } else {
        None
    }
}

pub open spec fn is_preview_key(key: Seq<char>) -> bool {
    key == "Enter"@ || key == " "@ || key == "Spacebar"@
}

/// What a key pressed in the wallpaper list does.
pub fn wallpaper_list_key(selected: &str, key: &str) -> (r: WallpaperListKey)
    ensures
        match wallpaper_list_key_target(selected@, key@) {
            Some(i) => r matches WallpaperListKey::Select(id) && id@ == presets_spec()[i].0,
            None => if is_preview_key(key@) {
                r == WallpaperListKey::Preview
            } else {
                r == WallpaperListKey::Ignore
            },
        },
{
    let presets = desktop_wallpaper_presets();
    let ghost ps = presets_spec();
    proof {
        lemma_preset_ids_distinct();
    }
    let mut cur: usize = 0;
    let mut i: usize = 0;
    let mut found = false;
    while i < presets.len()
        invariant
            presets@.map_values(|p: WallpaperPreset| p@) == ps,
            ps == presets_spec(),
            i <= presets@.len(),
            !found ==> cur == 0 && forall|k: int| 0 <= k < i ==> (#[trigger] ps[k]).0 != selected@,
            found ==> cur < presets@.len() && ps[cur as int].0 == selected@,
        decreases presets@.len() - i,
    {
        if !found && str_eq(presets[i].id, selected) {
            assert(ps[i as int] == presets@[i as int]@);
            cur = i;
            found = true;
        }
        i = i + 1;
    }
    proof {
        if found {
            let c = choose|k: int| 0 <= k < ps.len() && (#[trigger] ps[k]).0 == selected@;
            assert(ps[c].0 == ps[cur as int].0);
            if c != cur as int {
                assert(ps[c].0 != ps[cur as int].0);
            }
        }
        assert(cur as int == preset_position(selected@));
    }
    let last: usize = presets.len() - 1;
    let target: Option<usize> = if str_eq(key, "ArrowUp") {
        Some(if cur > 0 { cur - 1 } else { 0 })
    } else if str_eq(key, "ArrowDown") {
        Some(if cur + 1 < last { cur + 1 } else { last })
    } else if str_eq(key, "Home") {
        Some(0)
    } else if str_eq(key, "End") {
        Some(last)
    } else {
        None
    };
    match target {
        Some(t) => {
            assert(ps[t as int] == presets@[t as int]@);
            WallpaperListKey::Select(String::from_str(presets[t].id))
        },
        None => {
            if str_eq(key, "Enter") || str_eq(key, " ") || str_eq(key, "Spacebar") {
                WallpaperListKey::Preview
            } else {
                WallpaperListKey::Ignore
            }
        },
    }
}

/// Where arrow, Home and End keys move the taskbar's selected window, in
/// taskbar order: right and left cycle, Home and End jump to the ends;
/// other keys move nothing.
pub open spec fn taskbar_key_target(ordered: Seq<WindowView>, selected: Option<WindowId>, key: Seq<char>) -> Option<WindowId> {
    if key == "ArrowRight"@ {
        cycle_target(ordered, selected, 1)
    } else if key == "ArrowLeft"@ {
        cycle_target(ordered, selected, -1)
    } else if key == "Home"@ {
        if ordered.len() > 0 {
            Some(ordered[0].id)
        } else {
            None
        }
    } else if key == "End"@ {
        if ordered.len() > 0 {
            Some(ordered.last().id)
        } else {
            None
        }
    } else {
        None
    }
}

/// The window a navigation key selects on the taskbar.
pub fn taskbar_key_selection(state: &DesktopState, selected: Option<WindowId>, key: &str) -> (r: Option<WindowId>)
    requires
        state@.windows.len() <= i32::MAX,
    ensures
        exists|ordered: Seq<WindowView>|
            ordered.to_multiset() == state@.windows.to_multiset() && in_taskbar_order(ordered) && r
                == #[trigger] taskbar_key_target(ordered, selected, key@),
{
    let ordered = ordered_taskbar_windows(state);
    let ghost ov = windows_view(ordered@);
    proof {
        broadcast use vstd::seq_lib::group_to_multiset_ensures;

        assert(ov.len() == ov.to_multiset().len());
        assert(state@.windows.len() == state@.windows.to_multiset().len());
    }
    proof {
        if ov.len() > 0 {
            lemma_cycle_start_in_range(ov, selected);
        }
    }
    let r = if str_eq(key, "ArrowRight") {
        cycle_selected_running_window(&ordered, selected, 1)
    } else if str_eq(key, "ArrowLeft") {
        cycle_selected_running_window(&ordered, selected, -1)
    } else if str_eq(key, "Home") {
        if ordered.len() > 0 {
            assert(ov[0] == ordered@[0]@);
            Some(ordered[0].id)
        } else {
            None
        }
    } else if str_eq(key, "End") {
        if ordered.len() > 0 {
            let n = ordered.len();
            assert(ov.last() == ordered@[n - 1]@);
            Some(ordered[n - 1].id)
        } else {
            None
        }
    } else {
        None
    };
    assert(r == taskbar_key_target(ov, selected, key@));
    r
}

/// Where the keyboard opens a window's taskbar menu: centered on the
/// desktop, just above the taskbar, at least 24px from the edges.
pub fn keyboard_context_menu_anchor(viewport: WindowRect) -> (r: (i32, i32))
    requires
        viewport.h + TASKBAR_HEIGHT_PX <= i32::MAX,
        viewport.h + TASKBAR_HEIGHT_PX - 180 >= i32::MIN,
    ensures
        r.0 == (if viewport.w / 2 >= 24 { viewport.w / 2 } else { 24 }),
        r.1 == (if viewport.h + TASKBAR_HEIGHT_PX - 180 >= 24 {
            viewport.h + TASKBAR_HEIGHT_PX - 180
        } else {
            24
        }),
{
    let half = viewport.w / 2;
    let x = if half >= 24 { half } else { 24 };
    let raw = viewport.h + TASKBAR_HEIGHT_PX - 180;
    let y = if raw >= 24 { raw } else { 24 };
    (x, y)
}

} // verus!
