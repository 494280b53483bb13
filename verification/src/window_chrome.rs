//! Decisions of a window's frame: what a click on the frame, the maximize
//! button or a double click on the title bar asks of the window manager,
//! when a pointer press starts a drag, and the frame's class and inline
//! style.

use vstd::prelude::*;
use vstd::string::*;
use crate::model::{DesktopState, ResizeEdge, WindowId, WindowRect, WindowView};
use crate::reducer::{find_window_index, has_window, window_index, DesktopAction};
use crate::strings::{decimal, push_decimal};
use crate::taskbar::{edge_class, resize_edge_class};

verus! {

/// The window named `window_id`, when there is one.
pub open spec fn window_of(d: Seq<WindowView>, window_id: WindowId) -> Option<WindowView> {
    if has_window(d, window_id) {
        Some(d[window_index(d, window_id)])
    } else {
        None
    }
}

/// A press on the frame focuses the window unless it is already focused
/// and shown.
pub open spec fn frame_press_action(w: Option<WindowView>, window_id: WindowId) -> Option<DesktopAction> {
    match w {
        Some(w) => if !w.is_focused || w.minimized {
            Some(DesktopAction::FocusWindow { window_id })
        } else {
            None
        },
        None => None,
    }
}

/// The maximize button restores a maximized window and maximizes one
/// that allows it.
pub open spec fn maximize_button_action(w: Option<WindowView>, window_id: WindowId, viewport: WindowRect) -> Option<DesktopAction> {
    match w {
        Some(w) => if w.maximized {
            Some(DesktopAction::RestoreWindow { window_id })
        } else if w.flags.maximizable {
            Some(DesktopAction::MaximizeWindow { window_id, viewport })
        } else {
            None
        },
        None => None,
    }
}

/// A double click on the title bar toggles maximization of a window that
/// allows it.
pub open spec fn title_double_click_action(w: Option<WindowView>, window_id: WindowId, viewport: WindowRect) -> Option<DesktopAction> {
    match w {
        Some(w) => if !w.flags.maximizable {
            None
        } else if w.maximized {
            Some(DesktopAction::RestoreWindow { window_id })
        } else {
            Some(DesktopAction::MaximizeWindow { window_id, viewport })
        },
        None => None,
    }
}

fn lookup(state: &DesktopState, window_id: WindowId) -> (r: Option<usize>)
    ensures
        match r {
            Some(i) => i < state.windows@.len() && window_of(state@.windows, window_id) == Some(
                state.windows@[i as int]@,
            ),
            None => window_of(state@.windows, window_id) is None,
        },
{
    match find_window_index(&state.windows, window_id) {
        Some(i) => {
            assert(state@.windows[i as int] == state.windows@[i as int]@);
            Some(i)
        },
        None => None,
    }
}

/// What a press on a window's frame asks of the window manager.
pub fn frame_press(state: &DesktopState, window_id: WindowId) -> (r: Option<DesktopAction>)
    ensures
        r == frame_press_action(window_of(state@.windows, window_id), window_id),
{
    match lookup(state, window_id) {
        Some(i) => {
            let w = &state.windows[i];
            if !w.is_focused || w.minimized {
                Some(DesktopAction::FocusWindow { window_id })
            } else {
                None
            }
        },
        None => None,
    }
}

/// What the maximize button asks of the window manager.
pub fn maximize_button(state: &DesktopState, window_id: WindowId, viewport: WindowRect) -> (r: Option<DesktopAction>)
    ensures
        r == maximize_button_action(window_of(state@.windows, window_id), window_id, viewport),
{
    match lookup(state, window_id) {
        Some(i) => {
            let w = &state.windows[i];
            if w.maximized {
                Some(DesktopAction::RestoreWindow { window_id })
            } else if w.flags.maximizable {
                Some(DesktopAction::MaximizeWindow { window_id, viewport })
            } else {
                None
            }
        },
        None => None,
    }
}

/// What a double click on the title bar asks of the window manager.
pub fn title_double_click(state: &DesktopState, window_id: WindowId, viewport: WindowRect) -> (r: Option<DesktopAction>)
    ensures
        r == title_double_click_action(window_of(state@.windows, window_id), window_id, viewport),
{
    match lookup(state, window_id) {
        Some(i) => {
            let w = &state.windows[i];
            if !w.flags.maximizable {
                None
            } else if w.maximized {
                Some(DesktopAction::RestoreWindow { window_id })
            } else {
                Some(DesktopAction::MaximizeWindow { window_id, viewport })
            }
        },
        None => None,
    }
}

/// How a pointer press on the title bar is handled.
#[derive(Debug, Clone, Copy, PartialEq, Eq, Structural)]
pub enum TitlebarPress {
    /// Not a drag: a secondary mouse button or a secondary touch point.
    Ignore,
    /// The pointer is captured but no drag starts.
    CaptureOnly,
    /// The pointer is captured and a drag starts.
    BeginMove,
}

/// Mouse presses other than the main button and secondary touch points
/// are ignored; other presses capture the pointer, and start a drag when
/// made with the main button.
pub open spec fn titlebar_press_spec(is_mouse: bool, button: i16, is_primary: bool) -> TitlebarPress {
    if is_mouse && button != 0 {
        TitlebarPress::Ignore
    } else if !is_mouse && !is_primary {
        TitlebarPress::Ignore
    } else if button != 0 {
        TitlebarPress::CaptureOnly
    } else {
        TitlebarPress::BeginMove
    }
}

pub fn titlebar_press(is_mouse: bool, button: i16, is_primary: bool) -> (r: TitlebarPress)
    ensures
        r == titlebar_press_spec(is_mouse, button, is_primary),
{
    if is_mouse && button != 0 {
        TitlebarPress::Ignore
    } else if !is_mouse && !is_primary {
        TitlebarPress::Ignore
    } else if button != 0 {
        TitlebarPress::CaptureOnly
    } else {
        TitlebarPress::BeginMove
    }
}

pub open spec fn flag_suffix(on: bool, suffix: Seq<char>) -> Seq<char> {
    if on {
        suffix
    } else {
        Seq::empty()
    }
}

/// The frame's class list.
pub open spec fn frame_class(w: WindowView) -> Seq<char> {
    "desktop-window"@ + flag_suffix(w.is_focused, " focused"@) + flag_suffix(w.minimized, " minimized"@)
        + flag_suffix(w.maximized, " maximized"@)
}

fn append_flag(s: &mut String, on: bool, suffix: &str)
    ensures
        final(s)@ == old(s)@ + flag_suffix(on, suffix@),
{
    if on {
        let t = s.clone().concat(suffix);
        *s = t;
    } else {
        assert(old(s)@ + Seq::<char>::empty() =~= old(s)@);
    }
}

/// The class list of a window frame.
pub fn window_frame_class(w: &crate::model::WindowRecord) -> (r: String)
    ensures
        r@ == frame_class(w@),
{
    let mut s = String::from_str("desktop-window");
    append_flag(&mut s, w.is_focused, " focused");
    append_flag(&mut s, w.minimized, " minimized");
    append_flag(&mut s, w.maximized, " maximized");
    s
}

/// Decimal notation of an integer, with a minus sign when negative.
pub open spec fn signed_decimal(v: int) -> Seq<char> {
    if v < 0 {
        "-"@ + decimal((-v) as nat)
    } else {
        decimal(v as nat)
    }
}

fn push_signed(s: &mut String, v: i32)
    ensures
        final(s)@ == old(s)@ + signed_decimal(v as int),
{
    if v < 0 {
        let t = s.clone().concat("-");
        *s = t;
        let m: i64 = -(v as i64);
        push_decimal(s, m as u64);
        assert(old(s)@ + "-"@ + decimal((-(v as int)) as nat) =~= old(s)@ + ("-"@ + decimal((-(v as int)) as nat)));
    } else {
        push_decimal(s, v as u64);
    }
}

/// The frame's inline style: position, size and stacking order.
pub open spec fn frame_style(w: WindowView) -> Seq<char> {
    "left:"@ + signed_decimal(w.rect.x as int) + "px;top:"@ + signed_decimal(w.rect.y as int) + "px;width:"@
        + signed_decimal(w.rect.w as int) + "px;height:"@ + signed_decimal(w.rect.h as int) + "px;z-index:"@
        + decimal(w.z_index as nat) + ";"@
}

/// The inline style of a window frame.
pub fn window_frame_style(w: &crate::model::WindowRecord) -> (r: String)
    ensures
        r@ == frame_style(w@),
{
    let mut s = String::from_str("left:");
    push_signed(&mut s, w.rect.x);
    let mut s = s.concat("px;top:");
    push_signed(&mut s, w.rect.y);
    let mut s = s.concat("px;width:");
    push_signed(&mut s, w.rect.w);
    let mut s = s.concat("px;height:");
    push_signed(&mut s, w.rect.h);
    let mut s = s.concat("px;z-index:");
    push_decimal(&mut s, w.z_index as u64);
    s.concat(";")
}

/// The class list of a resize handle.
pub fn window_resize_handle_class(edge: ResizeEdge) -> (r: String)
    ensures
        r@ == "window-resize-handle "@ + edge_class(edge),
{
    String::from_str("window-resize-handle ").concat(resize_edge_class(edge))
}

} // verus!
