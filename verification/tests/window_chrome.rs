use desktop_runtime::model::{
    AppId, DesktopState, InteractionState, OpenWindowRequest, ResizeEdge, WindowId, WindowRect,
};
use desktop_runtime::reducer::{reduce_desktop, DesktopAction};
use desktop_runtime::window_chrome::{
    frame_press, maximize_button, title_double_click, titlebar_press, window_frame_class,
    window_frame_style, window_resize_handle_class, TitlebarPress,
};

fn open_two() -> (DesktopState, WindowId, WindowId) {
    let mut state = DesktopState::default();
    let mut interaction = InteractionState::default();
    for app in [AppId::Explorer, AppId::Notepad] {
        reduce_desktop(&mut state, &mut interaction, DesktopAction::OpenWindow(OpenWindowRequest::new(app)))
            .expect("open");
    }
    let a = state.windows[0].id;
    let b = state.windows[1].id;
    (state, a, b)
}

#[test]
fn frame_press_focuses_background_windows_only() {
    let (state, a, b) = open_two();
    assert_eq!(frame_press(&state, a), Some(DesktopAction::FocusWindow { window_id: a }));
    assert_eq!(frame_press(&state, b), None);
    assert_eq!(frame_press(&state, WindowId(999)), None);
}

#[test]
fn maximize_controls_toggle_maximization() {
    let (mut state, a, _) = open_two();
    let viewport = WindowRect { x: 0, y: 0, w: 800, h: 600 };
    assert_eq!(
        maximize_button(&state, a, viewport),
        Some(DesktopAction::MaximizeWindow { window_id: a, viewport })
    );
    state.windows[0].maximized = true;
    assert_eq!(maximize_button(&state, a, viewport), Some(DesktopAction::RestoreWindow { window_id: a }));
    assert_eq!(title_double_click(&state, a, viewport), Some(DesktopAction::RestoreWindow { window_id: a }));
    state.windows[0].flags.maximizable = false;
    assert_eq!(maximize_button(&state, a, viewport), Some(DesktopAction::RestoreWindow { window_id: a }));
    assert_eq!(title_double_click(&state, a, viewport), None);
    state.windows[0].maximized = false;
    assert_eq!(maximize_button(&state, a, viewport), None);
}

#[test]
fn titlebar_presses_start_drags_with_the_main_button() {
    assert_eq!(titlebar_press(true, 0, true), TitlebarPress::BeginMove);
    assert_eq!(titlebar_press(true, 2, true), TitlebarPress::Ignore);
    assert_eq!(titlebar_press(false, 0, false), TitlebarPress::Ignore);
    assert_eq!(titlebar_press(false, 1, true), TitlebarPress::CaptureOnly);
    assert_eq!(titlebar_press(false, 0, true), TitlebarPress::BeginMove);
}

#[test]
fn frame_class_and_style_reflect_the_window() {
    let (mut state, _, _) = open_two();
    let w = &mut state.windows[1];
    w.rect = WindowRect { x: -5, y: 12, w: 300, h: 200 };
    w.maximized = true;
    assert_eq!(window_frame_class(w), "desktop-window focused maximized");
    assert_eq!(
        window_frame_style(w),
        format!("left:-5px;top:12px;width:300px;height:200px;z-index:{};", w.z_index)
    );
    assert_eq!(window_resize_handle_class(ResizeEdge::North), "window-resize-handle edge-n");
}
