use desktop_runtime::model::{
    AppId, DesktopState, InteractionState, OpenWindowRequest, ResizeEdge, WindowId, WindowRect,
};
use desktop_runtime::reducer::{reduce_desktop, DesktopAction};
use desktop_runtime::taskbar::{
    clamp_desktop_popup_position, clamp_taskbar_popup_position, compute_taskbar_layout,
    cycle_selected_running_window, desktop_wallpaper_presets, end_active_pointer_interaction,
    focus_or_unminimize_action, format_taskbar_clock_aria, format_taskbar_clock_date,
    format_taskbar_clock_time, pinned_taskbar_app_state, pinned_taskbar_apps,
    preferred_window_for_app, resize_edge_class, taskbar_pinned_aria_label,
    taskbar_pinned_button_class, taskbar_window_aria_label, taskbar_window_button_class,
    taskbar_window_button_dom_id, wallpaper_option_dom_id, wallpaper_preset_by_id,
    wallpaper_preset_kind_label, PinnedTaskbarAppState, TaskbarClockConfig,
    TaskbarClockSnapshot, WallpaperPresetKind,
};

fn open(state: &mut DesktopState, interaction: &mut InteractionState, app_id: AppId) -> WindowId {
    reduce_desktop(
        state,
        interaction,
        DesktopAction::OpenWindow(OpenWindowRequest::new(app_id)),
    )
    .expect("open window");
    state.windows.last().expect("window").id
}

#[test]
fn layout_uses_full_buttons_when_they_fit() {
    let plan = compute_taskbar_layout(1920, 4, 3, 5, true);
    assert!(!plan.compact_running_items);
    assert_eq!(plan.visible_running_count, 3);
    let none = compute_taskbar_layout(1920, 4, 0, 5, true);
    assert_eq!(none.visible_running_count, 0);
    assert!(!none.compact_running_items);
}

#[test]
fn layout_compacts_on_narrow_screens() {
    // reserved = 96 + 4*42 + (28 + 4*56) + 136 + 48 = 700; available = 1000 - 700 = 300
    let plan = compute_taskbar_layout(1000, 4, 5, 9, true);
    assert!(plan.compact_running_items);
    assert_eq!(plan.visible_running_count, 5);
    let tight = compute_taskbar_layout(740, 4, 5, 9, true);
    assert!(tight.compact_running_items);
    assert_eq!(tight.visible_running_count, 1);
    let tiny = compute_taskbar_layout(100, 4, 2, 9, true);
    assert!(tiny.compact_running_items);
    assert_eq!(tiny.visible_running_count, 0);
}

#[test]
fn pinned_status_and_preferred_window() {
    let mut state = DesktopState::default();
    let mut interaction = InteractionState::default();
    let a = open(&mut state, &mut interaction, AppId::Notepad);
    let b = open(&mut state, &mut interaction, AppId::Notepad);
    open(&mut state, &mut interaction, AppId::Explorer);
    let status = pinned_taskbar_app_state(&state, AppId::Notepad);
    assert_eq!(status.running_count, 2);
    assert!(!status.focused);
    assert!(!status.all_minimized);
    assert_eq!(preferred_window_for_app(&state, AppId::Notepad), Some(b));
    reduce_desktop(&mut state, &mut interaction, DesktopAction::MinimizeWindow { window_id: b })
        .unwrap();
    assert_eq!(preferred_window_for_app(&state, AppId::Notepad), Some(a));
    assert_eq!(preferred_window_for_app(&state, AppId::Paint), None);
    assert_eq!(pinned_taskbar_apps(), vec![AppId::Explorer, AppId::Terminal, AppId::Notepad, AppId::Calculator]);
}

#[test]
fn cycling_wraps_in_both_directions() {
    let mut state = DesktopState::default();
    let mut interaction = InteractionState::default();
    let a = open(&mut state, &mut interaction, AppId::Notepad);
    let b = open(&mut state, &mut interaction, AppId::Explorer);
    let c = open(&mut state, &mut interaction, AppId::Terminal);
    let windows = state.windows.clone();
    assert_eq!(cycle_selected_running_window(&windows, Some(a), 1), Some(b));
    assert_eq!(cycle_selected_running_window(&windows, Some(a), -1), Some(c));
    assert_eq!(cycle_selected_running_window(&windows, None, 1), Some(a));
    assert_eq!(cycle_selected_running_window(&windows, Some(WindowId(77)), 0), Some(c));
    assert_eq!(cycle_selected_running_window(&vec![], None, 1), None);
}

#[test]
fn button_classes_and_labels() {
    assert_eq!(
        taskbar_window_button_class(true, false, true, true),
        "taskbar-app focused active compact keyboard-selected"
    );
    assert_eq!(taskbar_window_button_class(false, true, false, false), "taskbar-app minimized");
    let status = PinnedTaskbarAppState { running_count: 3, focused: true, all_minimized: false };
    assert_eq!(taskbar_pinned_button_class(status), "taskbar-app taskbar-pinned active focused");
    assert_eq!(
        taskbar_pinned_aria_label(AppId::Terminal, status),
        "Pinned Terminal (3 windows running)"
    );
    let one = PinnedTaskbarAppState { running_count: 1, focused: false, all_minimized: false };
    assert_eq!(taskbar_pinned_aria_label(AppId::Notepad, one), "Pinned Notepad (1 window running)");
    let none = PinnedTaskbarAppState { running_count: 0, focused: false, all_minimized: false };
    assert_eq!(taskbar_pinned_aria_label(AppId::Paint, none), "Pinned Paint (not running)");
    assert_eq!(taskbar_window_button_dom_id(WindowId(42)), "taskbar-window-button-42");
    assert_eq!(resize_edge_class(ResizeEdge::NorthWest), "edge-nw");
    assert_eq!(resize_edge_class(ResizeEdge::South), "edge-s");

    let mut state = DesktopState::default();
    let mut interaction = InteractionState::default();
    open(&mut state, &mut interaction, AppId::Explorer);
    assert_eq!(taskbar_window_aria_label(&state.windows[0]), "Explorer, focused");
}

#[test]
fn popups_stay_inside_the_viewport() {
    let viewport = WindowRect { x: 0, y: 0, w: 800, h: 562 };
    assert_eq!(clamp_desktop_popup_position(viewport, 790, 2, 260, 340), (534, 6));
    assert_eq!(clamp_desktop_popup_position(viewport, 100, 100, 260, 340), (100, 100));
    assert_eq!(clamp_taskbar_popup_position(viewport, 700, 590, 220, 190), (574, 404));
}

#[test]
fn clock_text_formats() {
    let t = TaskbarClockSnapshot { year: 2024, month: 3, day: 9, hour: 0, minute: 5, second: 7 };
    let twelve = TaskbarClockConfig::default();
    assert_eq!(format_taskbar_clock_time(t, twelve), "12:05:07 AM");
    let pm = TaskbarClockSnapshot { hour: 15, ..t };
    assert_eq!(format_taskbar_clock_time(pm, twelve), "03:05:07 PM");
    let day = TaskbarClockConfig { use_24_hour: true, show_date: false };
    assert_eq!(format_taskbar_clock_time(pm, day), "15:05:07");
    assert_eq!(format_taskbar_clock_date(t), "2024-03-09");
    assert_eq!(format_taskbar_clock_aria(t, twelve), "2024-03-09, 12:05:07 AM");
    assert_eq!(format_taskbar_clock_aria(t, day), "00:05:07");
}

#[test]
fn wallpaper_presets_and_alias() {
    assert_eq!(desktop_wallpaper_presets().len(), 6);
    assert_eq!(wallpaper_preset_by_id("slate-grid").id, "teal-grid");
    assert_eq!(wallpaper_preset_by_id("green-hills").label, "Green Hills");
    assert_eq!(wallpaper_preset_by_id("unknown").id, "teal-solid");
    assert_eq!(wallpaper_preset_kind_label(WallpaperPresetKind::Picture), "Picture");
    assert_eq!(wallpaper_option_dom_id("cloud-bands"), "wallpaper-option-cloud-bands");
}

#[test]
fn taskbar_activation_and_pointer_release() {
    let mut state = DesktopState::default();
    let mut interaction = InteractionState::default();
    let a = open(&mut state, &mut interaction, AppId::Notepad);
    let b = open(&mut state, &mut interaction, AppId::Explorer);
    assert_eq!(focus_or_unminimize_action(&state, b), None);
    assert_eq!(
        focus_or_unminimize_action(&state, a),
        Some(DesktopAction::FocusWindow { window_id: a })
    );
    reduce_desktop(&mut state, &mut interaction, DesktopAction::MinimizeWindow { window_id: a })
        .unwrap();
    assert_eq!(
        focus_or_unminimize_action(&state, a),
        Some(DesktopAction::RestoreWindow { window_id: a })
    );
    assert_eq!(focus_or_unminimize_action(&state, WindowId(99)), None);

    let viewport = WindowRect { x: 0, y: 0, w: 800, h: 600 };
    assert!(end_active_pointer_interaction(&interaction, viewport).is_empty());
    reduce_desktop(
        &mut state,
        &mut interaction,
        DesktopAction::BeginMove { window_id: b, pointer: desktop_runtime::model::PointerPosition { x: 1, y: 1 } },
    )
    .unwrap();
    assert_eq!(
        end_active_pointer_interaction(&interaction, viewport),
        vec![DesktopAction::EndMoveWithViewport { viewport }]
    );
}
