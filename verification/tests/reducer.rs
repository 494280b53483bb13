use desktop_runtime::model::{
    AppId, DeepLinkOpenTarget, DesktopState, InteractionState, OpenWindowRequest,
    PointerPosition, WindowId, WindowRect,
};
use desktop_runtime::reducer::{
    build_open_request_from_deeplink, reduce_desktop, DesktopAction, ReducerError, RuntimeEffect,
};

fn object_with(key: &str, value: &str) -> serde_json::Value {
    let mut map = serde_json::Map::new();
    map.insert(key.to_string(), serde_json::Value::String(value.to_string()));
    serde_json::Value::Object(map)
}

fn open(state: &mut DesktopState, interaction: &mut InteractionState, app_id: AppId) -> WindowId {
    let _ = reduce_desktop(
        state,
        interaction,
        DesktopAction::OpenWindow(OpenWindowRequest::new(app_id)),
    )
    .expect("open window");
    state.windows.last().expect("window").id
}

#[test]
fn open_window_focuses_new_window_and_updates_stack() {
    let mut state = DesktopState::default();
    let mut interaction = InteractionState::default();

    let first = open(&mut state, &mut interaction, AppId::Explorer);
    let second = open(&mut state, &mut interaction, AppId::Notepad);

    assert_eq!(state.focused_window_id(), Some(second));
    assert_eq!(state.windows.len(), 2);
    assert_eq!(state.windows[0].id, first);
    assert_eq!(state.windows[1].id, second);
    assert_eq!(state.windows[1].z_index, 2);
}

#[test]
fn taskbar_toggle_minimizes_if_focused_and_restores_if_minimized() {
    let mut state = DesktopState::default();
    let mut interaction = InteractionState::default();

    let win = open(&mut state, &mut interaction, AppId::Explorer);
    reduce_desktop(
        &mut state,
        &mut interaction,
        DesktopAction::ToggleTaskbarWindow { window_id: win },
    )
    .expect("minimize");

    let record = state.windows.iter().find(|w| w.id == win).unwrap();
    assert!(record.minimized);
    assert!(!record.is_focused);

    reduce_desktop(
        &mut state,
        &mut interaction,
        DesktopAction::ToggleTaskbarWindow { window_id: win },
    )
    .expect("restore");
    let record = state.windows.iter().find(|w| w.id == win).unwrap();
    assert!(!record.minimized);
    assert!(record.is_focused);
}

#[test]
fn focusing_already_focused_top_window_is_noop_for_stack_order() {
    let mut state = DesktopState::default();
    let mut interaction = InteractionState::default();

    let first = open(&mut state, &mut interaction, AppId::Explorer);
    let second = open(&mut state, &mut interaction, AppId::Calculator);
    let before = state.windows.clone();

    let effects = reduce_desktop(
        &mut state,
        &mut interaction,
        DesktopAction::FocusWindow { window_id: second },
    )
    .expect("focus focused window");

    assert_eq!(state.windows, before);
    assert_eq!(state.focused_window_id(), Some(second));
    assert_ne!(state.focused_window_id(), Some(first));
    assert!(effects.contains(&RuntimeEffect::FocusWindowInput(second)));
}

#[test]
fn moving_window_updates_rect_during_drag_and_persists_on_end() {
    let mut state = DesktopState::default();
    let mut interaction = InteractionState::default();

    let win = open(&mut state, &mut interaction, AppId::Terminal);
    let start_rect = state.windows.iter().find(|w| w.id == win).unwrap().rect;

    reduce_desktop(
        &mut state,
        &mut interaction,
        DesktopAction::BeginMove {
            window_id: win,
            pointer: PointerPosition { x: 10, y: 10 },
        },
    )
    .unwrap();
    reduce_desktop(
        &mut state,
        &mut interaction,
        DesktopAction::UpdateMove {
            pointer: PointerPosition { x: 35, y: 50 },
        },
    )
    .unwrap();

    let moved = state.windows.iter().find(|w| w.id == win).unwrap().rect;
    assert_eq!(moved.x, start_rect.x + 25);
    assert_eq!(moved.y, start_rect.y + 40);
    let effects = reduce_desktop(&mut state, &mut interaction, DesktopAction::EndMove).unwrap();
    assert!(effects.contains(&RuntimeEffect::PersistLayout));
}

#[test]
fn end_move_with_viewport_snaps_window_to_left_half() {
    let mut state = DesktopState::default();
    let mut interaction = InteractionState::default();
    let viewport = WindowRect {
        x: 0,
        y: 0,
        w: 1000,
        h: 700,
    };

    let win = open(&mut state, &mut interaction, AppId::Explorer);
    reduce_desktop(
        &mut state,
        &mut interaction,
        DesktopAction::BeginMove {
            window_id: win,
            pointer: PointerPosition { x: 0, y: 0 },
        },
    )
    .unwrap();
    reduce_desktop(
        &mut state,
        &mut interaction,
        DesktopAction::UpdateMove {
            pointer: PointerPosition { x: -35, y: 80 },
        },
    )
    .unwrap();

    reduce_desktop(
        &mut state,
        &mut interaction,
        DesktopAction::EndMoveWithViewport { viewport },
    )
    .unwrap();

    let record = state.windows.iter().find(|w| w.id == win).unwrap();
    assert_eq!(record.rect.x, 0);
    assert_eq!(record.rect.y, 0);
    assert_eq!(record.rect.w, 500);
    assert_eq!(record.rect.h, 700);
    assert!(!record.maximized);
}

#[test]
fn end_move_with_viewport_snaps_window_to_top_maximize() {
    let mut state = DesktopState::default();
    let mut interaction = InteractionState::default();
    let viewport = WindowRect {
        x: 0,
        y: 0,
        w: 1200,
        h: 760,
    };

    let win = open(&mut state, &mut interaction, AppId::Terminal);
    reduce_desktop(
        &mut state,
        &mut interaction,
        DesktopAction::BeginMove {
            window_id: win,
            pointer: PointerPosition { x: 0, y: 0 },
        },
    )
    .unwrap();
    reduce_desktop(
        &mut state,
        &mut interaction,
        DesktopAction::UpdateMove {
            pointer: PointerPosition { x: 150, y: -40 },
        },
    )
    .unwrap();

    reduce_desktop(
        &mut state,
        &mut interaction,
        DesktopAction::EndMoveWithViewport { viewport },
    )
    .unwrap();

    let record = state.windows.iter().find(|w| w.id == win).unwrap();
    assert_eq!(record.rect, viewport);
    assert!(record.maximized);
    assert!(record.restore_rect.is_some());
}

#[test]
fn missing_window_actions_fail_and_change_nothing() {
    let mut state = DesktopState::default();
    let mut interaction = InteractionState::default();
    open(&mut state, &mut interaction, AppId::Explorer);
    let before = state.clone();
    let result = reduce_desktop(
        &mut state,
        &mut interaction,
        DesktopAction::CloseWindow { window_id: WindowId(99) },
    );
    assert_eq!(result, Err(ReducerError::WindowNotFound));
    assert_eq!(state, before);
}

#[test]
fn close_removes_window_and_refocuses_top() {
    let mut state = DesktopState::default();
    let mut interaction = InteractionState::default();
    let first = open(&mut state, &mut interaction, AppId::Explorer);
    let second = open(&mut state, &mut interaction, AppId::Notepad);
    let effects = reduce_desktop(
        &mut state,
        &mut interaction,
        DesktopAction::CloseWindow { window_id: second },
    )
    .unwrap();
    assert_eq!(effects, vec![RuntimeEffect::PersistLayout]);
    assert_eq!(state.windows.len(), 1);
    assert_eq!(state.windows[0].id, first);
    assert_eq!(state.focused_window_id(), Some(first));
    assert_eq!(state.windows[0].z_index, 1);
}

#[test]
fn maximize_then_restore_returns_original_rect() {
    let mut state = DesktopState::default();
    let mut interaction = InteractionState::default();
    let win = open(&mut state, &mut interaction, AppId::Notepad);
    let start_rect = state.windows[0].rect;
    let viewport = WindowRect { x: 0, y: 0, w: 1024, h: 700 };
    reduce_desktop(
        &mut state,
        &mut interaction,
        DesktopAction::MaximizeWindow { window_id: win, viewport },
    )
    .unwrap();
    assert!(state.windows[0].maximized);
    assert_eq!(state.windows[0].rect, viewport);
    reduce_desktop(&mut state, &mut interaction, DesktopAction::RestoreWindow { window_id: win })
        .unwrap();
    assert!(!state.windows[0].maximized);
    assert_eq!(state.windows[0].rect, start_rect);
}

#[test]
fn terminal_history_keeps_newest_hundred() {
    let mut state = DesktopState::default();
    let mut interaction = InteractionState::default();
    for i in 0..105 {
        let effects = reduce_desktop(
            &mut state,
            &mut interaction,
            DesktopAction::PushTerminalHistory { command: format!("cmd {i}") },
        )
        .unwrap();
        assert_eq!(effects, vec![RuntimeEffect::PersistTerminalHistory]);
    }
    assert_eq!(state.terminal_history.len(), 100);
    assert_eq!(state.terminal_history[0], "cmd 5");
    assert_eq!(state.terminal_history[99], "cmd 104");
    let effects = reduce_desktop(
        &mut state,
        &mut interaction,
        DesktopAction::PushTerminalHistory { command: "   ".to_string() },
    )
    .unwrap();
    assert!(effects.is_empty());
    assert_eq!(state.terminal_history.len(), 100);
}

#[test]
fn snapshot_round_trip_restores_layout_with_fresh_ids() {
    let mut state = DesktopState::default();
    let mut interaction = InteractionState::default();
    open(&mut state, &mut interaction, AppId::Explorer);
    let last = open(&mut state, &mut interaction, AppId::Terminal);
    state.start_menu_open = true;
    let restored = DesktopState::from_snapshot(state.snapshot());
    assert_eq!(restored.windows, state.windows);
    assert_eq!(restored.next_window_id, last.0 + 1);
    assert!(!restored.start_menu_open);
    assert_eq!(restored.terminal_history, state.terminal_history);
}

#[test]
fn opened_windows_cascade_and_get_default_titles() {
    let mut state = DesktopState::default();
    let mut interaction = InteractionState::default();
    open(&mut state, &mut interaction, AppId::Explorer);
    open(&mut state, &mut interaction, AppId::Paint);
    assert_eq!(state.windows[0].title, "Explorer");
    assert_eq!(state.windows[0].icon_id, "folder");
    assert_eq!(state.windows[0].rect, WindowRect { x: 40, y: 48, w: 420, h: 300 });
    assert_eq!(state.windows[1].rect, WindowRect { x: 60, y: 68, w: 420, h: 300 });
}

#[test]
fn dialup_open_plays_sound_when_audio_enabled() {
    let mut state = DesktopState::default();
    let mut interaction = InteractionState::default();
    let effects = reduce_desktop(
        &mut state,
        &mut interaction,
        DesktopAction::OpenWindow(OpenWindowRequest::new(AppId::Dialup)),
    )
    .unwrap();
    assert_eq!(effects[0], RuntimeEffect::PersistLayout);
    assert_eq!(effects[1], RuntimeEffect::FocusWindowInput(WindowId(1)));
    if state.theme.audio_enabled {
        assert_eq!(effects[2], RuntimeEffect::PlaySound("dialup-open"));
    } else {
        assert_eq!(effects.len(), 2);
    }
}

#[test]
fn deeplink_requests_for_notes_and_projects() {
    let note = build_open_request_from_deeplink(DeepLinkOpenTarget::NotesSlug("todo".to_string()));
    assert_eq!(note.app_id, AppId::Notepad);
    assert_eq!(note.title.as_deref(), Some("Note - todo"));
    assert_eq!(note.persist_key.as_deref(), Some("notes:todo"));
    assert_eq!(note.launch_params, object_with("slug", "todo"));

    let project =
        build_open_request_from_deeplink(DeepLinkOpenTarget::ProjectSlug("site".to_string()));
    assert_eq!(project.app_id, AppId::Explorer);
    assert_eq!(project.title.as_deref(), Some("Project - site"));
    assert_eq!(project.persist_key.as_deref(), Some("projects:site"));
    assert_eq!(project.launch_params, object_with("project_slug", "site"));

    let app = build_open_request_from_deeplink(DeepLinkOpenTarget::App(AppId::Calculator));
    assert_eq!(app.app_id, AppId::Calculator);
    assert!(app.title.is_none());
}
