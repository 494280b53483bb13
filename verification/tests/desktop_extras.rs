use desktop_runtime::settings::{collection_name, filter_wallpaper_assets, parse_tag_list, settings_tab_class, tags_text};
use desktop_runtime::taskbar::{keyboard_context_menu_anchor, taskbar_key_selection, wallpaper_list_key, WallpaperListKey};
use desktop_runtime::model::WindowRect;
use desktop_runtime::taskbar::{build_taskbar_shortcut_targets, ordered_taskbar_windows, TaskbarShortcutTarget};
use desktop_runtime::app_commands::{
    AppCommand, ConfigService, IpcService, NotificationService, StateService, ThemeService,
    WallpaperService, WindowService,
};
use desktop_runtime::app_contract::{
    ApplicationId, WallpaperAnimationPolicy, WallpaperAssetRecord, WallpaperConfig,
    WallpaperDisplayMode, WallpaperImportRequest, WallpaperMediaKind, WallpaperPosition,
    WallpaperSelection, WallpaperSourceKind,
};
use desktop_runtime::apps::app_icon_name_by_id;
use desktop_runtime::explorer::{
    can_connect_native_folder, format_timestamp, native_explorer_status_label, CapabilityStatus,
};
use desktop_runtime::icons::IconName;
use desktop_runtime::model::{AppId, DesktopState, DesktopTheme, InteractionState, OpenWindowRequest};
use desktop_runtime::persistence::{merge_boot_snapshot, migrate_desktop_snapshot};
use desktop_runtime::reducer::{reduce_desktop, DesktopAction};
use desktop_runtime::settings::{
    asset_label_prefix, asset_to_config, restore_paint_placeholder_state, skin_presets,
    wallpaper_display_mode_label, wallpaper_display_modes, wallpaper_position_label,
    wallpaper_positions, PaintPlaceholderState, SettingsAppState, SettingsTab,
};
use desktop_runtime::storage::build_app_state_envelope;
use desktop_runtime::taskbar::{build_taskbar_tray_widgets, TaskbarTrayWidgetAction};
use desktop_runtime::ui_tokens::{
    bool_token, merge_layout_class, ButtonSize, ButtonVariant, Elevation, FieldVariant, LayoutAlign,
    LayoutGap, LayoutJustify, LayoutPadding, ProgressVariant, StepStatus, SurfaceVariant, TextRole,
    TextTone,
};
use desktop_runtime::wallpaper_host::{NoopWallpaperAssetService, WallpaperAssetMetadataPatch};

fn object_with(key: &str, value: serde_json::Value) -> serde_json::Value {
    let mut map = serde_json::Map::new();
    map.insert(key.to_string(), value);
    serde_json::Value::Object(map)
}

#[test]
fn tray_widgets_count_windows_and_show_flags() {
    let mut state = DesktopState::default();
    let mut interaction = InteractionState::default();
    let widgets = build_taskbar_tray_widgets(&state);
    assert_eq!(widgets.len(), 5);
    assert_eq!(widgets[0].id, "win-count");
    assert_eq!(widgets[0].value, "0");
    assert_eq!(widgets[2].value, "IDLE");
    assert_eq!(widgets[2].icon, IconName::WifiOff);
    assert_eq!(widgets[3].value, "OFF");
    assert_eq!(widgets[3].action, TaskbarTrayWidgetAction::ToggleHighContrast);
    assert_eq!(widgets[4].icon, IconName::MotionOn);

    reduce_desktop(&mut state, &mut interaction, DesktopAction::OpenWindow(OpenWindowRequest::new(AppId::Dialup)))
        .expect("open");
    reduce_desktop(&mut state, &mut interaction, DesktopAction::OpenWindow(OpenWindowRequest::new(AppId::Notepad)))
        .expect("open");
    let notepad = state.windows[1].id;
    reduce_desktop(&mut state, &mut interaction, DesktopAction::MinimizeWindow { window_id: notepad })
        .expect("minimize");
    state.theme.high_contrast = true;
    let widgets = build_taskbar_tray_widgets(&state);
    assert_eq!(widgets[0].value, "2");
    assert_eq!(widgets[1].value, "1");
    assert_eq!(widgets[2].value, "ON");
    assert_eq!(widgets[2].pressed, Some(true));
    assert_eq!(widgets[3].value, "ON");
    assert_eq!(widgets[3].icon, IconName::Checkmark);

    let dialup = state.windows[0].id;
    reduce_desktop(&mut state, &mut interaction, DesktopAction::MinimizeWindow { window_id: dialup })
        .expect("minimize");
    let widgets = build_taskbar_tray_widgets(&state);
    assert_eq!(widgets[1].value, "2");
    assert_eq!(widgets[2].value, "IDLE");
}

#[test]
fn app_icons_follow_canonical_ids() {
    let id = |raw: &str| ApplicationId::trusted(raw.to_string());
    assert_eq!(app_icon_name_by_id(&id("system.explorer")), IconName::ExplorerFolder);
    assert_eq!(app_icon_name_by_id(&id("system.dialup")), IconName::Connect);
    assert_eq!(app_icon_name_by_id(&id("acme.tool")), IconName::WindowMultiple);
}

#[test]
fn ui_tokens_and_defaults() {
    assert_eq!(SurfaceVariant::default(), SurfaceVariant::Standard);
    assert_eq!(SurfaceVariant::Inset.token(), "inset");
    assert_eq!(Elevation::default().token(), "flat");
    assert_eq!(Elevation::Pressed.token(), "pressed");
    assert_eq!(ButtonVariant::Danger.token(), "danger");
    assert_eq!(ButtonSize::default().token(), "md");
    assert_eq!(FieldVariant::Inset.token(), "inset");
    assert_eq!(TextRole::default().token(), "body");
    assert_eq!(TextTone::Warning.token(), "warning");
    assert_eq!(LayoutGap::NoGap.token(), "none");
    assert_eq!(LayoutPadding::default().token(), "md");
    assert_eq!(LayoutAlign::default().token(), "stretch");
    assert_eq!(LayoutJustify::Between.token(), "between");
    assert_eq!(StepStatus::Error.token(), "error");
    assert_eq!(ProgressVariant::default(), ProgressVariant::Standard);
}

#[test]
fn layout_classes_merge_only_non_empty_extras() {
    assert_eq!(merge_layout_class("ui-menu-surface", None), "ui-menu-surface");
    assert_eq!(merge_layout_class("ui-menu-surface", Some("")), "ui-menu-surface");
    assert_eq!(merge_layout_class("ui-toggle-row", Some("wide")), "ui-toggle-row wide");
    assert_eq!(bool_token(true), "true");
    assert_eq!(bool_token(false), "false");
}

#[test]
fn services_build_the_matching_commands() {
    assert_eq!(WindowService.set_title("Docs".to_string()), AppCommand::SetWindowTitle { title: "Docs".to_string() });
    assert_eq!(
        StateService.persist_shared_state("k".to_string(), serde_json::Value::Bool(true)),
        AppCommand::PersistSharedState { key: "k".to_string(), state: serde_json::Value::Bool(true) }
    );
    assert_eq!(
        ConfigService.save("ui".to_string(), "zoom".to_string(), serde_json::Value::Null),
        AppCommand::SaveConfig { namespace: "ui".to_string(), key: "zoom".to_string(), value: serde_json::Value::Null }
    );
    assert_eq!(ThemeService.set_high_contrast(true), AppCommand::SetDesktopHighContrast { enabled: true });
    assert_eq!(WallpaperService.apply_preview(), AppCommand::ApplyWallpaperPreview);
    assert_eq!(
        WallpaperService.set_favorite("a1".to_string(), true),
        AppCommand::SetWallpaperFavorite { asset_id: "a1".to_string(), favorite: true }
    );
    assert_eq!(
        NotificationService.notify("t".to_string(), "b".to_string()),
        AppCommand::Notify { title: "t".to_string(), body: "b".to_string() }
    );
    assert_eq!(
        IpcService.publish("topic".to_string(), serde_json::Value::Null),
        AppCommand::PublishEvent {
            topic: "topic".to_string(),
            payload: serde_json::Value::Null,
            correlation_id: None,
            reply_to: None
        }
    );
    assert_eq!(
        IpcService.request("topic".to_string(), serde_json::Value::Null, "c1".to_string(), "r1".to_string()),
        AppCommand::PublishEvent {
            topic: "topic".to_string(),
            payload: serde_json::Value::Null,
            correlation_id: Some("c1".to_string()),
            reply_to: Some("r1".to_string())
        }
    );
}

#[test]
fn noop_wallpaper_service_refuses_changes() {
    let service = NoopWallpaperAssetService;
    assert_eq!(
        service.import_from_picker(WallpaperImportRequest::default()).unwrap_err(),
        "wallpaper asset service unavailable: import_from_picker"
    );
    assert_eq!(
        service.update_asset_metadata("a", WallpaperAssetMetadataPatch::default()).unwrap_err(),
        "wallpaper asset service unavailable: update_asset_metadata"
    );
    assert_eq!(service.delete_asset("a").unwrap_err(), "wallpaper asset service unavailable: delete_asset");
    let library = service.list_library().expect("empty library");
    assert!(library.assets.is_empty());
    assert_eq!(library.soft_limit_bytes, 512 * 1024 * 1024);
    assert_eq!(service.resolve_source(WallpaperSelection::default()).unwrap(), None);
}

#[test]
fn desktop_namespace_migration_supports_schema_zero() {
    let snapshot = DesktopState::default().snapshot();
    let payload = object_with("schema_version", serde_json::Value::from(0));
    let envelope = build_app_state_envelope("system.desktop", 0, payload);
    let migrated = migrate_desktop_snapshot(0, &envelope, |value: &serde_json::Value| {
        if value.is_object() {
            Ok(snapshot.clone())
        } else {
            Err("not a snapshot".to_string())
        }
    })
    .expect("schema-zero migration should succeed");
    assert!(migrated.is_some(), "expected migrated desktop snapshot");
}

#[test]
fn desktop_migration_skips_newer_schemas_and_surfaces_decode_errors() {
    let envelope = build_app_state_envelope("system.desktop", 0, serde_json::Value::Null);
    let newer = migrate_desktop_snapshot(1, &envelope, |_: &serde_json::Value| Err("unused".to_string()));
    assert_eq!(newer, Ok(None));
    let failed = migrate_desktop_snapshot(0, &envelope, |_: &serde_json::Value| Err("bad payload".to_string()));
    assert_eq!(failed, Err("bad payload".to_string()));
}

#[test]
fn boot_snapshot_merges_theme_and_history() {
    assert!(merge_boot_snapshot(None, None, None).is_none());
    let mut theme = DesktopTheme::default();
    theme.high_contrast = true;
    let only_theme = merge_boot_snapshot(None, Some(theme.clone()), None).expect("theme only");
    assert!(only_theme.theme.high_contrast);
    assert!(only_theme.windows.is_empty());
    assert!(only_theme.terminal_history.is_empty());
    let only_history = merge_boot_snapshot(None, None, Some(vec!["ls".to_string()])).expect("history");
    assert_eq!(only_history.theme, DesktopTheme::default());
    assert_eq!(only_history.terminal_history, vec!["ls".to_string()]);
    let mut state = DesktopState::default();
    state.terminal_history = vec!["old".to_string()];
    let merged = merge_boot_snapshot(Some(state.snapshot()), Some(theme), Some(vec!["new".to_string()]))
        .expect("merged");
    assert!(merged.theme.high_contrast);
    assert_eq!(merged.terminal_history, vec!["new".to_string()]);
    let kept = merge_boot_snapshot(Some(state.snapshot()), None, None).expect("kept");
    assert_eq!(kept.terminal_history, vec!["old".to_string()]);
}

fn asset(source_kind: WallpaperSourceKind, media_kind: WallpaperMediaKind) -> WallpaperAssetRecord {
    WallpaperAssetRecord {
        asset_id: "a-1".to_string(),
        source_kind,
        media_kind,
        ..WallpaperAssetRecord::default()
    }
}

#[test]
fn settings_choices_and_labels() {
    assert_eq!(SettingsAppState::default().active_tab, SettingsTab::Wallpaper);
    assert_eq!(SettingsTab::Accessibility.label(), "Accessibility");
    let skins = skin_presets();
    assert_eq!(skins.len(), 3);
    assert_eq!(skins[1].id, "classic-xp");
    assert_eq!(skins[2].label, "Classic 95");
    assert_eq!(wallpaper_display_modes().len(), 5);
    assert_eq!(wallpaper_display_mode_label(WallpaperDisplayMode::Tile), "Tile");
    let positions = wallpaper_positions();
    assert_eq!(positions[0], WallpaperPosition::TopLeft);
    assert_eq!(positions[8], WallpaperPosition::BottomRight);
    assert_eq!(wallpaper_position_label(WallpaperPosition::BottomLeft), "Bottom left");
    assert_eq!(asset_label_prefix(&asset(WallpaperSourceKind::BuiltIn, WallpaperMediaKind::Svg)), "Built-in");
}

#[test]
fn assets_become_configs_keeping_layout() {
    let current = WallpaperConfig {
        display_mode: WallpaperDisplayMode::Tile,
        position: WallpaperPosition::Top,
        ..WallpaperConfig::default()
    };
    let video = asset_to_config(&asset(WallpaperSourceKind::Imported, WallpaperMediaKind::Video), &current);
    assert_eq!(video.selection, WallpaperSelection::Imported { asset_id: "a-1".to_string() });
    assert_eq!(video.display_mode, WallpaperDisplayMode::Tile);
    assert_eq!(video.position, WallpaperPosition::Top);
    assert_eq!(video.animation, WallpaperAnimationPolicy::LoopMuted);
    let still = asset_to_config(&asset(WallpaperSourceKind::BuiltIn, WallpaperMediaKind::StaticImage), &current);
    assert_eq!(still.selection, WallpaperSelection::BuiltIn { wallpaper_id: "a-1".to_string() });
    assert_eq!(still.animation, WallpaperAnimationPolicy::Static);
}

#[test]
fn paint_state_restore_repairs_blank_fields_and_clamps_brush() {
    let restored = restore_paint_placeholder_state(PaintPlaceholderState {
        tool: "  ".to_string(),
        brush_size: 0,
        color_hex: String::new(),
        canvas_preset: "1024x768".to_string(),
        status: "\t".to_string(),
    });
    assert_eq!(restored.tool, "brush");
    assert_eq!(restored.brush_size, 1);
    assert_eq!(restored.color_hex, "#0b5fff");
    assert_eq!(restored.canvas_preset, "1024x768");
    assert_eq!(restored.status, "Canvas placeholder ready");
    let big = restore_paint_placeholder_state(PaintPlaceholderState { brush_size: 200, ..PaintPlaceholderState::default() });
    assert_eq!(big.brush_size, 64);
    assert_eq!(restore_paint_placeholder_state(PaintPlaceholderState::default()), PaintPlaceholderState::default());
}

#[test]
fn explorer_status_helpers() {
    assert!(can_connect_native_folder(CapabilityStatus::Available));
    assert!(can_connect_native_folder(CapabilityStatus::RequiresUserActivation));
    assert!(!can_connect_native_folder(CapabilityStatus::Unavailable));
    assert_eq!(
        native_explorer_status_label(CapabilityStatus::Unavailable),
        "Native folder access is unavailable on this host."
    );
    assert_eq!(format_timestamp(12_999), "12s");
    assert_eq!(format_timestamp(0), "0s");
}

#[test]
fn taskbar_order_follows_stacking_then_id() {
    let mut state = DesktopState::default();
    let mut interaction = InteractionState::default();
    for app in [AppId::Explorer, AppId::Notepad, AppId::Terminal] {
        reduce_desktop(&mut state, &mut interaction, DesktopAction::OpenWindow(OpenWindowRequest::new(app)))
            .expect("open");
    }
    let first = state.windows[0].id;
    reduce_desktop(&mut state, &mut interaction, DesktopAction::FocusWindow { window_id: first }).expect("focus");
    let ordered = ordered_taskbar_windows(&state);
    let mut expected: Vec<_> = state.windows.iter().map(|w| (w.z_index, w.id.0)).collect();
    expected.sort();
    let got: Vec<_> = ordered.iter().map(|w| (w.z_index, w.id.0)).collect();
    assert_eq!(got, expected);
    let targets = build_taskbar_shortcut_targets(&state);
    assert_eq!(targets.len(), 7);
    assert_eq!(targets[0], TaskbarShortcutTarget::Pinned(AppId::Explorer));
    assert_eq!(targets[3], TaskbarShortcutTarget::Pinned(AppId::Calculator));
    assert_eq!(targets[6], TaskbarShortcutTarget::Window(first));
}

#[test]
fn wallpaper_list_keys_step_without_wrapping() {
    assert_eq!(wallpaper_list_key("teal-grid", "ArrowUp"), WallpaperListKey::Select("teal-solid".to_string()));
    assert_eq!(wallpaper_list_key("teal-solid", "ArrowUp"), WallpaperListKey::Select("teal-solid".to_string()));
    assert_eq!(wallpaper_list_key("teal-solid", "ArrowDown"), WallpaperListKey::Select("teal-grid".to_string()));
    assert_eq!(wallpaper_list_key("sunset-lake", "ArrowDown"), WallpaperListKey::Select("sunset-lake".to_string()));
    assert_eq!(wallpaper_list_key("unknown", "ArrowDown"), WallpaperListKey::Select("teal-grid".to_string()));
    assert_eq!(wallpaper_list_key("cloud-bands", "Home"), WallpaperListKey::Select("teal-solid".to_string()));
    assert_eq!(wallpaper_list_key("cloud-bands", "End"), WallpaperListKey::Select("sunset-lake".to_string()));
    assert_eq!(wallpaper_list_key("cloud-bands", "Enter"), WallpaperListKey::Preview);
    assert_eq!(wallpaper_list_key("cloud-bands", " "), WallpaperListKey::Preview);
    assert_eq!(wallpaper_list_key("cloud-bands", "a"), WallpaperListKey::Ignore);
}

#[test]
fn taskbar_keys_move_the_selection() {
    let mut state = DesktopState::default();
    let mut interaction = InteractionState::default();
    assert_eq!(taskbar_key_selection(&state, None, "ArrowRight"), None);
    for app in [AppId::Explorer, AppId::Notepad, AppId::Terminal] {
        reduce_desktop(&mut state, &mut interaction, DesktopAction::OpenWindow(OpenWindowRequest::new(app)))
            .expect("open");
    }
    let ids: Vec<_> = state.windows.iter().map(|w| w.id).collect();
    assert_eq!(taskbar_key_selection(&state, None, "Home"), Some(ids[0]));
    assert_eq!(taskbar_key_selection(&state, None, "End"), Some(ids[2]));
    assert_eq!(taskbar_key_selection(&state, Some(ids[2]), "ArrowRight"), Some(ids[0]));
    assert_eq!(taskbar_key_selection(&state, Some(ids[0]), "ArrowLeft"), Some(ids[2]));
    assert_eq!(taskbar_key_selection(&state, Some(ids[0]), "x"), None);
}

#[test]
fn keyboard_menu_anchor_stays_inside() {
    assert_eq!(keyboard_context_menu_anchor(WindowRect { x: 0, y: 0, w: 1000, h: 700 }), (500, 558));
    assert_eq!(keyboard_context_menu_anchor(WindowRect { x: 0, y: 0, w: 20, h: 100 }), (24, 24));
}

#[test]
fn preview_cache_keys_prefix_the_path() {
    assert_eq!(
        desktop_runtime::explorer::explorer_preview_cache_key("/Documents/readme.txt"),
        "file-preview:/Documents/readme.txt"
    );
}

#[test]
fn tag_lists_split_trim_and_drop_blanks() {
    assert_eq!(parse_tag_list(" sky, blue ,, night ,"), vec!["sky", "blue", "night"]);
    assert!(parse_tag_list("").is_empty());
    assert_eq!(parse_tag_list("one"), vec!["one"]);
    let mut asset = WallpaperAssetRecord::default();
    asset.tags = vec!["a".to_string(), "b c".to_string()];
    assert_eq!(tags_text(&asset), "a, b c");
    assert_eq!(collection_name("  Trips  ").as_deref(), Some("Trips"));
    assert_eq!(collection_name("   "), None);
    assert_eq!(settings_tab_class(true), "app-action settings-tab active");
}

#[test]
fn wallpaper_search_matches_names_and_tags_ignoring_case() {
    let mk = |name: &str, tags: &[&str]| WallpaperAssetRecord {
        display_name: name.to_string(),
        tags: tags.iter().map(|t| t.to_string()).collect(),
        ..WallpaperAssetRecord::default()
    };
    let assets = vec![mk("Sunset Lake", &["warm"]), mk("Grid", &["Blue", "Pattern"]), mk("Clouds", &[])];
    assert_eq!(filter_wallpaper_assets(&assets, ""), vec![0, 1, 2]);
    assert_eq!(filter_wallpaper_assets(&assets, "  LAKE "), vec![0]);
    assert_eq!(filter_wallpaper_assets(&assets, "blue"), vec![1]);
    assert_eq!(filter_wallpaper_assets(&assets, "u"), vec![0, 1, 2]);
    assert_eq!(filter_wallpaper_assets(&assets, "cl"), vec![2]);
    assert!(filter_wallpaper_assets(&assets, "zzz").is_empty());
}

#[test]
fn ui_showcase_defaults() {
    use_showcase();
}

fn use_showcase() {
    let state = desktop_runtime::ui_showcase::UiShowcaseState::default();
    assert_eq!(state.binary_choice, desktop_runtime::ui_showcase::BinaryChoice::Yes);
    assert_eq!(state.binary_choice.label(), "Yes");
    assert_eq!(desktop_runtime::ui_showcase::BinaryChoice::No.label(), "No");
    assert_eq!((state.slider_value, state.progress_value, state.dial_value), (64, 72, 58));
    assert_eq!(state.dropdown_value, "Soft Surface");
    assert!(state.switch_enabled && !state.modal_open);
}
