use desktop_runtime::app_commands::CommandService;
use desktop_runtime::display_properties::{escape_outcome, EscapeOutcome};
use desktop_runtime::explorer::{listed_rows, row_key_action, RowKeyOutcome};
use desktop_runtime::model::{
    AppId, DeepLinkOpenTarget, DesktopState, InteractionState, OpenWindowRequest, WindowFlags,
};
use desktop_runtime::reducer::{build_open_request_from_deeplink, reduce_desktop, DesktopAction};
use desktop_runtime::shell_commands::descriptor;
use desktop_runtime::ui_showcase::UiShowcaseState;

fn strings(parts: &[&str]) -> Vec<String> {
    parts.iter().map(|p| p.to_string()).collect()
}

fn focused_count(state: &DesktopState) -> usize {
    state.windows.iter().filter(|w| w.is_focused).count()
}

#[test]
fn deep_link_requests_use_default_flags() {
    for target in [
        DeepLinkOpenTarget::App(AppId::Explorer),
        DeepLinkOpenTarget::NotesSlug("todo".to_string()),
        DeepLinkOpenTarget::ProjectSlug("site".to_string()),
    ] {
        let request = build_open_request_from_deeplink(target);
        assert_eq!(request.flags, WindowFlags::default());
        assert!(request.flags.resizable && request.flags.minimizable && request.flags.maximizable);
        assert_eq!(request.flags.modal_parent, None);
    }
}

#[test]
fn one_window_holds_focus_while_any_is_shown() {
    let mut state = DesktopState::default();
    let mut interaction = InteractionState::default();
    assert_eq!(focused_count(&state), 0);
    for app in [AppId::Explorer, AppId::Notepad] {
        reduce_desktop(&mut state, &mut interaction, DesktopAction::OpenWindow(OpenWindowRequest::new(app)))
            .unwrap();
        assert_eq!(focused_count(&state), 1);
    }
    let ids: Vec<_> = state.windows.iter().map(|w| w.id).collect();
    reduce_desktop(&mut state, &mut interaction, DesktopAction::MinimizeWindow { window_id: ids[1] }).unwrap();
    assert_eq!(focused_count(&state), 1);
    reduce_desktop(&mut state, &mut interaction, DesktopAction::MinimizeWindow { window_id: ids[0] }).unwrap();
    assert_eq!(focused_count(&state), 0);
    for (i, w) in state.windows.iter().enumerate() {
        assert_eq!(w.z_index, (i + 1) as u32);
    }
}

#[test]
fn listing_hides_dot_entries_unless_shown() {
    let names = strings(&["docs", ".git", "a.txt", ".env"]);
    assert_eq!(listed_rows(&names, false), vec![0, 2]);
    assert_eq!(listed_rows(&names, true), vec![0, 1, 2, 3]);
    assert_eq!(listed_rows(&Vec::new(), false), Vec::<usize>::new());
}

#[test]
fn row_keys_move_and_open_the_selection() {
    let rows = strings(&["/a", "/b", "/c"]);
    assert_eq!(row_key_action(&rows, Some("/a"), "ArrowDown"), Some(RowKeyOutcome::Select(1)));
    assert_eq!(row_key_action(&rows, Some("/c"), "ArrowDown"), Some(RowKeyOutcome::Select(2)));
    assert_eq!(row_key_action(&rows, None, "ArrowDown"), Some(RowKeyOutcome::Select(0)));
    assert_eq!(row_key_action(&rows, Some("/a"), "ArrowUp"), Some(RowKeyOutcome::Select(0)));
    assert_eq!(row_key_action(&rows, Some("/zz"), "ArrowUp"), Some(RowKeyOutcome::Select(2)));
    assert_eq!(row_key_action(&rows, Some("/b"), "Home"), Some(RowKeyOutcome::Select(0)));
    assert_eq!(row_key_action(&rows, Some("/b"), "End"), Some(RowKeyOutcome::Select(2)));
    assert_eq!(row_key_action(&rows, Some("/b"), " "), Some(RowKeyOutcome::Select(1)));
    assert_eq!(row_key_action(&rows, None, "Spacebar"), Some(RowKeyOutcome::Select(0)));
    assert_eq!(row_key_action(&rows, Some("/c"), "Enter"), Some(RowKeyOutcome::Open(2)));
    assert_eq!(row_key_action(&rows, Some("/c"), "x"), None);
    assert_eq!(row_key_action(&Vec::new(), None, "Enter"), None);
}

#[test]
fn slider_caps_at_hundred_and_drives_progress() {
    let mut state = UiShowcaseState::default();
    state.set_slider(40);
    assert_eq!((state.slider_value, state.progress_value), (40, 40));
    state.set_slider(250);
    assert_eq!((state.slider_value, state.progress_value), (100, 100));
    assert_eq!(state.dial_value, 58);
}

#[test]
fn escape_closes_menu_before_dialog() {
    assert_eq!(escape_outcome(false, "Escape", true, true), EscapeOutcome::CloseContextMenu);
    assert_eq!(escape_outcome(false, "Escape", false, true), EscapeOutcome::CancelDisplayProperties);
    assert_eq!(escape_outcome(false, "Escape", false, false), EscapeOutcome::Ignore);
    assert_eq!(escape_outcome(true, "Escape", true, true), EscapeOutcome::Ignore);
    assert_eq!(escape_outcome(false, "Enter", true, true), EscapeOutcome::Ignore);
}

#[test]
fn disabled_command_service_rejects_requests() {
    let disabled = CommandService::disabled();
    assert_eq!(disabled.create_session("/".to_string()), Err("command sessions are unavailable".to_string()));
    let d = descriptor("x.y", &[], "s", "x.y", vec![], vec![], vec![]);
    assert_eq!(
        disabled.register_command(d.clone()).unwrap_err(),
        "command registration is unavailable"
    );
    assert_eq!(disabled.register_provider(), Err("command registration is unavailable".to_string()));
    let service = CommandService::new();
    assert_eq!(service.create_session("/home".to_string()), Ok("/home".to_string()));
    assert_eq!(service.register_command(d.clone()).unwrap(), d);
    assert_eq!(service.register_provider(), Ok(()));
}
