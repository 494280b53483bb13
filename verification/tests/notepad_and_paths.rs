use desktop_runtime::notepad::{document_meta, document_title, text_char_count, text_line_count, wrap_toggle_label};
use desktop_runtime::notepad::{
    normalized_slug, sample_note, tab_dom_id, text_less, NotepadWorkspaceState,
};
use desktop_runtime::paths::{
    entry_name, explorer_row_dom_id, join_path, normalize_path, parent_path,
};

#[test]
fn paths_normalize_like_a_shell() {
    assert_eq!(normalize_path("  a\\b/../c/./d "), "/a/c/d");
    assert_eq!(normalize_path(""), "/");
    assert_eq!(normalize_path("/.."), "/");
    assert_eq!(normalize_path("//docs//notes/"), "/docs/notes");
    assert_eq!(join_path("/docs", " /x/ "), "/docs/x");
    assert_eq!(join_path("/", "readme.txt"), "/readme.txt");
    assert_eq!(join_path("/docs", "  "), "/docs");
    assert_eq!(parent_path("/a/b"), "/a");
    assert_eq!(parent_path("/a"), "/");
    assert_eq!(parent_path("/"), "/");
    assert_eq!(entry_name("/a/b.txt"), "b.txt");
    assert_eq!(entry_name("/"), "/");
    assert_eq!(explorer_row_dom_id("/Docs/A b.txt"), "explorer-row--docs-a-b-txt");
}

#[test]
fn slugs_and_samples() {
    assert_eq!(normalized_slug("  todo "), "todo");
    assert_eq!(normalized_slug("   "), "welcome");
    assert!(sample_note("about").starts_with("Justin Short Personal Workstation\n"));
    assert!(sample_note("terminal-cheatsheet").starts_with("Terminal Commands\n"));
    assert!(sample_note("x").starts_with("Welcome (x)\n-----------------\n"));
    assert_eq!(tab_dom_id("My Note"), "notepad-tab-my-note");
    assert!(text_less("abc", "abd"));
    assert!(text_less("ab", "abc"));
    assert!(!text_less("b", "a"));
}

#[test]
fn workspace_opens_documents_and_tabs() {
    let mut ws = NotepadWorkspaceState::new("todo");
    assert_eq!(ws.active_slug, "todo");
    assert_eq!(ws.open_order, vec!["todo".to_string()]);
    assert!(ws.active_text().starts_with("Welcome (todo)"));
    ws.ensure_document("about");
    assert_eq!(ws.active_slug, "about");
    assert_eq!(ws.open_order, vec!["todo".to_string(), "about".to_string()]);
    ws.set_active_text("edited".to_string());
    assert_eq!(ws.active_text(), "edited");
    ws.select_index(0);
    assert_eq!(ws.active_slug, "todo");
    ws.move_active_by(-1);
    assert_eq!(ws.active_slug, "about");
    ws.move_active_by(3);
    assert_eq!(ws.active_slug, "todo");
}

#[test]
fn scratch_documents_get_fresh_names() {
    let mut ws = NotepadWorkspaceState::new("welcome");
    ws.add_scratch();
    assert_eq!(ws.active_slug, "scratch");
    assert_eq!(ws.active_text(), "");
    ws.add_scratch();
    assert_eq!(ws.active_slug, "scratch-2");
    ws.add_scratch();
    assert_eq!(ws.active_slug, "scratch-3");
    assert_eq!(ws.open_order.len(), 4);
}

#[test]
fn normalize_repairs_tabs_and_active_slug() {
    let mut ws = NotepadWorkspaceState {
        wrap_lines: false,
        active_slug: "gone".to_string(),
        open_order: vec!["missing".to_string()],
        documents: vec![
            ("b".to_string(), "B".to_string()),
            ("c".to_string(), "C".to_string()),
        ],
    };
    ws.normalize();
    assert_eq!(ws.open_order, vec!["welcome".to_string(), "b".to_string(), "c".to_string()]);
    assert_eq!(ws.active_slug, "welcome");
    assert_eq!(ws.documents[0].0, "b");
    assert_eq!(ws.documents[2].0, "welcome");
    assert!(!ws.wrap_lines);
}

#[test]
fn notepad_status_counts_lines_like_str_lines() {
    for text in ["", "a", "a\n", "\n", "a\nb", "a\r\nb\r\n", "\n\n", "héllo\nwörld"] {
        assert_eq!(text_line_count(text), text.lines().count(), "{text:?}");
        assert_eq!(text_char_count(text), text.chars().count());
    }
    assert_eq!(document_title("welcome"), "welcome.txt");
    assert_eq!(document_meta(3, true), "3 open doc(s) | hydrated");
    assert_eq!(document_meta(0, false), "0 open doc(s) | hydrating");
    assert_eq!(wrap_toggle_label(true), "Wrap: On");
}
