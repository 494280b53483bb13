use desktop_runtime::explorer_panel::{CacheFallback, ExplorerPanel};

#[test]
fn panel_starts_in_the_project_folder() {
    assert_eq!(ExplorerPanel::new(Some("site")).cwd, "/Projects/site");
    assert_eq!(ExplorerPanel::new(None).cwd, "/");
    let panel = ExplorerPanel::new(Some("../x"));
    assert_eq!(panel.cwd, "/x");
}

#[test]
fn listing_keeps_only_surviving_selections() {
    let mut panel = ExplorerPanel::new(None);
    assert_eq!(panel.begin_refresh(Some("docs//notes/./")), "/docs/notes");
    assert!(panel.busy);
    panel.selected_path = Some("/docs/notes/a.txt".to_string());
    panel.listed("/docs/notes".to_string(), vec!["/docs/notes/a.txt".to_string()]);
    assert_eq!(panel.selected_path.as_deref(), Some("/docs/notes/a.txt"));
    assert_eq!(panel.notice.as_deref(), Some("Loaded /docs/notes"));
    assert!(!panel.busy);
    panel.listed("/docs/notes".to_string(), vec![]);
    assert_eq!(panel.selected_path, None);
    panel.selected_path = Some("/docs/notes".to_string());
    panel.listed("/docs/notes".to_string(), vec![]);
    assert_eq!(panel.selected_path.as_deref(), Some("/docs/notes"));
    panel.list_failed("offline");
    assert_eq!(panel.error.as_deref(), Some("list failed: offline"));
    assert_eq!(panel.notice, None);
}

#[test]
fn opening_and_saving_files() {
    let mut panel = ExplorerPanel::new(None);
    assert_eq!(panel.begin_open("/a/b.txt"), "/a/b.txt");
    panel.opened("/a/b.txt", "hello".to_string(), "IndexedDbVirtual");
    assert_eq!(panel.editor_path.as_deref(), Some("/a/b.txt"));
    assert_eq!(panel.notice.as_deref(), Some("Opened /a/b.txt (IndexedDbVirtual)"));
    assert!(!panel.editor_dirty);
    panel.editor_text = "changed".to_string();
    let (path, text) = panel.begin_save().expect("save request");
    assert_eq!((path.as_str(), text.as_str()), ("/a/b.txt", "changed"));
    assert_eq!(panel.saved("/a/b.txt", "/a/b.txt"), "/a");
    assert_eq!(panel.notice.as_deref(), Some("Saved /a/b.txt"));
    let mut empty = ExplorerPanel::new(None);
    assert!(empty.begin_save().is_none());
    assert_eq!(empty.error.as_deref(), Some("No file is open in the editor"));
}

#[test]
fn failed_reads_fall_back_to_cached_previews() {
    let mut panel = ExplorerPanel::new(None);
    panel.open_failed("/a.txt", "denied", CacheFallback::Hit("draft".to_string()));
    assert_eq!(panel.editor_text, "draft");
    assert!(panel.editor_dirty);
    assert_eq!(panel.error.as_deref(), Some("read failed: denied. Loaded cached preview; save to restore"));
    panel.open_failed("/b.txt", "denied", CacheFallback::Failed("quota".to_string()));
    assert_eq!(panel.error.as_deref(), Some("read failed: denied; cache fallback failed: quota"));
    panel.open_failed("/b.txt", "denied", CacheFallback::Miss);
    assert_eq!(panel.error.as_deref(), Some("read failed: denied"));
}

#[test]
fn creating_and_deleting_entries() {
    let mut panel = ExplorerPanel::new(Some("site"));
    assert_eq!(panel.begin_create(" notes/ "), "/Projects/site/notes");
    assert_eq!(panel.folder_created("/Projects/site/notes"), "/Projects/site");
    assert_eq!(panel.file_created("/Projects/site/a.md"), "/Projects/site");
    assert_eq!(panel.selected_path.as_deref(), Some("/Projects/site/a.md"));
    panel.editor_path = Some("/Projects/site/a.md".to_string());
    panel.editor_text = "x".to_string();
    assert_eq!(panel.begin_delete().as_deref(), Some("/Projects/site/a.md"));
    assert_eq!(panel.deleted("/Projects/site/a.md"), "/Projects/site");
    assert_eq!(panel.editor_path, None);
    assert!(panel.editor_text.is_empty());
    assert_eq!(panel.notice.as_deref(), Some("Deleted /Projects/site/a.md"));
    assert!(panel.begin_delete().is_none());
    assert_eq!(panel.error.as_deref(), Some("Select a file or folder to delete"));
    panel.selected_path = Some("/".to_string());
    assert!(panel.begin_delete().is_none());
    assert_eq!(panel.error.as_deref(), Some("Cannot delete the root directory"));
    panel.create_failed("folder", "exists");
    assert_eq!(panel.error.as_deref(), Some("create folder failed: exists"));
}

#[test]
fn host_status_messages() {
    let mut panel = ExplorerPanel::new(None);
    panel.show_native_status("Native folder access is available.");
    assert_eq!(panel.notice.as_deref(), Some("Native folder access is available."));
    panel.show_native_status("other");
    assert_eq!(panel.notice.as_deref(), Some("Native folder access is available."));
    panel.service_unavailable();
    assert_eq!(panel.error.as_deref(), Some("Explorer host service unavailable"));
    panel.cwd = "/x".to_string();
    assert_eq!(panel.native_connected(), "/");
    assert_eq!(panel.cwd, "/");
    panel.permission_changed("Granted");
    assert_eq!(panel.notice.as_deref(), Some("Permission: Granted"));
    panel.permission_failed("nope");
    assert_eq!(panel.error.as_deref(), Some("permission request failed: nope"));
    panel.connect_failed("cancelled");
    assert_eq!(panel.error.as_deref(), Some("connect folder failed: cancelled"));
}
