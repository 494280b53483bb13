use desktop_runtime::display_properties::DisplayPropertiesSession;
use desktop_runtime::reducer::DesktopAction;

fn set(id: &str) -> DesktopAction {
    DesktopAction::SetWallpaper { wallpaper_id: id.to_string() }
}

#[test]
fn closed_dialog_follows_the_wallpaper() {
    let mut session = DisplayPropertiesSession::closed("slate-grid");
    assert_eq!(session.selection, "teal-grid");
    session.sync_with_wallpaper("cloud-bands");
    assert_eq!(session.selection, "cloud-bands");
    session.sync_with_wallpaper("no-such-wallpaper");
    assert_eq!(session.selection, "teal-solid");
}

#[test]
fn cancel_after_preview_restores_the_original() {
    let mut session = DisplayPropertiesSession::closed("teal-solid");
    assert_eq!(session.open_dialog("teal-solid"), DesktopAction::CloseStartMenu);
    assert!(session.open);
    session.select("sunset-lake");
    session.sync_with_wallpaper("green-hills");
    assert_eq!(session.selection, "sunset-lake");
    assert_eq!(session.preview(), set("sunset-lake"));
    assert_eq!(session.cancel("sunset-lake"), Some(set("teal-solid")));
    assert!(!session.open);
    assert_eq!(session.selection, "teal-solid");
    assert_eq!(session.revert_to, None);
}

#[test]
fn cancel_without_changes_sets_nothing() {
    let mut session = DisplayPropertiesSession::closed("woven-steel");
    session.open_dialog("woven-steel");
    assert_eq!(session.cancel("woven-steel"), None);
}

#[test]
fn apply_moves_the_cancel_point_and_confirm_closes() {
    let mut session = DisplayPropertiesSession::closed("teal-solid");
    session.open_dialog("teal-solid");
    session.select("green-hills");
    assert_eq!(session.apply(), set("green-hills"));
    assert_eq!(session.revert_to.as_deref(), Some("green-hills"));
    session.select("cloud-bands");
    assert_eq!(session.cancel("cloud-bands"), Some(set("green-hills")));
    session.open_dialog("green-hills");
    session.select("slate-grid");
    assert_eq!(session.confirm(), set("teal-grid"));
    assert!(!session.open);
}
