use desktop_runtime::app_contract::{
    is_valid_application_id, AppEvent, AppLifecycleEvent, ApplicationId,
    CommandRegistrationHandle, RegistrationLiveness, SuspendPolicy, WallpaperConfig, WallpaperDisplayMode,
    WallpaperLibrarySnapshot, WallpaperSelection,
};

#[test]
fn application_id_requires_dotted_namespaces() {
    assert!(ApplicationId::new("system.calculator".to_string()).is_ok());
    assert!(ApplicationId::new("system.settings".to_string()).is_ok());
    assert!(ApplicationId::new("calculator".to_string()).is_err());
    assert!(ApplicationId::new("System.calc".to_string()).is_err());
    assert!(ApplicationId::new("system..calc".to_string()).is_err());
}

#[test]
fn application_id_segment_rules() {
    assert!(is_valid_application_id("a.b"));
    assert!(is_valid_application_id("app.my-tool2.v1"));
    assert!(!is_valid_application_id("app.tool-"));
    assert!(!is_valid_application_id("app.2tool"));
    assert!(!is_valid_application_id(".app.tool"));
    assert!(!is_valid_application_id("app.tool."));
    assert!(!is_valid_application_id(""));
    assert!(!is_valid_application_id("app.t\u{e9}l"));
    let long_segment = format!("app.{}", "a".repeat(33));
    assert!(!is_valid_application_id(&long_segment));
    let ok_segment = format!("app.{}", "a".repeat(32));
    assert!(is_valid_application_id(&ok_segment));
    let too_long = format!("{}.b", "a.".repeat(60));
    assert!(too_long.len() > 120);
    assert!(!is_valid_application_id(&too_long));
}

#[test]
fn application_id_error_names_the_input() {
    let err = ApplicationId::new("Bad".to_string()).unwrap_err();
    assert_eq!(
        err,
        "invalid application id `Bad`; expected namespaced dotted segments"
    );
    let id = ApplicationId::new("system.notepad".to_string()).unwrap();
    assert_eq!(id.as_str(), "system.notepad");
    assert_eq!(ApplicationId::trusted("Anything".to_string()).as_str(), "Anything");
}

#[test]
fn publish_event_request_metadata_is_attached() {
    let envelope = AppEvent::new(
        "app.system.calc.events.v1".to_string(),
        serde_json::Value::Null,
        Some(3),
    )
    .with_correlation(
        Some("req-1".to_string()),
        Some("app.system.calc.reply.v1".to_string()),
    );
    assert_eq!(envelope.schema_version, 1);
    assert_eq!(envelope.correlation_id.as_deref(), Some("req-1"));
    assert_eq!(
        envelope.reply_to.as_deref(),
        Some("app.system.calc.reply.v1")
    );
}

#[test]
fn lifecycle_tokens_are_stable() {
    assert_eq!(AppLifecycleEvent::Mounted.token(), "mounted");
    assert_eq!(AppLifecycleEvent::Focused.token(), "focused");
    assert_eq!(AppLifecycleEvent::Blurred.token(), "blurred");
    assert_eq!(AppLifecycleEvent::Minimized.token(), "minimized");
    assert_eq!(AppLifecycleEvent::Restored.token(), "restored");
    assert_eq!(AppLifecycleEvent::Suspended.token(), "suspended");
    assert_eq!(AppLifecycleEvent::Resumed.token(), "resumed");
    assert_eq!(AppLifecycleEvent::Closing.token(), "closing");
    assert_eq!(AppLifecycleEvent::Closed.token(), "closed");
}

#[test]
fn registration_handle_fires_once() {
    let mut liveness = RegistrationLiveness::new();
    let handle = CommandRegistrationHandle::new(&mut liveness);
    assert!(handle.is_active(&liveness));
    assert!(handle.unregister(&mut liveness));
    assert!(!handle.is_active(&liveness));
    assert!(!handle.unregister(&mut liveness));
    let noop = CommandRegistrationHandle::noop(&mut liveness);
    assert!(noop.unregister(&mut liveness));
}

#[test]
fn registration_handle_copies_share_one_registration() {
    let mut liveness = RegistrationLiveness::new();
    let first = CommandRegistrationHandle::new(&mut liveness);
    let other = CommandRegistrationHandle::new(&mut liveness);
    let copy = first;
    let clone = first.clone();
    let mut fired = 0;
    for h in [copy, first, clone, copy] {
        if h.unregister(&mut liveness) {
            fired += 1;
        }
    }
    assert_eq!(fired, 1);
    assert!(!first.is_active(&liveness));
    assert!(!clone.is_active(&liveness));
    assert!(other.is_active(&liveness));
    assert!(other.unregister(&mut liveness));
}

#[test]
fn wallpaper_defaults() {
    let config = WallpaperConfig::default();
    assert_eq!(
        config.selection,
        WallpaperSelection::BuiltIn {
            wallpaper_id: "cloud-bands".to_string()
        }
    );
    assert_eq!(config.display_mode, WallpaperDisplayMode::Fill);
    let library = WallpaperLibrarySnapshot::default();
    assert_eq!(library.soft_limit_bytes, 512 * 1024 * 1024);
    assert_eq!(library.used_bytes, 0);
    assert_eq!(SuspendPolicy::default(), SuspendPolicy::OnMinimize);
}
