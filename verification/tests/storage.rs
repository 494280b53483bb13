use desktop_runtime::storage::{
    app_state_store, build_app_state_envelope, content_cache, decode_typed_app_state_envelope,
    decode_typed_app_state_with_migration, explorer_fs_service, prefs_store, prefs_store_for,
    selected_host_strategy, AppStateEnvelope, AppStateSchemaPolicy, AppStateStoreAdapter,
    ContentCacheAdapter, ExplorerFsServiceAdapter, HostStrategy, PrefsStoreAdapter,
    APP_STATE_ENVELOPE_VERSION,
};

fn payload<T: serde::Serialize>(value: &T) -> serde_json::Value {
    serde_json::to_value(value).expect("build envelope")
}

fn read_u32(value: &serde_json::Value) -> Result<u32, String> {
    serde_json::from_value::<u32>(value.clone()).map_err(|err| err.to_string())
}

fn migrate_payload(envelope: &AppStateEnvelope) -> Result<u32, String> {
    read_u32(&envelope.payload)
}

#[test]
fn selected_host_strategy_matches_build_feature() {
    assert_eq!(selected_host_strategy(), HostStrategy::Browser);
}

#[test]
fn adapters_follow_selected_strategy() {
    let strategy = selected_host_strategy();
    match strategy {
        HostStrategy::Browser => {
            assert!(matches!(app_state_store(), AppStateStoreAdapter::Browser(_)));
            assert!(matches!(content_cache(), ContentCacheAdapter::Browser(_)));
            assert!(matches!(
                explorer_fs_service(),
                ExplorerFsServiceAdapter::Browser(_)
            ));
            assert!(matches!(prefs_store(), PrefsStoreAdapter::Browser(_)));
        }
        HostStrategy::DesktopStub => {
            assert!(matches!(app_state_store(), AppStateStoreAdapter::DesktopStub(_)));
            assert!(matches!(content_cache(), ContentCacheAdapter::DesktopStub(_)));
            assert!(matches!(
                explorer_fs_service(),
                ExplorerFsServiceAdapter::DesktopStub(_)
            ));
            assert!(matches!(prefs_store(), PrefsStoreAdapter::DesktopStub(_)));
        }
    }
}

#[test]
fn desktop_stub_strategy_selects_stub_adapters() {
    assert!(matches!(
        prefs_store_for(HostStrategy::DesktopStub),
        PrefsStoreAdapter::DesktopStub(_)
    ));
}

#[test]
fn app_state_schema_policy_matching_is_consistent() {
    assert!(AppStateSchemaPolicy::Exact(3).allows(3));
    assert!(!AppStateSchemaPolicy::Exact(3).allows(2));
    assert!(!AppStateSchemaPolicy::Exact(3).allows(4));

    assert!(AppStateSchemaPolicy::UpTo(3).allows(1));
    assert!(AppStateSchemaPolicy::UpTo(3).allows(3));
    assert!(!AppStateSchemaPolicy::UpTo(3).allows(4));

    assert!(AppStateSchemaPolicy::Any.allows(0));
    assert!(AppStateSchemaPolicy::Any.allows(42));
}

#[test]
fn typed_envelope_decode_returns_none_for_incompatible_envelope_version() {
    let mut envelope = build_app_state_envelope("app.example", 1, payload(&42_u32));
    envelope.envelope_version = APP_STATE_ENVELOPE_VERSION + 1;

    let decoded =
        decode_typed_app_state_envelope(&envelope, AppStateSchemaPolicy::UpTo(1), read_u32)
            .expect("decode should not fail");
    assert_eq!(decoded, None);
}

#[test]
fn typed_envelope_decode_returns_none_for_incompatible_schema() {
    let envelope = build_app_state_envelope("app.example", 2, payload(&42_u32));

    let decoded =
        decode_typed_app_state_envelope(&envelope, AppStateSchemaPolicy::Exact(1), read_u32)
            .expect("decode should not fail");
    assert_eq!(decoded, None);
}

#[test]
fn typed_envelope_decode_deserializes_compatible_payload() {
    let envelope = build_app_state_envelope("app.example", 2, payload(&42_u32));

    let decoded =
        decode_typed_app_state_envelope(&envelope, AppStateSchemaPolicy::UpTo(2), read_u32)
            .expect("decode should succeed");
    assert_eq!(decoded, Some(42));
}

#[test]
fn typed_envelope_decode_surfaces_payload_type_errors() {
    let envelope = build_app_state_envelope("app.example", 1, payload(&"text"));

    let err = decode_typed_app_state_envelope(&envelope, AppStateSchemaPolicy::Any, read_u32)
        .expect_err("decode should fail for incompatible payload type");
    assert!(
        err.contains("invalid type"),
        "error should include type-mismatch context: {err}"
    );
}

#[test]
fn migration_decode_uses_hook_for_legacy_schema() {
    let envelope = build_app_state_envelope("app.example", 0, payload(&42_u32));

    let migrated = decode_typed_app_state_with_migration(
        &envelope,
        1,
        read_u32,
        |legacy_schema, env| {
            assert_eq!(legacy_schema, 0);
            migrate_payload(env).map(Some)
        },
    )
    .expect("migration decode should succeed");
    assert_eq!(migrated, Some(42));
}

#[test]
fn migration_decode_rejects_future_schema() {
    let envelope = build_app_state_envelope("app.example", 2, payload(&42_u32));

    let migrated =
        decode_typed_app_state_with_migration(&envelope, 1, read_u32, |_legacy, _| Ok(Some(0)))
            .expect("decode should not fail");
    assert_eq!(migrated, None);
}

#[test]
fn migration_decode_uses_current_schema_deserialize() {
    let envelope = build_app_state_envelope("app.example", 1, payload(&42_u32));

    let migrated = decode_typed_app_state_with_migration(
        &envelope,
        1,
        read_u32,
        |_legacy, _| -> Result<Option<u32>, String> {
            panic!("legacy migration should not be called when schema is current");
        },
    )
    .expect("decode should succeed");
    assert_eq!(migrated, Some(42));
}

#[test]
fn envelope_builder_sets_current_format() {
    let envelope = build_app_state_envelope("app.example", 7, payload(&1_u32));
    assert_eq!(envelope.namespace, "app.example");
    assert_eq!(envelope.schema_version, 7);
    assert_eq!(envelope.envelope_version, APP_STATE_ENVELOPE_VERSION);
}
