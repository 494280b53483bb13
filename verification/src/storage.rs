//! Storage decisions: which host adapters serve persistence, which schema
//! versions an app accepts, and when a versioned app-state envelope is
//! decoded, migrated or ignored.

use vstd::prelude::*;
use vstd::string::*;
use serde_json::Value;

verus! {

// ---------------------------------------------------------------------
// Host adapters
// ---------------------------------------------------------------------

/// Which family of host services backs persistence.
#[derive(Debug, Clone, Copy, PartialEq, Eq, Structural)]
pub enum HostStrategy {
    Browser,
    DesktopStub,
}

/// The strategy this build uses: the browser services (the desktop stub
/// strategy belongs to the native desktop build).
pub fn selected_host_strategy() -> (r: HostStrategy)
    ensures
        r == HostStrategy::Browser,
{
    HostStrategy::Browser
}

/// IndexedDB-backed app-state store.
#[derive(Debug, Clone, Copy, PartialEq, Eq, Structural)]
pub struct WebAppStateStore;

/// Cache API-backed content cache.
#[derive(Debug, Clone, Copy, PartialEq, Eq, Structural)]
pub struct WebContentCache;

/// File System Access API-backed explorer service.
#[derive(Debug, Clone, Copy, PartialEq, Eq, Structural)]
pub struct WebExplorerFsService;

/// localStorage-backed preferences store.
#[derive(Debug, Clone, Copy, PartialEq, Eq, Structural)]
pub struct WebPrefsStore;

/// App-state store that keeps nothing.
#[derive(Debug, Clone, Copy, PartialEq, Eq, Structural)]
pub struct NoopAppStateStore;

/// Content cache that keeps nothing.
#[derive(Debug, Clone, Copy, PartialEq, Eq, Structural)]
pub struct NoopContentCache;

/// Explorer service without a filesystem.
#[derive(Debug, Clone, Copy, PartialEq, Eq, Structural)]
pub struct NoopExplorerFsService;

/// Preferences store that keeps nothing.
#[derive(Debug, Clone, Copy, PartialEq, Eq, Structural)]
pub struct NoopPrefsStore;

#[derive(Debug, Clone, Copy, PartialEq, Eq, Structural)]
pub enum AppStateStoreAdapter {
    Browser(WebAppStateStore),
    DesktopStub(NoopAppStateStore),
}

#[derive(Debug, Clone, Copy, PartialEq, Eq, Structural)]
pub enum ContentCacheAdapter {
    Browser(WebContentCache),
    DesktopStub(NoopContentCache),
}

#[derive(Debug, Clone, Copy, PartialEq, Eq, Structural)]
pub enum ExplorerFsServiceAdapter {
    Browser(WebExplorerFsService),
    DesktopStub(NoopExplorerFsService),
}

#[derive(Debug, Clone, Copy, PartialEq, Eq, Structural)]
pub enum PrefsStoreAdapter {
    Browser(WebPrefsStore),
    DesktopStub(NoopPrefsStore),
}

/// The app-state store of a strategy.
pub fn app_state_store_for(strategy: HostStrategy) -> (r: AppStateStoreAdapter)
    ensures
        (strategy == HostStrategy::Browser) == (r is Browser),
{
    match strategy {
        HostStrategy::Browser => AppStateStoreAdapter::Browser(WebAppStateStore),
        HostStrategy::DesktopStub => AppStateStoreAdapter::DesktopStub(NoopAppStateStore),
    }
}

/// The app-state store of the selected strategy.
pub fn app_state_store() -> (r: AppStateStoreAdapter)
    ensures
        r is Browser,
{
    app_state_store_for(selected_host_strategy())
}

/// The content cache of a strategy.
pub fn content_cache_for(strategy: HostStrategy) -> (r: ContentCacheAdapter)
    ensures
        (strategy == HostStrategy::Browser) == (r is Browser),
{
    match strategy {
        HostStrategy::Browser => ContentCacheAdapter::Browser(WebContentCache),
        HostStrategy::DesktopStub => ContentCacheAdapter::DesktopStub(NoopContentCache),
    }
}

/// The content cache of the selected strategy.
pub fn content_cache() -> (r: ContentCacheAdapter)
    ensures
        r is Browser,
{
    content_cache_for(selected_host_strategy())
}

/// The explorer filesystem service of a strategy.
pub fn explorer_fs_service_for(strategy: HostStrategy) -> (r: ExplorerFsServiceAdapter)
    ensures
        (strategy == HostStrategy::Browser) == (r is Browser),
{
    match strategy {
        HostStrategy::Browser => ExplorerFsServiceAdapter::Browser(WebExplorerFsService),
        HostStrategy::DesktopStub => ExplorerFsServiceAdapter::DesktopStub(NoopExplorerFsService),
    }
}

/// The explorer filesystem service of the selected strategy.
pub fn explorer_fs_service() -> (r: ExplorerFsServiceAdapter)
    ensures
        r is Browser,
{
    explorer_fs_service_for(selected_host_strategy())
}

/// The preferences store of a strategy.
pub fn prefs_store_for(strategy: HostStrategy) -> (r: PrefsStoreAdapter)
    ensures
        (strategy == HostStrategy::Browser) == (r is Browser),
{
    match strategy {
        HostStrategy::Browser => PrefsStoreAdapter::Browser(WebPrefsStore),
        HostStrategy::DesktopStub => PrefsStoreAdapter::DesktopStub(NoopPrefsStore),
    }
}

/// The preferences store of the selected strategy.
pub fn prefs_store() -> (r: PrefsStoreAdapter)
    ensures
        r is Browser,
{
    prefs_store_for(selected_host_strategy())
}

// ---------------------------------------------------------------------
// Versioned app state
// ---------------------------------------------------------------------

/// Version of the envelope format itself.
pub const APP_STATE_ENVELOPE_VERSION: u32 = 1;

/// Versioned, namespaced app state as persisted.
#[derive(Debug, Clone, PartialEq)]
pub struct AppStateEnvelope {
    pub envelope_version: u32,
    pub namespace: String,
    pub schema_version: u32,
    pub payload: Value,
}

/// An envelope in the current format holding `payload` under `namespace`
/// and `schema_version`.
pub fn build_app_state_envelope(namespace: &str, schema_version: u32, payload: Value) -> (r:
    AppStateEnvelope)
    ensures
        r.envelope_version == APP_STATE_ENVELOPE_VERSION,
        r.namespace@ == namespace@,
        r.schema_version == schema_version,
        r.payload == payload,
{
    AppStateEnvelope {
        envelope_version: APP_STATE_ENVELOPE_VERSION,
        namespace: String::from_str(namespace),
        schema_version,
        payload,
    }
}

/// Which schema versions a reader accepts.
#[derive(Debug, Clone, Copy, PartialEq, Eq, Structural)]
pub enum AppStateSchemaPolicy {
    Exact(u32),
    UpTo(u32),
    Any,
}

pub open spec fn policy_allows(p: AppStateSchemaPolicy, v: u32) -> bool {
    match p {
        AppStateSchemaPolicy::Exact(expected) => v == expected,
        AppStateSchemaPolicy::UpTo(max_supported) => v <= max_supported,
        AppStateSchemaPolicy::Any => true,
    }
}

impl AppStateSchemaPolicy {
    /// `Exact(n)` accepts only `n`, `UpTo(n)` accepts every version up to
    /// `n`, and `Any` accepts all.
    pub fn allows(self, schema_version: u32) -> (r: bool)
        ensures
            r == policy_allows(self, schema_version),
    {
        match self {
            AppStateSchemaPolicy::Exact(expected) => schema_version == expected,
            AppStateSchemaPolicy::UpTo(max_supported) => schema_version <= max_supported,
            AppStateSchemaPolicy::Any => true,
        }
    }
}

/// An envelope a reader under `policy` decodes.
pub open spec fn decodable(e: AppStateEnvelope, policy: AppStateSchemaPolicy) -> bool {
    e.envelope_version == APP_STATE_ENVELOPE_VERSION && policy_allows(policy, e.schema_version)
}

/// Decodes an envelope whose format and schema version the policy
/// accepts, with `deserialize` reading the payload; any other envelope
/// gives `Ok(None)`. Deserialization errors are passed on.
pub fn decode_typed_app_state_envelope<T, D: FnOnce(&Value) -> Result<T, String>>(
    envelope: &AppStateEnvelope,
    schema_policy: AppStateSchemaPolicy,
    deserialize: D,
) -> (r: Result<Option<T>, String>)
    requires
        call_requires(deserialize, (&envelope.payload,)),
    ensures
        !decodable(*envelope, schema_policy) ==> r == Ok::<Option<T>, String>(None),
        decodable(*envelope, schema_policy) ==> match r {
            Ok(Some(x)) => call_ensures(deserialize, (&envelope.payload,), Ok(x)),
            Ok(None) => false,
            Err(e) => call_ensures(deserialize, (&envelope.payload,), Err(e)),
        },
{
    if envelope.envelope_version != APP_STATE_ENVELOPE_VERSION {
        return Ok(None);
    }
    if !schema_policy.allows(envelope.schema_version) {
        return Ok(None);
    }
    match deserialize(&envelope.payload) {
        Ok(x) => Ok(Some(x)),
        Err(e) => Err(e),
    }
}

/// How an envelope is read by an app at schema `current`: current-schema
/// payloads are deserialized, older ones go through the app's migration,
/// and newer ones, or other envelope formats, are ignored.
pub enum MigrationRoute {
    Ignore,
    Deserialize,
    Migrate,
}

pub open spec fn migration_route(e: AppStateEnvelope, current: u32) -> MigrationRoute {
    if e.envelope_version != APP_STATE_ENVELOPE_VERSION {
        MigrationRoute::Ignore
    } else if e.schema_version == current {
        MigrationRoute::Deserialize
    } else if e.schema_version > current {
        MigrationRoute::Ignore
    } else {
        MigrationRoute::Migrate
    }
}

/// Decodes an envelope for an app at schema `current_schema_version`:
/// the current schema is deserialized, an older one is handed to
/// `migrate_legacy` with its version, and a newer one or another envelope
/// format gives `Ok(None)`.
pub fn decode_typed_app_state_with_migration<
    T,
    D: FnOnce(&Value) -> Result<T, String>,
    M: FnOnce(u32, &AppStateEnvelope) -> Result<Option<T>, String>,
>(
    envelope: &AppStateEnvelope,
    current_schema_version: u32,
    deserialize: D,
    migrate_legacy: M,
) -> (r: Result<Option<T>, String>)
    requires
        call_requires(deserialize, (&envelope.payload,)),
        call_requires(migrate_legacy, (envelope.schema_version, envelope)),
    ensures
        match migration_route(*envelope, current_schema_version) {
            MigrationRoute::Ignore => r == Ok::<Option<T>, String>(None),
            MigrationRoute::Deserialize => match r {
                Ok(Some(x)) => call_ensures(deserialize, (&envelope.payload,), Ok(x)),
                Ok(None) => false,
                Err(e) => call_ensures(deserialize, (&envelope.payload,), Err(e)),
            },
            MigrationRoute::Migrate => call_ensures(migrate_legacy, (envelope.schema_version, envelope), r),
        },
{
    if envelope.envelope_version != APP_STATE_ENVELOPE_VERSION {
        return Ok(None);
    }
    if envelope.schema_version == current_schema_version {
        return match deserialize(&envelope.payload) {
            Ok(x) => Ok(Some(x)),
            Err(e) => Err(e),
        };
    }
    if envelope.schema_version > current_schema_version {
        return Ok(None);
    }
    migrate_legacy(envelope.schema_version, envelope)
}

} // verus!
