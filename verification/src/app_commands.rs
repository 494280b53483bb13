//! Commands that a mounted app sends to the desktop runtime, and the app
//! services that build them. Each service method builds exactly one
//! command from its arguments; the host delivers it to the runtime.

use vstd::prelude::*;
use serde_json::Value;
use crate::app_contract::{WallpaperConfig, WallpaperImportRequest};

verus! {

/// A request from an app window to the desktop runtime.
#[derive(Debug, Clone, PartialEq)]
pub enum AppCommand {
    /// Retitle the current window.
    SetWindowTitle { title: String },
    /// Persist the window's own app state.
    PersistState { state: Value },
    /// Persist state shared by all windows of the app under `key`.
    PersistSharedState { key: String, state: Value },
    /// Save a config value under a namespace and key.
    SaveConfig { namespace: String, key: String, value: Value },
    /// Open a URL outside the desktop.
    OpenExternalUrl { url: String },
    /// Subscribe the window to an app-bus topic.
    Subscribe { topic: String },
    /// Remove the window's subscription to a topic.
    Unsubscribe { topic: String },
    /// Publish an event to the subscribers of a topic.
    PublishEvent {
        topic: String,
        payload: Value,
        correlation_id: Option<String>,
        reply_to: Option<String>,
    },
    /// Switch the desktop skin.
    SetDesktopSkin { skin_id: String },
    /// Preview a wallpaper without committing it.
    PreviewWallpaper { config: WallpaperConfig },
    /// Commit the wallpaper preview.
    ApplyWallpaperPreview,
    /// Replace the wallpaper at once.
    SetCurrentWallpaper { config: WallpaperConfig },
    /// Drop the wallpaper preview.
    ClearWallpaperPreview,
    /// Import a wallpaper through the host picker.
    ImportWallpaperFromPicker { request: WallpaperImportRequest },
    /// Rename a managed wallpaper asset.
    RenameWallpaperAsset { asset_id: String, display_name: String },
    /// Mark or unmark a wallpaper asset as favorite.
    SetWallpaperFavorite { asset_id: String, favorite: bool },
    /// Replace the tags of a wallpaper asset.
    SetWallpaperTags { asset_id: String, tags: Vec<String> },
    /// Replace the collections a wallpaper asset belongs to.
    SetWallpaperCollections { asset_id: String, collection_ids: Vec<String> },
    /// Create a wallpaper collection.
    CreateWallpaperCollection { display_name: String },
    /// Rename a wallpaper collection.
    RenameWallpaperCollection { collection_id: String, display_name: String },
    /// Delete a wallpaper collection and its memberships.
    DeleteWallpaperCollection { collection_id: String },
    /// Delete a managed wallpaper asset.
    DeleteWallpaperAsset { asset_id: String },
    /// Switch high-contrast rendering.
    SetDesktopHighContrast { enabled: bool },
    /// Switch reduced-motion rendering.
    SetDesktopReducedMotion { enabled: bool },
    /// Show a host notification.
    Notify { title: String, body: String },
}

/// Window integration: retitling.
#[derive(Debug, Clone, Copy, PartialEq, Eq, Structural)]
pub struct WindowService;

impl WindowService {
    /// The command that retitles the window.
    pub fn set_title(&self, title: String) -> (r: AppCommand)
        ensures
            r == (AppCommand::SetWindowTitle { title }),
    {
        AppCommand::SetWindowTitle { title }
    }
}

/// State persistence for the window and for state shared by the app.
#[derive(Debug, Clone, Copy, PartialEq, Eq, Structural)]
pub struct StateService;

impl StateService {
    /// The command that persists the window's own state.
    pub fn persist_window_state(&self, state: Value) -> (r: AppCommand)
        ensures
            r == (AppCommand::PersistState { state }),
    {
        AppCommand::PersistState { state }
    }

    /// The command that persists app-shared state under `key`.
    pub fn persist_shared_state(&self, key: String, state: Value) -> (r: AppCommand)
        ensures
            r == (AppCommand::PersistSharedState { key, state }),
    {
        AppCommand::PersistSharedState { key, state }
    }
}

/// Namespaced config values.
#[derive(Debug, Clone, Copy, PartialEq, Eq, Structural)]
pub struct ConfigService;

impl ConfigService {
    /// The command that saves `value` under `namespace` and `key`.
    pub fn save(&self, namespace: String, key: String, value: Value) -> (r: AppCommand)
        ensures
            r == (AppCommand::SaveConfig { namespace, key, value }),
    {
        AppCommand::SaveConfig { namespace, key, value }
    }
}

/// Appearance and accessibility settings of the shell.
#[derive(Debug, Clone, Copy, PartialEq, Eq, Structural)]
pub struct ThemeService;

impl ThemeService {
    /// The command that switches the skin.
    pub fn set_skin(&self, skin_id: String) -> (r: AppCommand)
        ensures
            r == (AppCommand::SetDesktopSkin { skin_id }),
    {
        AppCommand::SetDesktopSkin { skin_id }
    }

    /// The command that switches high contrast.
    pub fn set_high_contrast(&self, enabled: bool) -> (r: AppCommand)
        ensures
            r == (AppCommand::SetDesktopHighContrast { enabled }),
    {
        AppCommand::SetDesktopHighContrast { enabled }
    }

    /// The command that switches reduced motion.
    pub fn set_reduced_motion(&self, enabled: bool) -> (r: AppCommand)
        ensures
            r == (AppCommand::SetDesktopReducedMotion { enabled }),
    {
        AppCommand::SetDesktopReducedMotion { enabled }
    }
}

/// Wallpaper preview, selection and library management.
#[derive(Debug, Clone, Copy, PartialEq, Eq, Structural)]
pub struct WallpaperService;

impl WallpaperService {
    /// The command that previews `config`.
    pub fn preview(&self, config: WallpaperConfig) -> (r: AppCommand)
        ensures
            r == (AppCommand::PreviewWallpaper { config }),
    {
        AppCommand::PreviewWallpaper { config }
    }

    /// The command that commits the preview.
    pub fn apply_preview(&self) -> (r: AppCommand)
        ensures
            r == AppCommand::ApplyWallpaperPreview,
    {
        AppCommand::ApplyWallpaperPreview
    }

    /// The command that replaces the wallpaper with `config`.
    pub fn set_current(&self, config: WallpaperConfig) -> (r: AppCommand)
        ensures
            r == (AppCommand::SetCurrentWallpaper { config }),
    {
        AppCommand::SetCurrentWallpaper { config }
    }

    /// The command that drops the preview.
    pub fn clear_preview(&self) -> (r: AppCommand)
        ensures
            r == AppCommand::ClearWallpaperPreview,
    {
        AppCommand::ClearWallpaperPreview
    }

    /// The command that starts the host's import flow.
    pub fn import_from_picker(&self, request: WallpaperImportRequest) -> (r: AppCommand)
        ensures
            r == (AppCommand::ImportWallpaperFromPicker { request }),
    {
        AppCommand::ImportWallpaperFromPicker { request }
    }

    /// The command that renames an asset.
    pub fn rename_asset(&self, asset_id: String, display_name: String) -> (r: AppCommand)
        ensures
            r == (AppCommand::RenameWallpaperAsset { asset_id, display_name }),
    {
        AppCommand::RenameWallpaperAsset { asset_id, display_name }
    }

    /// The command that sets an asset's favorite flag.
    pub fn set_favorite(&self, asset_id: String, favorite: bool) -> (r: AppCommand)
        ensures
            r == (AppCommand::SetWallpaperFavorite { asset_id, favorite }),
    {
        AppCommand::SetWallpaperFavorite { asset_id, favorite }
    }

    /// The command that replaces an asset's tags.
    pub fn set_tags(&self, asset_id: String, tags: Vec<String>) -> (r: AppCommand)
        ensures
            r == (AppCommand::SetWallpaperTags { asset_id, tags }),
    {
        AppCommand::SetWallpaperTags { asset_id, tags }
    }

    /// The command that replaces an asset's collections.
    pub fn set_collections(&self, asset_id: String, collection_ids: Vec<String>) -> (r: AppCommand)
        ensures
            r == (AppCommand::SetWallpaperCollections { asset_id, collection_ids }),
    {
        AppCommand::SetWallpaperCollections { asset_id, collection_ids }
    }

    /// The command that creates a collection.
    pub fn create_collection(&self, display_name: String) -> (r: AppCommand)
        ensures
            r == (AppCommand::CreateWallpaperCollection { display_name }),
    {
        AppCommand::CreateWallpaperCollection { display_name }
    }

    /// The command that renames a collection.
    pub fn rename_collection(&self, collection_id: String, display_name: String) -> (r: AppCommand)
        ensures
            r == (AppCommand::RenameWallpaperCollection { collection_id, display_name }),
    {
        AppCommand::RenameWallpaperCollection { collection_id, display_name }
    }

    /// The command that deletes a collection.
    pub fn delete_collection(&self, collection_id: String) -> (r: AppCommand)
        ensures
            r == (AppCommand::DeleteWallpaperCollection { collection_id }),
    {
        AppCommand::DeleteWallpaperCollection { collection_id }
    }

    /// The command that deletes an asset.
    pub fn delete_asset(&self, asset_id: String) -> (r: AppCommand)
        ensures
            r == (AppCommand::DeleteWallpaperAsset { asset_id }),
    {
        AppCommand::DeleteWallpaperAsset { asset_id }
    }
}

/// Host notifications.
#[derive(Debug, Clone, Copy, PartialEq, Eq, Structural)]
pub struct NotificationService;

impl NotificationService {
    /// The command that shows a notification.
    pub fn notify(&self, title: String, body: String) -> (r: AppCommand)
        ensures
            r == (AppCommand::Notify { title, body }),
    {
        AppCommand::Notify { title, body }
    }
}

/// Topic subscriptions and publish/request envelopes between apps.
#[derive(Debug, Clone, Copy, PartialEq, Eq, Structural)]
pub struct IpcService;

impl IpcService {
    /// The command that subscribes the window to `topic`.
    pub fn subscribe(&self, topic: String) -> (r: AppCommand)
        ensures
            r == (AppCommand::Subscribe { topic }),
    {
        AppCommand::Subscribe { topic }
    }

    /// The command that unsubscribes the window from `topic`.
    pub fn unsubscribe(&self, topic: String) -> (r: AppCommand)
        ensures
            r == (AppCommand::Unsubscribe { topic }),
    {
        AppCommand::Unsubscribe { topic }
    }

    /// A one-way event: no correlation id and no reply target.
    pub fn publish(&self, topic: String, payload: Value) -> (r: AppCommand)
        ensures
            r == (AppCommand::PublishEvent { topic, payload, correlation_id: None, reply_to: None }),
    {
        AppCommand::PublishEvent { topic, payload, correlation_id: None, reply_to: None }
    }

    /// A request: the event carries its correlation id and reply target.
    pub fn request(&self, topic: String, payload: Value, correlation_id: String, reply_to: String) -> (r: AppCommand)
        ensures
            r == (AppCommand::PublishEvent {
                topic,
                payload,
                correlation_id: Some(correlation_id),
                reply_to: Some(reply_to),
            }),
    {
        AppCommand::PublishEvent {
            topic,
            payload,
            correlation_id: Some(correlation_id),
            reply_to: Some(reply_to),
        }
    }
}

/// Error of a session request to a disabled command service.
pub open spec fn sessions_unavailable() -> Seq<char> {
    "command sessions are unavailable"@
}

/// Error of a registration request to a disabled command service.
pub open spec fn registration_unavailable() -> Seq<char> {
    "command registration is unavailable"@
}

/// Shell sessions and dynamic command registration as the runtime grants
/// them to an app. A disabled service turns every request down with a
/// fixed error; an enabled one hands each request on to the runtime.
#[derive(Debug, Clone, Copy, PartialEq, Eq, Structural)]
pub struct CommandService {
    available: bool,
}

impl CommandService {
    /// Whether the runtime serves requests made through this service.
    pub closed spec fn serves(self) -> bool {
        self.available
    }

    /// A service whose requests the runtime serves.
    pub fn new() -> (r: Self)
        ensures
            r.serves(),
    {
        CommandService { available: true }
    }

    /// A service that rejects every request.
    pub fn disabled() -> (r: Self)
        ensures
            !r.serves(),
    {
        CommandService { available: false }
    }

    /// A session request for `cwd`: the directory handed to the runtime, or
    /// the error of a disabled service.
    pub fn create_session(&self, cwd: String) -> (r: Result<String, String>)
        ensures
            self.serves() ==> (r matches Ok(c) && c@ == cwd@),
            !self.serves() ==> (r matches Err(m) && m@ == sessions_unavailable()),
    {
        if self.available {
            Ok(cwd)
        } else {
            Err(String::from_str("command sessions are unavailable"))
        }
    }

    /// A registration request for one command: the descriptor handed to the
    /// runtime, or the error of a disabled service.
    pub fn register_command(&self, descriptor: crate::shell_contract::CommandDescriptor) -> (r: Result<
        crate::shell_contract::CommandDescriptor,
        String,
    >)
        ensures
            self.serves() ==> (r matches Ok(d) && d == descriptor),
            !self.serves() ==> (r matches Err(m) && m@ == registration_unavailable()),
    {
        if self.available {
            Ok(descriptor)
        } else {
            Err(String::from_str("command registration is unavailable"))
        }
    }

    /// A registration request for a command provider: accepted for the
    /// runtime, or the error of a disabled service.
    pub fn register_provider(&self) -> (r: Result<(), String>)
        ensures
            self.serves() ==> r is Ok,
            !self.serves() ==> (r matches Err(m) && m@ == registration_unavailable()),
    {
        if self.available {
            Ok(())
        } else {
            Err(String::from_str("command registration is unavailable"))
        }
    }
}

} // verus!
