//! The wallpaper asset service of hosts without managed wallpapers: what
//! each operation answers, and the metadata patch that updates an asset.

use vstd::prelude::*;
use crate::app_contract::{
    ResolvedWallpaperSource, WallpaperAssetRecord, WallpaperCollection, WallpaperImportRequest,
    WallpaperLibrarySnapshot, WallpaperSelection,
};

verus! {

/// Changes to a managed wallpaper asset; each field that is present
/// replaces the stored one.
#[derive(Debug, Clone, PartialEq, Eq)]
pub struct WallpaperAssetMetadataPatch {
    pub display_name: Option<String>,
    pub favorite: Option<bool>,
    pub tags: Option<Vec<String>>,
    pub collection_ids: Option<Vec<String>>,
}

impl Default for WallpaperAssetMetadataPatch {
    fn default() -> (r: Self)
        ensures
            r.display_name.is_none(),
            r.favorite.is_none(),
            r.tags.is_none(),
            r.collection_ids.is_none(),
    {
        WallpaperAssetMetadataPatch { display_name: None, favorite: None, tags: None, collection_ids: None }
    }
}

/// The error every unsupported operation reports.
pub open spec fn unsupported_message(op: Seq<char>) -> Seq<char> {
    "wallpaper asset service unavailable: "@ + op
}

/// Wallpaper asset service of targets without a managed library: the
/// library is empty, nothing resolves, and every change is refused.
#[derive(Debug, Clone, Copy, PartialEq, Eq, Structural)]
pub struct NoopWallpaperAssetService;

impl NoopWallpaperAssetService {
    fn unsupported(op: &str) -> (r: String)
        ensures
            r@ == unsupported_message(op@),
    {
        String::from_str("wallpaper asset service unavailable: ").concat(op)
    }

    /// Importing is refused.
    pub fn import_from_picker(&self, request: WallpaperImportRequest) -> (r: Result<WallpaperAssetRecord, String>)
        ensures
            r matches Err(e) && e@ == unsupported_message("import_from_picker"@),
    {
        Err(Self::unsupported("import_from_picker"))
    }

    /// The library is empty.
    pub fn list_library(&self) -> (r: Result<WallpaperLibrarySnapshot, String>)
        ensures
            r matches Ok(s) && s.assets@.len() == 0 && s.collections@.len() == 0 && s.soft_limit_bytes
                == 512 * 1024 * 1024 && s.used_bytes == 0,
    {
        Ok(WallpaperLibrarySnapshot::default())
    }

    /// Metadata updates are refused.
    pub fn update_asset_metadata(&self, asset_id: &str, patch: WallpaperAssetMetadataPatch) -> (r: Result<WallpaperAssetRecord, String>)
        ensures
            r matches Err(e) && e@ == unsupported_message("update_asset_metadata"@),
    {
        Err(Self::unsupported("update_asset_metadata"))
    }

    /// Creating a collection is refused.
    pub fn create_collection(&self, display_name: &str) -> (r: Result<WallpaperCollection, String>)
        ensures
            r matches Err(e) && e@ == unsupported_message("create_collection"@),
    {
        Err(Self::unsupported("create_collection"))
    }

    /// Renaming a collection is refused.
    pub fn rename_collection(&self, collection_id: &str, display_name: &str) -> (r: Result<WallpaperCollection, String>)
        ensures
            r matches Err(e) && e@ == unsupported_message("rename_collection"@),
    {
        Err(Self::unsupported("rename_collection"))
    }

    /// Deleting a collection is refused.
    pub fn delete_collection(&self, collection_id: &str) -> (r: Result<WallpaperLibrarySnapshot, String>)
        ensures
            r matches Err(e) && e@ == unsupported_message("delete_collection"@),
    {
        Err(Self::unsupported("delete_collection"))
    }

    /// Deleting an asset is refused.
    pub fn delete_asset(&self, asset_id: &str) -> (r: Result<WallpaperLibrarySnapshot, String>)
        ensures
            r matches Err(e) && e@ == unsupported_message("delete_asset"@),
    {
        Err(Self::unsupported("delete_asset"))
    }

    /// Nothing resolves to a source.
    pub fn resolve_source(&self, selection: WallpaperSelection) -> (r: Result<Option<ResolvedWallpaperSource>, String>)
        ensures
            r matches Ok(s) && s.is_none(),
    {
        Ok(None)
    }
}

} // verus!
