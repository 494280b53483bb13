//! The built-in app catalog: canonical application ids, legacy id
//! compatibility, privileges, icons and the pinned taskbar apps.

use vstd::prelude::*;
use vstd::string::*;
use crate::app_contract::{valid_application_id, ApplicationId};
use crate::icons::IconName;
use crate::model::AppId;
use crate::strings::{str_eq, trim, trimmed};

verus! {

pub const APP_ID_CALCULATOR: &'static str = "system.calculator";
pub const APP_ID_EXPLORER: &'static str = "system.explorer";
pub const APP_ID_NOTEPAD: &'static str = "system.notepad";
pub const APP_ID_PAINT: &'static str = "system.paint";
pub const APP_ID_TERMINAL: &'static str = "system.terminal";
pub const APP_ID_SETTINGS: &'static str = "system.settings";
pub const APP_ID_DIALUP: &'static str = "system.dialup";

/// The canonical application id of a built-in app.
pub open spec fn canonical_id_spec(a: AppId) -> Seq<char> {
    match a {
        AppId::Calculator => "system.calculator"@,
        AppId::Explorer => "system.explorer"@,
        AppId::Notepad => "system.notepad"@,
        AppId::Paint => "system.paint"@,
        AppId::Terminal => "system.terminal"@,
        AppId::Dialup => "system.dialup"@,
    }
}

impl AppId {
    /// The canonical application id of this built-in app.
    pub fn canonical_id(self) -> (r: &'static str)
        ensures
            r@ == canonical_id_spec(self),
    {
        match self {
            AppId::Calculator => "system.calculator",
            AppId::Explorer => "system.explorer",
            AppId::Notepad => "system.notepad",
            AppId::Paint => "system.paint",
            AppId::Terminal => "system.terminal",
            AppId::Dialup => "system.dialup",
        }
    }
}

/// Privileged apps may register global shell commands.
pub open spec fn is_privileged_id(id: Seq<char>) -> bool {
    id == "system.settings"@
}

/// Whether `app_id` is privileged in shell policy.
pub fn app_is_privileged_by_id(app_id: &ApplicationId) -> (r: bool)
    ensures
        r == is_privileged_id(app_id@),
{
    str_eq(app_id.as_str(), APP_ID_SETTINGS)
}

/// Whether a built-in app is privileged in shell policy.
pub fn app_is_privileged(app_id: AppId) -> (r: bool)
    ensures
        r == is_privileged_id(canonical_id_spec(app_id)),
{
    str_eq(app_id.canonical_id(), APP_ID_SETTINGS)
}

/// Legacy serialized app names and the canonical ids they stand for.
pub open spec fn legacy_mapping(raw: Seq<char>) -> Option<Seq<char>> {
    if raw == "Calculator"@ {
        Some("system.calculator"@)
    } else if raw == "Explorer"@ {
        Some("system.explorer"@)
    } else if raw == "Notepad"@ {
        Some("system.notepad"@)
    } else if raw == "Paint"@ {
        Some("system.paint"@)
    } else if raw == "Terminal"@ {
        Some("system.terminal"@)
    } else if raw == "Settings"@ {
        Some("system.settings"@)
    } else if raw == "Dialup"@ {
        Some("system.dialup"@)
    } else {
        None
    }
}

fn legacy_canonical(raw: &str) -> (r: Option<&'static str>)
    ensures
        match r {
            Some(c) => legacy_mapping(raw@) == Some(c@),
            None => legacy_mapping(raw@) is None,
        },
{
    if str_eq(raw, "Calculator") {
        Some(APP_ID_CALCULATOR)
    } else if str_eq(raw, "Explorer") {
        Some(APP_ID_EXPLORER)
    } else if str_eq(raw, "Notepad") {
        Some(APP_ID_NOTEPAD)
    } else if str_eq(raw, "Paint") {
        Some(APP_ID_PAINT)
    } else if str_eq(raw, "Terminal") {
        Some(APP_ID_TERMINAL)
    } else if str_eq(raw, "Settings") {
        Some(APP_ID_SETTINGS)
    } else if str_eq(raw, "Dialup") {
        Some(APP_ID_DIALUP)
    } else {
        None
    }
}

/// The id a serialized app id stands for: the trimmed text when it is a
/// valid id, else the canonical id of a legacy app name.
pub open spec fn compat_id(raw: Seq<char>) -> Option<Seq<char>> {
    if valid_application_id(trimmed(raw)) {
        Some(trimmed(raw))
    } else {
        legacy_mapping(trimmed(raw))
    }
}

/// Parses a canonical or legacy serialized app id.
pub fn parse_application_id_compat(raw: &str) -> (r: Option<ApplicationId>)
    ensures
        match r {
            Some(id) => compat_id(raw@) == Some(id@),
            None => compat_id(raw@) is None,
        },
{
    let t = trim(raw);
    match ApplicationId::new(String::from_str(t)) {
        Ok(id) => Some(id),
        Err(_) => match legacy_canonical(t) {
            Some(c) => Some(ApplicationId::trusted(String::from_str(c))),
            None => None,
        },
    }
}

/// Icon id of an app.
pub open spec fn icon_id_spec(id: Seq<char>) -> Seq<char> {
    if id == "system.calculator"@ {
        "calculator"@
    } else if id == "system.explorer"@ {
        "folder"@
    } else if id == "system.notepad"@ {
        "notepad"@
    } else if id == "system.paint"@ {
        "paint"@
    } else if id == "system.terminal"@ {
        "terminal"@
    } else if id == "system.settings"@ {
        "settings"@
    } else if id == "system.dialup"@ {
        "modem"@
    } else {
        "window"@
    }
}

/// The default icon id of an app.
pub fn app_icon_id_by_id(app_id: &ApplicationId) -> (r: &'static str)
    ensures
        r@ == icon_id_spec(app_id@),
{
    let id = app_id.as_str();
    if str_eq(id, APP_ID_CALCULATOR) {
        "calculator"
    } else if str_eq(id, APP_ID_EXPLORER) {
        "folder"
    } else if str_eq(id, APP_ID_NOTEPAD) {
        "notepad"
    } else if str_eq(id, APP_ID_PAINT) {
        "paint"
    } else if str_eq(id, APP_ID_TERMINAL) {
        "terminal"
    } else if str_eq(id, APP_ID_SETTINGS) {
        "settings"
    } else if str_eq(id, APP_ID_DIALUP) {
        "modem"
    } else {
        "window"
    }
}

/// Semantic icon of an app.
pub open spec fn icon_name_spec(id: Seq<char>) -> IconName {
    if id == "system.calculator"@ {
        IconName::Calculator
    } else if id == "system.explorer"@ {
        IconName::ExplorerFolder
    } else if id == "system.notepad"@ {
        IconName::DocumentText
    } else if id == "system.paint"@ {
        IconName::PaintBrush
    } else if id == "system.terminal"@ {
        IconName::Terminal
    } else if id == "system.settings"@ {
        IconName::Settings
    } else if id == "system.dialup"@ {
        IconName::Connect
    } else {
        IconName::WindowMultiple
    }
}

/// The semantic shell icon of an app.
pub fn app_icon_name_by_id(app_id: &ApplicationId) -> (r: IconName)
    ensures
        r == icon_name_spec(app_id@),
{
    let id = app_id.as_str();
    if str_eq(id, APP_ID_CALCULATOR) {
        IconName::Calculator
    } else if str_eq(id, APP_ID_EXPLORER) {
        IconName::ExplorerFolder
    } else if str_eq(id, APP_ID_NOTEPAD) {
        IconName::DocumentText
    } else if str_eq(id, APP_ID_PAINT) {
        IconName::PaintBrush
    } else if str_eq(id, APP_ID_TERMINAL) {
        IconName::Terminal
    } else if str_eq(id, APP_ID_SETTINGS) {
        IconName::Settings
    } else if str_eq(id, APP_ID_DIALUP) {
        IconName::Connect
    } else {
        IconName::WindowMultiple
    }
}

/// The system settings application id.
pub fn settings_application_id() -> (r: ApplicationId)
    ensures
        r@ == "system.settings"@,
{
    ApplicationId::trusted(String::from_str(APP_ID_SETTINGS))
}

/// Whether `app_id` is the built-in dial-up app.
pub fn is_dialup_application_id(app_id: &ApplicationId) -> (r: bool)
    ensures
        r == (app_id@ == "system.dialup"@),
{
    str_eq(app_id.as_str(), APP_ID_DIALUP)
}

/// Canonical ids of the pinned taskbar apps, in display order.
pub open spec fn pinned_ids_spec() -> Seq<Seq<char>> {
    seq!["system.explorer"@, "system.terminal"@, "system.notepad"@, "system.calculator"@]
}

pub fn pinned_taskbar_app_ids() -> (r: Vec<ApplicationId>)
    ensures
        r@.map_values(|a: ApplicationId| a@) == pinned_ids_spec(),
{
    let mut v: Vec<ApplicationId> = Vec::new();
    v.push(ApplicationId::trusted(String::from_str(APP_ID_EXPLORER)));
    v.push(ApplicationId::trusted(String::from_str(APP_ID_TERMINAL)));
    v.push(ApplicationId::trusted(String::from_str(APP_ID_NOTEPAD)));
    v.push(ApplicationId::trusted(String::from_str(APP_ID_CALCULATOR)));
    assert(v@.map_values(|a: ApplicationId| a@) =~= pinned_ids_spec());
    v
}

} // verus!
