//! The registry of built-in apps: how each app appears in the launcher and
//! on the desktop, whether it runs once, its suspend policy and declared
//! capabilities, built from the manifests that five of the apps ship.

use vstd::prelude::*;
use vstd::string::*;
use crate::app_contract::{AppCapability, ApplicationId, SuspendPolicy};
use crate::apps::{APP_ID_CALCULATOR, APP_ID_DIALUP, APP_ID_EXPLORER, APP_ID_NOTEPAD, APP_ID_PAINT, APP_ID_SETTINGS, APP_ID_TERMINAL};
use crate::strings::str_eq;

verus! {

/// Default window size declared by a manifest.
#[derive(Debug, Clone, Copy, PartialEq, Eq, Structural)]
pub struct WindowDefaults {
    pub width: i32,
    pub height: i32,
}

/// What an app's manifest declares.
#[derive(Debug, Clone, PartialEq, Eq)]
pub struct AppManifestMetadata {
    pub display_name: String,
    pub requested_capabilities: Vec<AppCapability>,
    pub single_instance: bool,
    pub suspend_policy: SuspendPolicy,
    pub show_in_launcher: bool,
    pub show_on_desktop: bool,
    pub window_defaults: WindowDefaults,
}

pub struct ManifestView {
    pub display_name: Seq<char>,
    pub requested_capabilities: Seq<AppCapability>,
    pub single_instance: bool,
    pub suspend_policy: SuspendPolicy,
    pub show_in_launcher: bool,
    pub show_on_desktop: bool,
    pub window_defaults: WindowDefaults,
}

impl View for AppManifestMetadata {
    type V = ManifestView;

    open spec fn view(&self) -> ManifestView {
        ManifestView {
            display_name: self.display_name@,
            requested_capabilities: self.requested_capabilities@,
            single_instance: self.single_instance,
            suspend_policy: self.suspend_policy,
            show_in_launcher: self.show_in_launcher,
            show_on_desktop: self.show_on_desktop,
            window_defaults: self.window_defaults,
        }
    }
}

/// The manifests of the apps that ship one.
#[derive(Debug, Clone, PartialEq, Eq)]
pub struct AppManifestCatalog {
    pub calculator: AppManifestMetadata,
    pub explorer: AppManifestMetadata,
    pub notepad: AppManifestMetadata,
    pub terminal: AppManifestMetadata,
    pub settings: AppManifestMetadata,
}

/// How an app appears in the launcher and on the desktop and how it is
/// instantiated.
#[derive(Debug, Clone, PartialEq, Eq)]
pub struct AppDescriptor {
    pub app_id: ApplicationId,
    pub launcher_label: String,
    pub desktop_icon_label: String,
    pub show_in_launcher: bool,
    pub show_on_desktop: bool,
    pub single_instance: bool,
    pub suspend_policy: SuspendPolicy,
    pub requested_capabilities: Vec<AppCapability>,
}

pub struct AppDescriptorView {
    pub app_id: Seq<char>,
    pub launcher_label: Seq<char>,
    pub desktop_icon_label: Seq<char>,
    pub show_in_launcher: bool,
    pub show_on_desktop: bool,
    pub single_instance: bool,
    pub suspend_policy: SuspendPolicy,
    pub requested_capabilities: Seq<AppCapability>,
}

impl View for AppDescriptor {
    type V = AppDescriptorView;

    open spec fn view(&self) -> AppDescriptorView {
        AppDescriptorView {
            app_id: self.app_id@,
            launcher_label: self.launcher_label@,
            desktop_icon_label: self.desktop_icon_label@,
            show_in_launcher: self.show_in_launcher,
            show_on_desktop: self.show_on_desktop,
            single_instance: self.single_instance,
            suspend_policy: self.suspend_policy,
            requested_capabilities: self.requested_capabilities@,
        }
    }
}

pub open spec fn registry_view(v: Seq<AppDescriptor>) -> Seq<AppDescriptorView> {
    v.map_values(|d: AppDescriptor| d@)
}

/// The entry of an app that ships a manifest: labels from the display
/// name unless the desktop icon has its own.
pub open spec fn manifest_entry(app_id: Seq<char>, m: ManifestView, desktop_label: Option<Seq<char>>) -> AppDescriptorView {
    AppDescriptorView {
        app_id,
        launcher_label: m.display_name,
        desktop_icon_label: match desktop_label {
            Some(l) => l,
            None => m.display_name,
        },
        show_in_launcher: m.show_in_launcher,
        show_on_desktop: m.show_on_desktop,
        single_instance: m.single_instance,
        suspend_policy: m.suspend_policy,
        requested_capabilities: m.requested_capabilities,
    }
}

/// The entry of a placeholder app without a manifest: in the launcher,
/// not on the desktop, any number of instances, suspended on minimize.
pub open spec fn placeholder_entry(
    app_id: Seq<char>,
    launcher_label: Seq<char>,
    desktop_icon_label: Seq<char>,
    caps: Seq<AppCapability>,
) -> AppDescriptorView {
    AppDescriptorView {
        app_id,
        launcher_label,
        desktop_icon_label,
        show_in_launcher: true,
        show_on_desktop: false,
        single_instance: false,
        suspend_policy: SuspendPolicy::OnMinimize,
        requested_capabilities: caps,
    }
}

/// The registry, in launcher order.
pub open spec fn registry_spec(c: AppManifestCatalog) -> Seq<AppDescriptorView> {
    seq![
        manifest_entry("system.calculator"@, c.calculator@, None),
        manifest_entry("system.explorer"@, c.explorer@, None),
        manifest_entry("system.notepad"@, c.notepad@, Some("Notes"@)),
        placeholder_entry("system.paint"@, "Paint"@, "Paint"@, seq![AppCapability::Window, AppCapability::State]),
        manifest_entry("system.terminal"@, c.terminal@, None),
        manifest_entry("system.settings"@, c.settings@, Some("Settings"@)),
        placeholder_entry("system.dialup"@, "Dial-up"@, "Connect"@, seq![AppCapability::Window]),
    ]
}

fn copy_capabilities(caps: &Vec<AppCapability>) -> (r: Vec<AppCapability>)
    ensures
        r@ == caps@,
{
    let mut out: Vec<AppCapability> = Vec::new();
    let mut i: usize = 0;
    while i < caps.len()
        invariant
            i <= caps@.len(),
            out@ == caps@.take(i as int),
        decreases caps@.len() - i,
    {
        out.push(caps[i]);
        assert(caps@.take(i + 1) =~= caps@.take(i as int).push(caps@[i as int]));
        i = i + 1;
    }
    assert(caps@.take(i as int) =~= caps@);
    out
}

fn from_manifest(app_id: &str, m: &AppManifestMetadata, desktop_label: Option<&str>) -> (r: AppDescriptor)
    ensures
        r@ == manifest_entry(
            app_id@,
            m@,
            match desktop_label {
                Some(l) => Some(l@),
                None => None,
            },
        ),
{
    AppDescriptor {
        app_id: ApplicationId::trusted(String::from_str(app_id)),
        launcher_label: m.display_name.clone(),
        desktop_icon_label: match desktop_label {
            Some(l) => String::from_str(l),
            None => m.display_name.clone(),
        },
        show_in_launcher: m.show_in_launcher,
        show_on_desktop: m.show_on_desktop,
        single_instance: m.single_instance,
        suspend_policy: m.suspend_policy,
        requested_capabilities: copy_capabilities(&m.requested_capabilities),
    }
}

fn placeholder(app_id: &str, launcher_label: &str, desktop_icon_label: &str, caps: Vec<AppCapability>) -> (r: AppDescriptor)
    ensures
        r@ == placeholder_entry(app_id@, launcher_label@, desktop_icon_label@, caps@),
{
    AppDescriptor {
        app_id: ApplicationId::trusted(String::from_str(app_id)),
        launcher_label: String::from_str(launcher_label),
        desktop_icon_label: String::from_str(desktop_icon_label),
        show_in_launcher: true,
        show_on_desktop: false,
        single_instance: false,
        suspend_policy: SuspendPolicy::OnMinimize,
        requested_capabilities: caps,
    }
}

/// The built-in app registry for the given manifests.
pub fn build_app_registry(catalog: &AppManifestCatalog) -> (r: Vec<AppDescriptor>)
    ensures
        registry_view(r@) == registry_spec(*catalog),
{
    let mut v: Vec<AppDescriptor> = Vec::new();
    v.push(from_manifest(APP_ID_CALCULATOR, &catalog.calculator, None));
    v.push(from_manifest(APP_ID_EXPLORER, &catalog.explorer, None));
    v.push(from_manifest(APP_ID_NOTEPAD, &catalog.notepad, Some("Notes")));
    let mut paint_caps: Vec<AppCapability> = Vec::new();
    paint_caps.push(AppCapability::Window);
    paint_caps.push(AppCapability::State);
    assert(paint_caps@ =~= seq![AppCapability::Window, AppCapability::State]);
    v.push(placeholder(APP_ID_PAINT, "Paint", "Paint", paint_caps));
    v.push(from_manifest(APP_ID_TERMINAL, &catalog.terminal, None));
    v.push(from_manifest(APP_ID_SETTINGS, &catalog.settings, Some("Settings")));
    let mut dialup_caps: Vec<AppCapability> = Vec::new();
    dialup_caps.push(AppCapability::Window);
    assert(dialup_caps@ =~= seq![AppCapability::Window]);
    v.push(placeholder(APP_ID_DIALUP, "Dial-up", "Connect", dialup_caps));
    assert(registry_view(v@) =~= registry_spec(*catalog));
    v
}

impl AppDescriptor {
    /// A copy with the same view.
    pub fn duplicate(&self) -> (r: Self)
        ensures
            r@ == self@,
    {
        AppDescriptor {
            app_id: self.app_id.duplicate(),
            launcher_label: self.launcher_label.clone(),
            desktop_icon_label: self.desktop_icon_label.clone(),
            show_in_launcher: self.show_in_launcher,
            show_on_desktop: self.show_on_desktop,
            single_instance: self.single_instance,
            suspend_policy: self.suspend_policy,
            requested_capabilities: copy_capabilities(&self.requested_capabilities),
        }
    }
}

/// The apps listed in launcher menus, in registry order.
pub fn launcher_apps(registry: &Vec<AppDescriptor>) -> (r: Vec<AppDescriptor>)
    ensures
        registry_view(r@) == registry_view(registry@).filter(|d: AppDescriptorView| d.show_in_launcher),
{
    let ghost rv = registry_view(registry@);
    let mut out: Vec<AppDescriptor> = Vec::new();
    let mut i: usize = 0;
    assert(rv.take(0).filter(|d: AppDescriptorView| d.show_in_launcher) =~= Seq::<AppDescriptorView>::empty());
    while i < registry.len()
        invariant
            rv == registry_view(registry@),
            i <= registry@.len(),
            registry_view(out@) == rv.take(i as int).filter(|d: AppDescriptorView| d.show_in_launcher),
        decreases registry@.len() - i,
    {
        proof {
            rv.take(i as int).lemma_filter_push(rv[i as int], |d: AppDescriptorView| d.show_in_launcher);
            assert(rv.take(i as int).push(rv[i as int]) =~= rv.take(i + 1));
        }
        if registry[i].show_in_launcher {
            let ghost before = registry_view(out@);
            out.push(registry[i].duplicate());
            assert(registry_view(out@) =~= before.push(rv[i as int]));
        }
        i = i + 1;
    }
    assert(rv.take(i as int) =~= rv);
    out
}

/// The apps shown as desktop icons, in registry order.
pub fn desktop_icon_apps(registry: &Vec<AppDescriptor>) -> (r: Vec<AppDescriptor>)
    ensures
        registry_view(r@) == registry_view(registry@).filter(|d: AppDescriptorView| d.show_on_desktop),
{
    let ghost rv = registry_view(registry@);
    let mut out: Vec<AppDescriptor> = Vec::new();
    let mut i: usize = 0;
    assert(rv.take(0).filter(|d: AppDescriptorView| d.show_on_desktop) =~= Seq::<AppDescriptorView>::empty());
    while i < registry.len()
        invariant
            rv == registry_view(registry@),
            i <= registry@.len(),
            registry_view(out@) == rv.take(i as int).filter(|d: AppDescriptorView| d.show_on_desktop),
        decreases registry@.len() - i,
    {
        proof {
            rv.take(i as int).lemma_filter_push(rv[i as int], |d: AppDescriptorView| d.show_on_desktop);
            assert(rv.take(i as int).push(rv[i as int]) =~= rv.take(i + 1));
        }
        if registry[i].show_on_desktop {
            let ghost before = registry_view(out@);
            out.push(registry[i].duplicate());
            assert(registry_view(out@) =~= before.push(rv[i as int]));
        }
        i = i + 1;
    }
    assert(rv.take(i as int) =~= rv);
    out
}

/// `i` is the first registry position of `app_id`.
pub open spec fn first_entry_of(reg: Seq<AppDescriptorView>, app_id: Seq<char>, i: int) -> bool {
    &&& 0 <= i < reg.len()
    &&& reg[i].app_id == app_id
    &&& forall|j: int| 0 <= j < i ==> (#[trigger] reg[j]).app_id != app_id
}

pub open spec fn is_registered(reg: Seq<AppDescriptorView>, app_id: Seq<char>) -> bool {
    exists|i: int| 0 <= i < reg.len() && (#[trigger] reg[i]).app_id == app_id
}

/// The registry position of an app, if it is registered.
pub fn find_app_descriptor(registry: &Vec<AppDescriptor>, app_id: &ApplicationId) -> (r: Option<usize>)
    ensures
        match r {
            Some(i) => first_entry_of(registry_view(registry@), app_id@, i as int),
            None => !is_registered(registry_view(registry@), app_id@),
        },
{
    let ghost rv = registry_view(registry@);
    let mut i: usize = 0;
    while i < registry.len()
        invariant
            rv == registry_view(registry@),
            i <= registry@.len(),
            forall|j: int| 0 <= j < i ==> (#[trigger] rv[j]).app_id != app_id@,
        decreases registry@.len() - i,
    {
        if str_eq(registry[i].app_id.as_str(), app_id.as_str()) {
            return Some(i);
        }
        i = i + 1;
    }
    None
}

/// The descriptor of a registered app.
pub fn app_descriptor_by_id<'a>(registry: &'a Vec<AppDescriptor>, app_id: &ApplicationId) -> (r: &'a AppDescriptor)
    requires
        is_registered(registry_view(registry@), app_id@),
    ensures
        exists|i: int| first_entry_of(registry_view(registry@), app_id@, i) && r@ == registry_view(registry@)[i],
{
    match find_app_descriptor(registry, app_id) {
        Some(i) => &registry[i],
        None => {
            proof {
                assert(false);
            }
            &registry[0]
        },
    }
}

/// The suspend policy of a registered app.
pub fn app_suspend_policy_by_id(registry: &Vec<AppDescriptor>, app_id: &ApplicationId) -> (r: SuspendPolicy)
    requires
        is_registered(registry_view(registry@), app_id@),
    ensures
        exists|i: int| first_entry_of(registry_view(registry@), app_id@, i) && r == registry_view(registry@)[i].suspend_policy,
{
    app_descriptor_by_id(registry, app_id).suspend_policy
}

/// The declared capabilities of a registered app.
pub fn app_requested_capabilities_by_id<'a>(registry: &'a Vec<AppDescriptor>, app_id: &ApplicationId) -> (r: &'a [AppCapability])
    requires
        is_registered(registry_view(registry@), app_id@),
    ensures
        exists|i: int| first_entry_of(registry_view(registry@), app_id@, i) && r@ == registry_view(registry@)[i].requested_capabilities,
{
    app_descriptor_by_id(registry, app_id).requested_capabilities.as_slice()
}

/// The shell title of a registered app: its launcher label.
pub fn app_title_by_id<'a>(registry: &'a Vec<AppDescriptor>, app_id: &ApplicationId) -> (r: &'a str)
    requires
        is_registered(registry_view(registry@), app_id@),
    ensures
        exists|i: int| first_entry_of(registry_view(registry@), app_id@, i) && r@ == registry_view(registry@)[i].launcher_label,
{
    app_descriptor_by_id(registry, app_id).launcher_label.as_str()
}

} // verus!
