//! Contract types shared between the desktop runtime and managed apps:
//! application identifiers, capabilities, lifecycle events, wallpaper
//! configuration and command registration handles.

use vstd::prelude::*;
use vstd::string::*;
use serde_json::Value;

verus! {

// ---------------------------------------------------------------------
// Application identifiers
// ---------------------------------------------------------------------

/// Maximum length of an application id.
pub const MAX_APPLICATION_ID_LEN: usize = 120;

/// Maximum length of one dotted segment of an application id.
pub const MAX_APPLICATION_ID_SEGMENT_LEN: usize = 32;

pub open spec fn is_id_lower(c: char) -> bool {
    'a' <= c && c <= 'z'
}

/// Characters allowed inside a segment: lowercase ASCII letters, digits
/// and `-`.
pub open spec fn is_id_char(c: char) -> bool {
    is_id_lower(c) || ('0' <= c && c <= '9') || c == '-'
}

/// The pieces of `s` between dots, as `str::split('.')` yields them (the
/// empty text has one empty piece).
pub open spec fn dot_segments(s: Seq<char>) -> Seq<Seq<char>>
    decreases s.len(),
{
    if s.len() == 0 {
        seq![Seq::<char>::empty()]
    } else {
        let prev = dot_segments(s.drop_last());
        if s.last() == '.' {
            prev.push(Seq::<char>::empty())
        } else {
            prev.update(prev.len() - 1, prev.last().push(s.last()))
        }
    }
}

/// One segment of a valid id: 1 to 32 characters, a lowercase letter
/// first, then lowercase letters, digits and `-`, and no trailing `-`.
pub open spec fn valid_segment(seg: Seq<char>) -> bool {
    &&& 1 <= seg.len() <= MAX_APPLICATION_ID_SEGMENT_LEN
    &&& is_id_lower(seg[0])
    &&& forall|k: int| 0 <= k < seg.len() ==> is_id_char(#[trigger] seg[k])
    &&& seg.last() != '-'
}

/// The `segment.segment...` policy: at most 120 characters, at least two
/// dotted segments, each of them valid. (A valid id is ASCII, so its
/// character count is its byte length.)
pub open spec fn valid_application_id(s: Seq<char>) -> bool {
    &&& 1 <= s.len() <= MAX_APPLICATION_ID_LEN
    &&& dot_segments(s).len() >= 2
    &&& forall|k: int| 0 <= k < dot_segments(s).len() ==> valid_segment(#[trigger] dot_segments(s)[k])
}

/// A segment read so far can still become valid.
pub open spec fn segment_prefix_ok(seg: Seq<char>) -> bool {
    &&& seg.len() <= MAX_APPLICATION_ID_SEGMENT_LEN
    &&& seg.len() > 0 ==> is_id_lower(seg[0])
    &&& forall|k: int| 0 <= k < seg.len() ==> is_id_char(#[trigger] seg[k])
}

/// Every finished segment of `s` is valid and the open one can still be.
pub open spec fn id_prefix_ok(s: Seq<char>) -> bool {
    &&& forall|k: int|
        0 <= k < dot_segments(s).len() - 1 ==> valid_segment(#[trigger] dot_segments(s)[k])
    &&& segment_prefix_ok(dot_segments(s).last())
}

pub proof fn lemma_dot_segments_nonempty(s: Seq<char>)
    ensures
        dot_segments(s).len() >= 1,
    decreases s.len(),
{
    if s.len() > 0 {
        lemma_dot_segments_nonempty(s.drop_last());
    }
}

proof fn lemma_id_prefix_step(s: Seq<char>, i: int)
    requires
        0 <= i < s.len(),
    ensures
        dot_segments(s.take(i + 1)).len() == dot_segments(s.take(i)).len() + (if s[i] == '.' {
            1int
        } else {
            0int
        }),
        s[i] == '.' ==> dot_segments(s.take(i + 1)).last().len() == 0,
        s[i] != '.' ==> dot_segments(s.take(i + 1)).last() == dot_segments(s.take(i)).last().push(
            s[i],
        ),
        id_prefix_ok(s.take(i + 1)) == (if s[i] == '.' {
            id_prefix_ok(s.take(i)) && dot_segments(s.take(i)).last().len() >= 1
                && dot_segments(s.take(i)).last().last() != '-'
        } else {
            id_prefix_ok(s.take(i)) && dot_segments(s.take(i)).last().len() + 1
                <= MAX_APPLICATION_ID_SEGMENT_LEN && (dot_segments(s.take(i)).last().len() == 0
                ==> is_id_lower(s[i])) && is_id_char(s[i])
        }),
{
    let t = s.take(i + 1);
    assert(t.drop_last() =~= s.take(i));
    assert(t.last() == s[i]);
    let prev = dot_segments(s.take(i));
    lemma_dot_segments_nonempty(s.take(i));
    let cur = dot_segments(t);
    let last = prev.last();
    if s[i] == '.' {
        assert(cur == prev.push(Seq::<char>::empty()));
        if id_prefix_ok(t) {
            assert(valid_segment(cur[prev.len() - 1]));
            assert forall|k: int| 0 <= k < prev.len() - 1 implies valid_segment(#[trigger] prev[k]) by {
                assert(valid_segment(cur[k]));
            }
        }
        if id_prefix_ok(s.take(i)) && last.len() >= 1 && last.last() != '-' {
            assert forall|k: int| 0 <= k < cur.len() - 1 implies valid_segment(#[trigger] cur[k]) by {
                if k < prev.len() - 1 {
                    assert(cur[k] == prev[k]);
                }
            }
        }
    } else {
        let nl = last.push(s[i]);
        assert(cur == prev.update(prev.len() - 1, nl));
        assert(cur.last() == nl);
        if id_prefix_ok(t) {
            assert forall|k: int| 0 <= k < prev.len() - 1 implies valid_segment(#[trigger] prev[k]) by {
                assert(cur[k] == prev[k]);
            }
            assert forall|k: int| 0 <= k < last.len() implies is_id_char(#[trigger] last[k]) by {
                assert(nl[k] == last[k]);
            }
            assert(is_id_char(nl[last.len() as int]));
            if last.len() > 0 {
                assert(nl[0] == last[0]);
            }
        }
        if id_prefix_ok(s.take(i)) && last.len() + 1 <= MAX_APPLICATION_ID_SEGMENT_LEN && (last.len()
            == 0 ==> is_id_lower(s[i])) && is_id_char(s[i]) {
            assert forall|k: int| 0 <= k < cur.len() - 1 implies valid_segment(#[trigger] cur[k]) by {
                assert(cur[k] == prev[k]);
            }
            assert forall|k: int| 0 <= k < nl.len() implies is_id_char(#[trigger] nl[k]) by {
                if k < last.len() {
                    assert(nl[k] == last[k]);
                }
            }
            if last.len() > 0 {
                assert(nl[0] == last[0]);
            }
        }
    }
}

fn is_lower_ascii(c: char) -> (b: bool)
    ensures
        b == is_id_lower(c),
{
    'a' <= c && c <= 'z'
}

fn is_segment_char(c: char) -> (b: bool)
    ensures
        b == is_id_char(c),
{
    ('a' <= c && c <= 'z') || ('0' <= c && c <= '9') || c == '-'
}

/// Whether `raw` follows the `segment.segment...` id policy.
pub fn is_valid_application_id(raw: &str) -> (b: bool)
    ensures
        b == valid_application_id(raw@),
{
    let ghost s = raw@;
    let n = raw.unicode_len();
    if n == 0 || n > MAX_APPLICATION_ID_LEN {
        return false;
    }
    let mut ok = true;
    let mut seg_len: usize = 0;
    let mut count: usize = 1;
    let mut last: char = '.';
    let mut i: usize = 0;
    assert(s.take(0) =~= Seq::<char>::empty());
    assert(dot_segments(s.take(0)) == seq![Seq::<char>::empty()]);
    while i < n
        invariant
            s == raw@,
            n == s.len(),
            n <= MAX_APPLICATION_ID_LEN,
            i <= n,
            ok == id_prefix_ok(s.take(i as int)),
            count == dot_segments(s.take(i as int)).len(),
            seg_len == dot_segments(s.take(i as int)).last().len(),
            seg_len > 0 ==> last == dot_segments(s.take(i as int)).last().last(),
            count <= i + 1,
            seg_len <= i,
        decreases n - i,
    {
        let c = raw.get_char(i);
        proof {
            lemma_id_prefix_step(s, i as int);
        }
        if c == '.' {
            ok = ok && seg_len >= 1 && last != '-';
            seg_len = 0;
            count = count + 1;
        } else {
            ok = ok && seg_len + 1 <= MAX_APPLICATION_ID_SEGMENT_LEN && (seg_len > 0
                || is_lower_ascii(c)) && is_segment_char(c);
            seg_len = seg_len + 1;
        }
        last = c;
        i = i + 1;
    }
    assert(s.take(n as int) =~= s);
    proof {
        let segs = dot_segments(s);
        lemma_dot_segments_nonempty(s);
        if valid_application_id(s) {
            assert(valid_segment(segs[segs.len() - 1]));
            assert(segs.last() == segs[segs.len() - 1]);
        }
        if ok && seg_len >= 1 && last != '-' && count >= 2 {
            assert forall|k: int| 0 <= k < segs.len() implies valid_segment(#[trigger] segs[k]) by {
                if k == segs.len() - 1 {
                    assert(segs.last() == segs[k]);
                }
            }
        }
    }
    ok && seg_len >= 1 && last != '-' && count >= 2
}

/// The error text for an id that breaks the policy.
pub open spec fn invalid_id_message(raw: Seq<char>) -> Seq<char> {
    "invalid application id `"@ + raw + "`; expected namespaced dotted segments"@
}

/// Stable identifier for an app package or module.
#[derive(Debug, Clone, PartialEq, Eq, Hash)]
pub struct ApplicationId(String);

impl ApplicationId {
    /// The identifier's text.
    pub closed spec fn text(&self) -> Seq<char> {
        self.0@
    }
}

impl View for ApplicationId {
    type V = Seq<char>;

    open spec fn view(&self) -> Seq<char> {
        self.text()
    }
}

impl ApplicationId {
    /// An identifier for `raw` when it follows the `segment.segment...`
    /// policy, otherwise the error text naming it.
    pub fn new(raw: String) -> (r: Result<Self, String>)
        ensures
            match r {
                Ok(id) => valid_application_id(raw@) && id@ == raw@,
                Err(msg) => !valid_application_id(raw@) && msg@ == invalid_id_message(raw@),
            },
    {
        if is_valid_application_id(raw.as_str()) {
            Ok(ApplicationId(raw))
        } else {
            let msg = String::from_str("invalid application id `").concat(raw.as_str()).concat(
                "`; expected namespaced dotted segments",
            );
            Err(msg)
        }
    }

    /// The identifier's text.
    pub fn as_str(&self) -> (r: &str)
        ensures
            r@ == self@,
    {
        self.0.as_str()
    }

    /// An identifier taken as given, for trusted built-in constants.
    pub fn trusted(raw: String) -> (r: Self)
        ensures
            r@ == raw@,
    {
        ApplicationId(raw)
    }

    /// A copy of this identifier.
    pub fn duplicate(&self) -> (r: Self)
        ensures
            r@ == self@,
    {
        ApplicationId(self.0.clone())
    }
}

// ---------------------------------------------------------------------
// Capabilities and lifecycle
// ---------------------------------------------------------------------

/// Declared app capability scopes enforced by runtime policy.
#[derive(Debug, Clone, Copy, PartialEq, Eq, Structural)]
pub enum AppCapability {
    Window,
    State,
    Config,
    Theme,
    Wallpaper,
    Notifications,
    Ipc,
    ExternalUrl,
    Commands,
}

/// Lifecycle events emitted by the desktop window manager.
#[derive(Debug, Clone, Copy, PartialEq, Eq, Structural)]
pub enum AppLifecycleEvent {
    Mounted,
    Focused,
    Blurred,
    Minimized,
    Restored,
    Suspended,
    Resumed,
    Closing,
    Closed,
}

/// The stable string token of a lifecycle event.
pub open spec fn lifecycle_token(e: AppLifecycleEvent) -> Seq<char> {
    match e {
        AppLifecycleEvent::Mounted => "mounted"@,
        AppLifecycleEvent::Focused => "focused"@,
        AppLifecycleEvent::Blurred => "blurred"@,
        AppLifecycleEvent::Minimized => "minimized"@,
        AppLifecycleEvent::Restored => "restored"@,
        AppLifecycleEvent::Suspended => "suspended"@,
        AppLifecycleEvent::Resumed => "resumed"@,
        AppLifecycleEvent::Closing => "closing"@,
        AppLifecycleEvent::Closed => "closed"@,
    }
}

impl AppLifecycleEvent {
    /// A stable string token for persistence and debugging hooks.
    pub fn token(self) -> (r: &'static str)
        ensures
            r@ == lifecycle_token(self),
    {
        match self {
            AppLifecycleEvent::Mounted => "mounted",
            AppLifecycleEvent::Focused => "focused",
            AppLifecycleEvent::Blurred => "blurred",
            AppLifecycleEvent::Minimized => "minimized",
            AppLifecycleEvent::Restored => "restored",
            AppLifecycleEvent::Suspended => "suspended",
            AppLifecycleEvent::Resumed => "resumed",
            AppLifecycleEvent::Closing => "closing",
            AppLifecycleEvent::Closed => "closed",
        }
    }
}

/// Manager policy controlling app suspension.
#[derive(Debug, Clone, Copy, PartialEq, Eq, Structural)]
pub enum SuspendPolicy {
    OnMinimize,
    Never,
}

impl Default for SuspendPolicy {
    fn default() -> (r: Self)
        ensures
            r == SuspendPolicy::OnMinimize,
    {
        SuspendPolicy::OnMinimize
    }
}

/// Typed IPC envelope delivered through runtime-managed app inboxes.
#[derive(Debug, Clone, PartialEq)]
pub struct AppEvent {
    pub schema_version: u32,
    pub topic: String,
    pub payload: Value,
    pub correlation_id: Option<String>,
    pub reply_to: Option<String>,
    pub source_app_id: Option<String>,
    pub source_window_id: Option<u64>,
    pub timestamp_unix_ms: Option<u64>,
}

impl AppEvent {
    /// A version 1 event for `topic` carrying `payload`.
    pub fn new(topic: String, payload: Value, source_window_id: Option<u64>) -> (r: Self)
        ensures
            r.schema_version == 1,
            r.topic@ == topic@,
            r.payload == payload,
            r.correlation_id.is_none(),
            r.reply_to.is_none(),
            r.source_app_id.is_none(),
            r.source_window_id == source_window_id,
            r.timestamp_unix_ms.is_none(),
    {
        AppEvent {
            schema_version: 1,
            topic,
            payload,
            correlation_id: None,
            reply_to: None,
            source_app_id: None,
            source_window_id,
            timestamp_unix_ms: None,
        }
    }

    /// The event with request/reply metadata attached.
    pub fn with_correlation(self, correlation_id: Option<String>, reply_to: Option<String>) -> (r:
        Self)
        ensures
            r == (AppEvent { correlation_id: correlation_id, reply_to: reply_to, ..self }),
    {
        let mut e = self;
        e.correlation_id = correlation_id;
        e.reply_to = reply_to;
        e
    }
}

// ---------------------------------------------------------------------
// Wallpaper configuration
// ---------------------------------------------------------------------

/// Identifies a built-in wallpaper or an imported managed asset.
#[derive(Debug, Clone, PartialEq, Eq)]
pub enum WallpaperSelection {
    BuiltIn { wallpaper_id: String },
    Imported { asset_id: String },
}

impl Default for WallpaperSelection {
    fn default() -> (r: Self)
        ensures
            r matches WallpaperSelection::BuiltIn { wallpaper_id } && wallpaper_id@ == "cloud-bands"@,
    {
        WallpaperSelection::BuiltIn { wallpaper_id: String::from_str("cloud-bands") }
    }
}

/// Desktop wallpaper display modes.
#[derive(Debug, Clone, Copy, PartialEq, Eq, Structural)]
pub enum WallpaperDisplayMode {
    Fill,
    Fit,
    Stretch,
    Tile,
    Center,
}

impl Default for WallpaperDisplayMode {
    fn default() -> (r: Self)
        ensures
            r == WallpaperDisplayMode::Fill,
    {
        WallpaperDisplayMode::Fill
    }
}

/// Anchor position for non-tiled wallpaper placement.
#[derive(Debug, Clone, Copy, PartialEq, Eq, Structural)]
pub enum WallpaperPosition {
    Center,
    TopLeft,
    Top,
    TopRight,
    Left,
    Right,
    BottomLeft,
    Bottom,
    BottomRight,
}

impl Default for WallpaperPosition {
    fn default() -> (r: Self)
        ensures
            r == WallpaperPosition::Center,
    {
        WallpaperPosition::Center
    }
}

/// Animation intent for wallpapers that can move.
#[derive(Debug, Clone, Copy, PartialEq, Eq, Structural)]
pub enum WallpaperAnimationPolicy {
    Static,
    LoopMuted,
}

impl Default for WallpaperAnimationPolicy {
    fn default() -> (r: Self)
        ensures
            r == WallpaperAnimationPolicy::Static,
    {
        WallpaperAnimationPolicy::Static
    }
}

/// Media kind used by the shell renderer.
#[derive(Debug, Clone, Copy, PartialEq, Eq, Structural)]
pub enum WallpaperMediaKind {
    StaticImage,
    AnimatedImage,
    Video,
    Svg,
}

impl Default for WallpaperMediaKind {
    fn default() -> (r: Self)
        ensures
            r == WallpaperMediaKind::StaticImage,
    {
        WallpaperMediaKind::StaticImage
    }
}

/// Source origin of a wallpaper asset.
#[derive(Debug, Clone, Copy, PartialEq, Eq, Structural)]
pub enum WallpaperSourceKind {
    BuiltIn,
    Imported,
}

impl Default for WallpaperSourceKind {
    fn default() -> (r: Self)
        ensures
            r == WallpaperSourceKind::Imported,
    {
        WallpaperSourceKind::Imported
    }
}

/// Current or previewed wallpaper configuration.
#[derive(Debug, Clone, PartialEq, Eq)]
pub struct WallpaperConfig {
    pub selection: WallpaperSelection,
    pub display_mode: WallpaperDisplayMode,
    pub position: WallpaperPosition,
    pub animation: WallpaperAnimationPolicy,
}

impl Default for WallpaperConfig {
    fn default() -> (r: Self)
        ensures
            r.selection matches WallpaperSelection::BuiltIn { wallpaper_id } && wallpaper_id@
                == "cloud-bands"@,
            r.display_mode == WallpaperDisplayMode::Fill,
            r.position == WallpaperPosition::Center,
            r.animation == WallpaperAnimationPolicy::Static,
    {
        WallpaperConfig {
            selection: WallpaperSelection::default(),
            display_mode: WallpaperDisplayMode::default(),
            position: WallpaperPosition::default(),
            animation: WallpaperAnimationPolicy::default(),
        }
    }
}

/// Managed wallpaper asset metadata known to the runtime library.
#[derive(Debug, Clone, PartialEq, Eq)]
pub struct WallpaperAssetRecord {
    pub asset_id: String,
    pub display_name: String,
    pub source_kind: WallpaperSourceKind,
    pub media_kind: WallpaperMediaKind,
    pub mime_type: String,
    pub byte_len: u64,
    pub natural_width: Option<u32>,
    pub natural_height: Option<u32>,
    pub duration_ms: Option<u64>,
    pub favorite: bool,
    pub tags: Vec<String>,
    pub collection_ids: Vec<String>,
    pub primary_url: String,
    pub poster_url: Option<String>,
    pub created_at_unix_ms: Option<u64>,
    pub last_used_at_unix_ms: Option<u64>,
}

impl Default for WallpaperAssetRecord {
    fn default() -> (r: Self)
        ensures
            r.asset_id@.len() == 0,
            r.display_name@.len() == 0,
            r.source_kind == WallpaperSourceKind::Imported,
            r.media_kind == WallpaperMediaKind::StaticImage,
            r.mime_type@.len() == 0,
            r.byte_len == 0,
            r.natural_width.is_none(),
            r.natural_height.is_none(),
            r.duration_ms.is_none(),
            !r.favorite,
            r.tags@.len() == 0,
            r.collection_ids@.len() == 0,
            r.primary_url@.len() == 0,
            r.poster_url.is_none(),
            r.created_at_unix_ms.is_none(),
            r.last_used_at_unix_ms.is_none(),
    {
        WallpaperAssetRecord {
            asset_id: String::new(),
            display_name: String::new(),
            source_kind: WallpaperSourceKind::default(),
            media_kind: WallpaperMediaKind::default(),
            mime_type: String::new(),
            byte_len: 0,
            natural_width: None,
            natural_height: None,
            duration_ms: None,
            favorite: false,
            tags: Vec::new(),
            collection_ids: Vec::new(),
            primary_url: String::new(),
            poster_url: None,
            created_at_unix_ms: None,
            last_used_at_unix_ms: None,
        }
    }
}

/// User-defined grouping for wallpaper library browsing.
#[derive(Debug, Clone, PartialEq, Eq)]
pub struct WallpaperCollection {
    pub collection_id: String,
    pub display_name: String,
    pub sort_order: i32,
}

impl Default for WallpaperCollection {
    fn default() -> (r: Self)
        ensures
            r.collection_id@.len() == 0,
            r.display_name@.len() == 0,
            r.sort_order == 0,
    {
        WallpaperCollection { collection_id: String::new(), display_name: String::new(), sort_order: 0 }
    }
}

/// Default soft storage limit of the wallpaper library: 512 MiB.
pub const WALLPAPER_SOFT_LIMIT_BYTES: u64 = 536870912;

/// Full wallpaper library snapshot exposed to apps.
#[derive(Debug, Clone, PartialEq, Eq)]
pub struct WallpaperLibrarySnapshot {
    pub assets: Vec<WallpaperAssetRecord>,
    pub collections: Vec<WallpaperCollection>,
    pub soft_limit_bytes: u64,
    pub used_bytes: u64,
}

impl Default for WallpaperLibrarySnapshot {
    fn default() -> (r: Self)
        ensures
            r.assets@.len() == 0,
            r.collections@.len() == 0,
            r.soft_limit_bytes == 512 * 1024 * 1024,
            r.used_bytes == 0,
    {
        WallpaperLibrarySnapshot {
            assets: Vec::new(),
            collections: Vec::new(),
            soft_limit_bytes: WALLPAPER_SOFT_LIMIT_BYTES,
            used_bytes: 0,
        }
    }
}

/// How a newly selected wallpaper enters the library.
#[derive(Debug, Clone, PartialEq, Eq)]
pub struct WallpaperImportRequest {
    pub display_name: Option<String>,
    pub default_config: Option<WallpaperConfig>,
}

impl Default for WallpaperImportRequest {
    fn default() -> (r: Self)
        ensures
            r.display_name.is_none(),
            r.default_config.is_none(),
    {
        WallpaperImportRequest { display_name: None, default_config: None }
    }
}

/// Resolved wallpaper source information used by the renderer.
#[derive(Debug, Clone, PartialEq, Eq)]
pub struct ResolvedWallpaperSource {
    pub primary_url: String,
    pub poster_url: Option<String>,
    pub media_kind: WallpaperMediaKind,
    pub natural_width: Option<u32>,
    pub natural_height: Option<u32>,
    pub duration_ms: Option<u64>,
}

impl Default for ResolvedWallpaperSource {
    fn default() -> (r: Self)
        ensures
            r.primary_url@.len() == 0,
            r.poster_url.is_none(),
            r.media_kind == WallpaperMediaKind::StaticImage,
            r.natural_width.is_none(),
            r.natural_height.is_none(),
            r.duration_ms.is_none(),
    {
        ResolvedWallpaperSource {
            primary_url: String::new(),
            poster_url: None,
            media_kind: WallpaperMediaKind::default(),
            natural_width: None,
            natural_height: None,
            duration_ms: None,
        }
    }
}

// ---------------------------------------------------------------------
// Command registration handles
// ---------------------------------------------------------------------

/// Liveness of dynamic command registrations, shared by every copy of
/// their handles: slot `i` says whether the registration of the handle
/// numbered `i` is still live.
pub struct RegistrationLiveness {
    live: Vec<bool>,
}

impl View for RegistrationLiveness {
    type V = Seq<bool>;

    closed spec fn view(&self) -> Seq<bool> {
        self.live@
    }
}

/// Whether slot `slot` of `live` holds a live registration.
pub open spec fn slot_live(live: Seq<bool>, slot: int) -> bool {
    0 <= slot < live.len() && live[slot]
}

/// `live` after the registration in `slot` ended.
pub open spec fn slot_ended(live: Seq<bool>, slot: int) -> Seq<bool> {
    if 0 <= slot < live.len() {
        live.update(slot, false)
    } else {
        live
    }
}

/// Liveness after unregistering through each slot of `calls` in turn,
/// starting from `live`.
pub open spec fn run_unregisters(live: Seq<bool>, calls: Seq<int>) -> Seq<bool>
    decreases calls.len(),
{
    if calls.len() == 0 {
        live
    } else {
        slot_ended(run_unregisters(live, calls.drop_last()), calls.last())
    }
}

/// How many of the unregister calls in `calls`, run in turn from `live`,
/// fire the callback of the registration in `slot`.
pub open spec fn fires_for(live: Seq<bool>, calls: Seq<int>, slot: int) -> nat
    decreases calls.len(),
{
    if calls.len() == 0 {
        0
    } else {
        let before = run_unregisters(live, calls.drop_last());
        fires_for(live, calls.drop_last(), slot) + if calls.last() == slot && slot_live(before, slot) {
            1nat
        } else {
            0nat
        }
    }
}

impl RegistrationLiveness {
    /// No registrations yet.
    pub fn new() -> (r: Self)
        ensures
            r@ == Seq::<bool>::empty(),
    {
        RegistrationLiveness { live: Vec::new() }
    }
}

/// A handle on one dynamic command registration. Copies of a handle name
/// the same slot of a [`RegistrationLiveness`], so the runtime runs the
/// unregister callback at most once over all of them: exactly when
/// [`Self::unregister`] says so.
#[derive(Debug, Clone, Copy, PartialEq, Eq, Structural)]
pub struct CommandRegistrationHandle {
    slot: usize,
}

impl CommandRegistrationHandle {
    /// The slot this handle (and each of its copies) names.
    pub closed spec fn slot_of(self) -> int {
        self.slot as int
    }

    /// A handle on a new, live registration.
    pub fn new(liveness: &mut RegistrationLiveness) -> (r: Self)
        ensures
            r.slot_of() == old(liveness)@.len(),
            final(liveness)@ == old(liveness)@.push(true),
    {
        let slot = liveness.live.len();
        liveness.live.push(true);
        CommandRegistrationHandle { slot }
    }

    /// A handle on a new, live registration whose unregister callback does
    /// nothing.
    pub fn noop(liveness: &mut RegistrationLiveness) -> (r: Self)
        ensures
            r.slot_of() == old(liveness)@.len(),
            final(liveness)@ == old(liveness)@.push(true),
    {
        Self::new(liveness)
    }

    /// Whether the registration is still live.
    pub fn is_active(&self, liveness: &RegistrationLiveness) -> (r: bool)
        ensures
            r == slot_live(liveness@, self.slot_of()),
    {
        self.slot < liveness.live.len() && liveness.live[self.slot]
    }

    /// Ends the registration for this handle and all its copies; the
    /// result says whether the unregister callback must run now, which is
    /// the case only while the registration was still live.
    pub fn unregister(&self, liveness: &mut RegistrationLiveness) -> (fire: bool)
        ensures
            fire == slot_live(old(liveness)@, self.slot_of()),
            final(liveness)@ == slot_ended(old(liveness)@, self.slot_of()),
    {
        if self.slot < liveness.live.len() {
            let fire = liveness.live[self.slot];
            liveness.live.set(self.slot, false);
            fire
        } else {
            false
        }
    }
}

/// Whatever handles, and copies of them, unregister and in whatever order,
/// the callback of one registration fires exactly once if it was live and
/// some copy of its handle unregisters, and never otherwise; afterwards it
/// is live only if it was and no copy of its handle unregistered.
pub proof fn law_unregister_fires_at_most_once(live: Seq<bool>, calls: Seq<int>, slot: int)
    ensures
        fires_for(live, calls, slot) == (if slot_live(live, slot) && calls.contains(slot) {
            1nat
        } else {
            0nat
        }),
        slot_live(run_unregisters(live, calls), slot) == (slot_live(live, slot) && !calls.contains(
            slot,
        )),
    decreases calls.len(),
{
    if calls.len() > 0 {
        let d = calls.drop_last();
        law_unregister_fires_at_most_once(live, d, slot);
        assert(calls.contains(slot) == (d.contains(slot) || calls.last() == slot)) by {
            if calls.contains(slot) {
                let k = choose|k: int| 0 <= k < calls.len() && calls[k] == slot;
                if k < calls.len() - 1 {
                    assert(d[k] == slot);
                }
            }
            if d.contains(slot) {
                let k = choose|k: int| 0 <= k < d.len() && d[k] == slot;
                assert(calls[k] == slot);
            }
            if calls.last() == slot {
                assert(calls[calls.len() - 1] == slot);
            }
        }
    }
}

/// App registration metadata.
#[derive(Debug, Clone, PartialEq, Eq)]
pub struct AppRegistration {
    pub app_id: ApplicationId,
    pub display_name: String,
    pub version: String,
    pub runtime_contract_version: String,
    pub requested_capabilities: Vec<AppCapability>,
    pub single_instance: bool,
    pub suspend_policy: SuspendPolicy,
    pub show_in_launcher: bool,
    pub show_on_desktop: bool,
}

} // verus!
