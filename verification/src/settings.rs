//! Decisions of the Settings app and of the Paint placeholder: tabs,
//! skin presets, wallpaper choices and their labels, how a library asset
//! becomes a wallpaper configuration, and how restored Paint state is
//! repaired.

use vstd::prelude::*;
use vstd::string::*;
use crate::app_contract::{
    WallpaperAnimationPolicy, WallpaperAssetRecord, WallpaperConfig, WallpaperDisplayMode,
    WallpaperMediaKind, WallpaperPosition, WallpaperSelection, WallpaperSourceKind,
};
use crate::model::strings_view;
use crate::shell_engine::{join_strings, join_with};
use crate::strings::{ascii_lowercase, contains_text, is_blank, str_contains, str_is_blank, to_ascii_lowercase, trim, trimmed};
use crate::terminal::nonempty_pieces;

verus! {

// ---------------------------------------------------------------------
// Settings
// ---------------------------------------------------------------------

/// The tabs of the Settings app.
#[derive(Debug, Clone, Copy, PartialEq, Eq, Structural)]
pub enum SettingsTab {
    Wallpaper,
    Theme,
    Accessibility,
}

pub open spec fn settings_tab_label(t: SettingsTab) -> Seq<char> {
    match t {
        SettingsTab::Wallpaper => "Wallpaper"@,
        SettingsTab::Theme => "Theme"@,
        SettingsTab::Accessibility => "Accessibility"@,
    }
}

impl SettingsTab {
    /// The tab's caption.
    pub fn label(self) -> (r: &'static str)
        ensures
            r@ == settings_tab_label(self),
    {
        match self {
            SettingsTab::Wallpaper => "Wallpaper",
            SettingsTab::Theme => "Theme",
            SettingsTab::Accessibility => "Accessibility",
        }
    }
}

/// Persisted state of the Settings app.
#[derive(Debug, Clone, Copy, PartialEq, Eq, Structural)]
pub struct SettingsAppState {
    pub active_tab: SettingsTab,
}

impl Default for SettingsAppState {
    fn default() -> (r: Self)
        ensures
            r.active_tab == SettingsTab::Wallpaper,
    {
        SettingsAppState { active_tab: SettingsTab::Wallpaper }
    }
}

/// A desktop skin offered by the Settings app.
#[derive(Debug, Clone, Copy, PartialEq, Eq)]
pub struct SkinPreset {
    pub id: &'static str,
    pub label: &'static str,
    pub note: &'static str,
}

pub open spec fn skin_presets_spec() -> Seq<(Seq<char>, Seq<char>, Seq<char>)> {
    seq![
        ("modern-adaptive"@, "Modern Adaptive"@, "Modern Fluent-inspired shell styling"@),
        ("classic-xp"@, "Classic XP"@, "Glossy nostalgic shell styling"@),
        ("classic-95"@, "Classic 95"@, "Sharp retro shell styling"@),
    ]
}

/// The skins offered, in display order.
pub fn skin_presets() -> (r: Vec<SkinPreset>)
    ensures
        r@.map_values(|p: SkinPreset| (p.id@, p.label@, p.note@)) == skin_presets_spec(),
{
    let mut v: Vec<SkinPreset> = Vec::new();
    v.push(SkinPreset { id: "modern-adaptive", label: "Modern Adaptive", note: "Modern Fluent-inspired shell styling" });
    v.push(SkinPreset { id: "classic-xp", label: "Classic XP", note: "Glossy nostalgic shell styling" });
    v.push(SkinPreset { id: "classic-95", label: "Classic 95", note: "Sharp retro shell styling" });
    assert(v@.map_values(|p: SkinPreset| (p.id@, p.label@, p.note@)) =~= skin_presets_spec());
    v
}

/// The animation policy for an asset's media: moving media loop muted,
/// still media do not animate.
pub open spec fn animation_for(kind: WallpaperMediaKind) -> WallpaperAnimationPolicy {
    match kind {
        WallpaperMediaKind::AnimatedImage | WallpaperMediaKind::Video => WallpaperAnimationPolicy::LoopMuted,
        _ => WallpaperAnimationPolicy::Static,
    }
}

/// The configuration that shows a library asset: it selects the asset by
/// its source, keeps the current display mode and position, and animates
/// moving media.
pub fn asset_to_config(asset: &WallpaperAssetRecord, current: &WallpaperConfig) -> (r: WallpaperConfig)
    ensures
        match asset.source_kind {
            WallpaperSourceKind::BuiltIn => r.selection matches WallpaperSelection::BuiltIn { wallpaper_id }
                && wallpaper_id@ == asset.asset_id@,
            WallpaperSourceKind::Imported => r.selection matches WallpaperSelection::Imported { asset_id }
                && asset_id@ == asset.asset_id@,
        },
        r.display_mode == current.display_mode,
        r.position == current.position,
        r.animation == animation_for(asset.media_kind),
{
    let animation = match asset.media_kind {
        WallpaperMediaKind::AnimatedImage | WallpaperMediaKind::Video => WallpaperAnimationPolicy::LoopMuted,
        _ => WallpaperAnimationPolicy::Static,
    };
    WallpaperConfig {
        selection: match asset.source_kind {
            WallpaperSourceKind::BuiltIn => WallpaperSelection::BuiltIn { wallpaper_id: asset.asset_id.clone() },
            WallpaperSourceKind::Imported => WallpaperSelection::Imported { asset_id: asset.asset_id.clone() },
        },
        display_mode: current.display_mode,
        position: current.position,
        animation,
    }
}

/// The display modes offered, in display order.
pub fn wallpaper_display_modes() -> (r: Vec<WallpaperDisplayMode>)
    ensures
        r@ == seq![
            WallpaperDisplayMode::Fill,
            WallpaperDisplayMode::Fit,
            WallpaperDisplayMode::Stretch,
            WallpaperDisplayMode::Tile,
            WallpaperDisplayMode::Center,
        ],
{
    let v = vec![
        WallpaperDisplayMode::Fill,
        WallpaperDisplayMode::Fit,
        WallpaperDisplayMode::Stretch,
        WallpaperDisplayMode::Tile,
        WallpaperDisplayMode::Center,
    ];
    assert(v@ =~= seq![
        WallpaperDisplayMode::Fill,
        WallpaperDisplayMode::Fit,
        WallpaperDisplayMode::Stretch,
        WallpaperDisplayMode::Tile,
        WallpaperDisplayMode::Center,
    ]);
    v
}

pub open spec fn display_mode_label(m: WallpaperDisplayMode) -> Seq<char> {
    match m {
        WallpaperDisplayMode::Fill => "Fill"@,
        WallpaperDisplayMode::Fit => "Fit"@,
        WallpaperDisplayMode::Stretch => "Stretch"@,
        WallpaperDisplayMode::Tile => "Tile"@,
        WallpaperDisplayMode::Center => "Center"@,
    }
}

/// The caption of a display mode.
pub fn wallpaper_display_mode_label(mode: WallpaperDisplayMode) -> (r: &'static str)
    ensures
        r@ == display_mode_label(mode),
{
    match mode {
        WallpaperDisplayMode::Fill => "Fill",
        WallpaperDisplayMode::Fit => "Fit",
        WallpaperDisplayMode::Stretch => "Stretch",
        WallpaperDisplayMode::Tile => "Tile",
        WallpaperDisplayMode::Center => "Center",
    }
}

/// The positions offered, row by row from the top left.
pub fn wallpaper_positions() -> (r: Vec<WallpaperPosition>)
    ensures
        r@ == seq![
            WallpaperPosition::TopLeft,
            WallpaperPosition::Top,
            WallpaperPosition::TopRight,
            WallpaperPosition::Left,
            WallpaperPosition::Center,
            WallpaperPosition::Right,
            WallpaperPosition::BottomLeft,
            WallpaperPosition::Bottom,
            WallpaperPosition::BottomRight,
        ],
{
    let v = vec![
        WallpaperPosition::TopLeft,
        WallpaperPosition::Top,
        WallpaperPosition::TopRight,
        WallpaperPosition::Left,
        WallpaperPosition::Center,
        WallpaperPosition::Right,
        WallpaperPosition::BottomLeft,
        WallpaperPosition::Bottom,
        WallpaperPosition::BottomRight,
    ];
    assert(v@ =~= seq![
        WallpaperPosition::TopLeft,
        WallpaperPosition::Top,
        WallpaperPosition::TopRight,
        WallpaperPosition::Left,
        WallpaperPosition::Center,
        WallpaperPosition::Right,
        WallpaperPosition::BottomLeft,
        WallpaperPosition::Bottom,
        WallpaperPosition::BottomRight,
    ]);
    v
}

pub open spec fn position_label(p: WallpaperPosition) -> Seq<char> {
    match p {
        WallpaperPosition::TopLeft => "Top left"@,
        WallpaperPosition::Top => "Top"@,
        WallpaperPosition::TopRight => "Top right"@,
        WallpaperPosition::Left => "Left"@,
        WallpaperPosition::Center => "Center"@,
        WallpaperPosition::Right => "Right"@,
        WallpaperPosition::BottomLeft => "Bottom left"@,
        WallpaperPosition::Bottom => "Bottom"@,
        WallpaperPosition::BottomRight => "Bottom right"@,
    }
}

/// The caption of a position.
pub fn wallpaper_position_label(position: WallpaperPosition) -> (r: &'static str)
    ensures
        r@ == position_label(position),
{
    match position {
        WallpaperPosition::TopLeft => "Top left",
        WallpaperPosition::Top => "Top",
        WallpaperPosition::TopRight => "Top right",
        WallpaperPosition::Left => "Left",
        WallpaperPosition::Center => "Center",
        WallpaperPosition::Right => "Right",
        WallpaperPosition::BottomLeft => "Bottom left",
        WallpaperPosition::Bottom => "Bottom",
        WallpaperPosition::BottomRight => "Bottom right",
    }
}

/// Whether an asset is listed as built in or imported.
pub fn asset_label_prefix(asset: &WallpaperAssetRecord) -> (r: &'static str)
    ensures
        r@ == (match asset.source_kind {
            WallpaperSourceKind::BuiltIn => "Built-in"@,
            WallpaperSourceKind::Imported => "Imported"@,
        }),
{
    match asset.source_kind {
        WallpaperSourceKind::BuiltIn => "Built-in",
        WallpaperSourceKind::Imported => "Imported",
    }
}

// ---------------------------------------------------------------------
// Paint placeholder
// ---------------------------------------------------------------------

/// Persisted state of the Paint placeholder app.
#[derive(Debug, Clone, PartialEq, Eq)]
pub struct PaintPlaceholderState {
    pub tool: String,
    pub brush_size: u8,
    pub color_hex: String,
    pub canvas_preset: String,
    pub status: String,
}

impl Default for PaintPlaceholderState {
    fn default() -> (r: Self)
        ensures
            r.tool@ == "brush"@,
            r.brush_size == 6,
            r.color_hex@ == "#0b5fff"@,
            r.canvas_preset@ == "800x600"@,
            r.status@ == "Canvas placeholder ready"@,
    {
        PaintPlaceholderState {
            tool: String::from_str("brush"),
            brush_size: 6,
            color_hex: String::from_str("#0b5fff"),
            canvas_preset: String::from_str("800x600"),
            status: String::from_str("Canvas placeholder ready"),
        }
    }
}

/// `s` unless it is blank, in which case `fallback`.
pub open spec fn or_default(s: Seq<char>, fallback: Seq<char>) -> Seq<char> {
    if is_blank(s) {
        fallback
    } else {
        s
    }
}

fn text_or_default(s: String, fallback: &str) -> (r: String)
    ensures
        r@ == or_default(s@, fallback@),
{
    if str_is_blank(s.as_str()) {
        String::from_str(fallback)
    } else {
        s
    }
}

/// Repairs restored Paint state: blank texts take their defaults and the
/// brush size is clamped to 1..=64.
pub fn restore_paint_placeholder_state(restored: PaintPlaceholderState) -> (r: PaintPlaceholderState)
    ensures
        r.tool@ == or_default(restored.tool@, "brush"@),
        r.color_hex@ == or_default(restored.color_hex@, "#0b5fff"@),
        r.canvas_preset@ == or_default(restored.canvas_preset@, "800x600"@),
        r.brush_size == (if restored.brush_size < 1 {
            1
        } else if restored.brush_size > 64 {
            64
        } else {
            restored.brush_size
        }),
        r.status@ == or_default(restored.status@, "Canvas placeholder ready"@),
{
    let brush_size: u8 = if restored.brush_size < 1 {
        1
    } else if restored.brush_size > 64 {
        64
    } else {
        restored.brush_size
    };
    PaintPlaceholderState {
        tool: text_or_default(restored.tool, "brush"),
        brush_size,
        color_hex: text_or_default(restored.color_hex, "#0b5fff"),
        canvas_preset: text_or_default(restored.canvas_preset, "800x600"),
        status: text_or_default(restored.status, "Canvas placeholder ready"),
    }
}

/// Restoring already restored Paint state changes nothing: every default
/// is non-blank and the clamped brush size is in range.
pub proof fn law_paint_restore_is_idempotent(
    tool: Seq<char>,
    color_hex: Seq<char>,
    canvas_preset: Seq<char>,
    status: Seq<char>,
    brush_size: u8,
)
    ensures
        or_default(or_default(tool, "brush"@), "brush"@) == or_default(tool, "brush"@),
        or_default(or_default(color_hex, "#0b5fff"@), "#0b5fff"@) == or_default(color_hex, "#0b5fff"@),
        or_default(or_default(canvas_preset, "800x600"@), "800x600"@) == or_default(
            canvas_preset,
            "800x600"@,
        ),
        or_default(or_default(status, "Canvas placeholder ready"@), "Canvas placeholder ready"@)
            == or_default(status, "Canvas placeholder ready"@),
        ({
            let b = if brush_size < 1 { 1 } else if brush_size > 64 { 64 } else { brush_size };
            (if b < 1 { 1 } else if b > 64 { 64 } else { b }) == b
        }),
{
    reveal_strlit("brush");
    reveal_strlit("#0b5fff");
    reveal_strlit("800x600");
    reveal_strlit("Canvas placeholder ready");
    assert(!is_blank("brush"@)) by {
        assert(!crate::strings::is_whitespace_char("brush"@[0]));
    }
    assert(!is_blank("#0b5fff"@)) by {
        assert(!crate::strings::is_whitespace_char("#0b5fff"@[0]));
    }
    assert(!is_blank("800x600"@)) by {
        assert(!crate::strings::is_whitespace_char("800x600"@[0]));
    }
    assert(!is_blank("Canvas placeholder ready"@)) by {
        assert(!crate::strings::is_whitespace_char("Canvas placeholder ready"@[0]));
    }
}

// ---------------------------------------------------------------------
// Wallpaper library editing
// ---------------------------------------------------------------------

/// The pieces of `s` between commas.
pub open spec fn comma_pieces(s: Seq<char>) -> Seq<Seq<char>>
    decreases s.len(),
{
    if s.len() == 0 {
        seq![Seq::<char>::empty()]
    } else {
        let prev = comma_pieces(s.drop_last());
        if s.last() == ',' {
            prev.push(Seq::<char>::empty())
        } else {
            prev.update(prev.len() - 1, prev.last().push(s.last()))
        }
    }
}

pub proof fn lemma_comma_pieces_nonempty(s: Seq<char>)
    ensures
        comma_pieces(s).len() >= 1,
    decreases s.len(),
{
    if s.len() > 0 {
        lemma_comma_pieces_nonempty(s.drop_last());
    }
}

/// The tags typed as a comma-separated list: each piece trimmed, empty
/// pieces dropped.
pub open spec fn tag_list(s: Seq<char>) -> Seq<Seq<char>> {
    nonempty_pieces(comma_pieces(s).map_values(|p: Seq<char>| trimmed(p)))
}

fn split_commas(s: &str) -> (r: Vec<String>)
    ensures
        strings_view(r@) == comma_pieces(s@),
{
    let ghost t = s@;
    let n = s.unicode_len();
    let mut out: Vec<String> = Vec::new();
    let mut cur = String::new();
    let mut i: usize = 0;
    proof {
        assert(t.take(0) =~= Seq::<char>::empty());
        assert(strings_view(out@) =~= Seq::<Seq<char>>::empty());
        assert(comma_pieces(t.take(0)).drop_last() =~= Seq::<Seq<char>>::empty());
    }
    while i < n
        invariant
            t == s@,
            n == t.len(),
            i <= n,
            strings_view(out@) == comma_pieces(t.take(i as int)).drop_last(),
            cur@ == comma_pieces(t.take(i as int)).last(),
        decreases n - i,
    {
        let c = s.get_char(i);
        let ghost prev = comma_pieces(t.take(i as int));
        proof {
            lemma_comma_pieces_nonempty(t.take(i as int));
            assert(t.take(i + 1).drop_last() =~= t.take(i as int));
            assert(t.take(i + 1).last() == c);
        }
        if c == ',' {
            let ghost before = strings_view(out@);
            out.push(cur.clone());
            cur = String::new();
            proof {
                let next = comma_pieces(t.take(i + 1));
                assert(strings_view(out@) =~= before.push(prev.last()));
                assert(next.drop_last() =~= prev);
                assert(prev =~= prev.drop_last().push(prev.last()));
            }
        } else {
            cur.push(c);
            proof {
                let next = comma_pieces(t.take(i + 1));
                assert(next.drop_last() =~= prev.drop_last());
            }
        }
        i = i + 1;
    }
    let ghost before = strings_view(out@);
    out.push(cur);
    proof {
        let ps = comma_pieces(t);
        lemma_comma_pieces_nonempty(t);
        assert(t.take(n as int) =~= t);
        assert(strings_view(out@) =~= before.push(ps.last()));
        assert(ps =~= ps.drop_last().push(ps.last()));
    }
    out
}

/// The tags of a comma-separated list.
pub fn parse_tag_list(text: &str) -> (r: Vec<String>)
    ensures
        strings_view(r@) == tag_list(text@),
{
    let pieces = split_commas(text);
    let ghost ps = strings_view(pieces@).map_values(|p: Seq<char>| trimmed(p));
    let mut out: Vec<String> = Vec::new();
    let mut k: usize = 0;
    assert(ps.take(0) =~= Seq::<Seq<char>>::empty());
    assert(strings_view(out@) =~= Seq::<Seq<char>>::empty());
    while k < pieces.len()
        invariant
            ps == strings_view(pieces@).map_values(|p: Seq<char>| trimmed(p)),
            k <= pieces@.len(),
            strings_view(out@) == nonempty_pieces(ps.take(k as int)),
        decreases pieces@.len() - k,
    {
        let t = trim(pieces[k].as_str());
        proof {
            assert(ps.take(k + 1).drop_last() =~= ps.take(k as int));
            assert(ps.take(k + 1).last() == t@);
        }
        if t.unicode_len() > 0 {
            let ghost before = strings_view(out@);
            out.push(String::from_str(t));
            assert(strings_view(out@) =~= before.push(t@));
        }
        k = k + 1;
    }
    assert(ps.take(k as int) =~= ps);
    out
}

/// The name of a new collection: the typed name trimmed, or nothing when
/// it is blank.
pub fn collection_name(input: &str) -> (r: Option<String>)
    ensures
        trimmed(input@).len() == 0 ==> r is None,
        trimmed(input@).len() > 0 ==> (r matches Some(n) && n@ == trimmed(input@)),
{
    let t = trim(input);
    if t.unicode_len() == 0 {
        None
    } else {
        Some(String::from_str(t))
    }
}

/// An asset is listed for a lowercase query when the query is empty or
/// occurs, ignoring ASCII case, in its name or one of its tags.
pub open spec fn asset_matches(name: Seq<char>, tags: Seq<Seq<char>>, query: Seq<char>) -> bool {
    query.len() == 0 || contains_text(ascii_lowercase(name), query) || exists|k: int|
        0 <= k < tags.len() && contains_text(ascii_lowercase(#[trigger] tags[k]), query)
}

/// The lowercase query of a search text.
pub open spec fn search_query(search: Seq<char>) -> Seq<char> {
    ascii_lowercase(trimmed(search))
}

fn asset_matches_query(asset: &WallpaperAssetRecord, query: &str) -> (r: bool)
    ensures
        r == asset_matches(asset.display_name@, strings_view(asset.tags@), query@),
{
    if query.unicode_len() == 0 {
        return true;
    }
    let name = to_ascii_lowercase(asset.display_name.as_str());
    if str_contains(name.as_str(), query) {
        return true;
    }
    let ghost tv = strings_view(asset.tags@);
    let mut k: usize = 0;
    while k < asset.tags.len()
        invariant
            tv == strings_view(asset.tags@),
            k <= asset.tags@.len(),
            forall|j: int| 0 <= j < k ==> !contains_text(ascii_lowercase(#[trigger] tv[j]), query@),
        decreases asset.tags@.len() - k,
    {
        let tag = to_ascii_lowercase(asset.tags[k].as_str());
        if str_contains(tag.as_str(), query) {
            assert(tv[k as int] == asset.tags@[k as int]@);
            return true;
        }
        assert(tv[k as int] == asset.tags@[k as int]@);
        k = k + 1;
    }
    false
}

/// The positions, in library order, of the assets a search shows.
pub fn filter_wallpaper_assets(assets: &Vec<WallpaperAssetRecord>, search: &str) -> (r: Vec<usize>)
    ensures
        forall|k: int| 0 <= k < r@.len() ==> r@[k] < assets@.len(),
        forall|a: int, b: int| 0 <= a < b < r@.len() ==> r@[a] < r@[b],
        forall|i: int|
            0 <= i < assets@.len() ==> (r@.contains(i as usize) <==> asset_matches(
                (#[trigger] assets@[i]).display_name@,
                strings_view(assets@[i].tags@),
                search_query(search@),
            )),
{
    let query = to_ascii_lowercase(trim(search));
    let mut out: Vec<usize> = Vec::new();
    let mut i: usize = 0;
    while i < assets.len()
        invariant
            query@ == search_query(search@),
            i <= assets@.len(),
            forall|k: int| 0 <= k < out@.len() ==> out@[k] < i,
            forall|a: int, b: int| 0 <= a < b < out@.len() ==> out@[a] < out@[b],
            forall|j: int|
                0 <= j < i ==> (out@.contains(j as usize) <==> asset_matches(
                    (#[trigger] assets@[j]).display_name@,
                    strings_view(assets@[j].tags@),
                    search_query(search@),
                )),
        decreases assets@.len() - i,
    {
        let m = asset_matches_query(&assets[i], query.as_str());
        let ghost before = out@;
        if m {
            out.push(i);
        }
        proof {
            assert forall|j: int| 0 <= j < i + 1 implies (out@.contains(j as usize) <==> asset_matches(
                (#[trigger] assets@[j]).display_name@,
                strings_view(assets@[j].tags@),
                search_query(search@),
            )) by {
                if j < i {
                    if out@.contains(j as usize) {
                        let k = choose|k: int| 0 <= k < out@.len() && out@[k] == j as usize;
                        if m && k == before.len() {
                        } else {
                            assert(before[k] == j as usize);
                        }
                    }
                    if before.contains(j as usize) {
                        let k = choose|k: int| 0 <= k < before.len() && before[k] == j as usize;
                        assert(out@[k] == j as usize);
                    }
                } else {
                    if m {
                        assert(out@[before.len() as int] == i);
                    } else {
                        if out@.contains(i) {
                            let k = choose|k: int| 0 <= k < out@.len() && out@[k] == i;
                            assert(out@[k] < i);
                        }
                    }
                }
            }
        }
        i = i + 1;
    }
    out
}

/// The tags of an asset as one editable line.
pub fn tags_text(asset: &WallpaperAssetRecord) -> (r: String)
    ensures
        r@ == join_with(strings_view(asset.tags@), ", "@),
{
    join_strings(&asset.tags, ", ")
}

/// The class list of a Settings tab button.
pub fn settings_tab_class(active: bool) -> (r: &'static str)
    ensures
        r@ == (if active {
            "app-action settings-tab active"@
        } else {
            "app-action settings-tab"@
        }),
{
    if active {
        "app-action settings-tab active"
    } else {
        "app-action settings-tab"
    }
}

} // verus!
