//! Design tokens of the shared UI primitives: the variants each primitive
//! accepts, their defaults, and the token strings written into the
//! `data-ui-*` attributes, with the class-merging rule the primitives use.

use vstd::prelude::*;
use vstd::string::*;

verus! {

/// Semantic surface variants for structural primitives.
#[derive(Debug, Clone, Copy, PartialEq, Eq, Structural)]
pub enum SurfaceVariant {
    /// Primary surface.
    Standard,
    /// Secondary or muted surface.
    Muted,
    /// Inset surface.
    Inset,
}

pub open spec fn surface_variant_token(v: SurfaceVariant) -> Seq<char> {
    match v {
        SurfaceVariant::Standard => "standard"@,
        SurfaceVariant::Muted => "muted"@,
        SurfaceVariant::Inset => "inset"@,
    }
}

impl Default for SurfaceVariant {
    fn default() -> (r: Self)
        ensures
            r == SurfaceVariant::Standard,
    {
        SurfaceVariant::Standard
    }
}

impl SurfaceVariant {
    /// The token written into the primitive's data attribute.
    pub fn token(self) -> (r: &'static str)
        ensures
            r@ == surface_variant_token(self),
    {
        proof {
            reveal_strlit("inset");
            reveal_strlit("muted");
            reveal_strlit("standard");
        }
        match self {
            SurfaceVariant::Standard => "standard",
            SurfaceVariant::Muted => "muted",
            SurfaceVariant::Inset => "inset",
        }
    }
}

/// Semantic elevation levels for shared primitives.
#[derive(Debug, Clone, Copy, PartialEq, Eq, Structural)]
pub enum Elevation {
    /// Flat surface.
    Flat,
    /// Raised surface.
    Raised,
    /// Overlay surface.
    Overlay,
    /// Inset surface.
    Inset,
    /// Pressed control surface.
    Pressed,
}

pub open spec fn elevation_token(v: Elevation) -> Seq<char> {
    match v {
        Elevation::Flat => "flat"@,
        Elevation::Raised => "raised"@,
        Elevation::Overlay => "overlay"@,
        Elevation::Inset => "inset"@,
        Elevation::Pressed => "pressed"@,
    }
}

impl Default for Elevation {
    fn default() -> (r: Self)
        ensures
            r == Elevation::Flat,
    {
        Elevation::Flat
    }
}

impl Elevation {
    /// The token written into the primitive's data attribute.
    pub fn token(self) -> (r: &'static str)
        ensures
            r@ == elevation_token(self),
    {
        proof {
            reveal_strlit("flat");
            reveal_strlit("inset");
            reveal_strlit("overlay");
            reveal_strlit("pressed");
            reveal_strlit("raised");
        }
        match self {
            Elevation::Flat => "flat",
            Elevation::Raised => "raised",
            Elevation::Overlay => "overlay",
            Elevation::Inset => "inset",
            Elevation::Pressed => "pressed",
        }
    }
}

/// Shared button variants.
#[derive(Debug, Clone, Copy, PartialEq, Eq, Structural)]
pub enum ButtonVariant {
    /// Standard action button.
    Standard,
    /// Primary emphasized action button.
    Primary,
    /// Quiet or toggle style button.
    Quiet,
    /// Accent button.
    Accent,
    /// Destructive button.
    Danger,
}

pub open spec fn button_variant_token(v: ButtonVariant) -> Seq<char> {
    match v {
        ButtonVariant::Standard => "standard"@,
        ButtonVariant::Primary => "primary"@,
        ButtonVariant::Quiet => "quiet"@,
        ButtonVariant::Accent => "accent"@,
        ButtonVariant::Danger => "danger"@,
    }
}

impl Default for ButtonVariant {
    fn default() -> (r: Self)
        ensures
            r == ButtonVariant::Standard,
    {
        ButtonVariant::Standard
    }
}

impl ButtonVariant {
    /// The token written into the primitive's data attribute.
    pub fn token(self) -> (r: &'static str)
        ensures
            r@ == button_variant_token(self),
    {
        proof {
            reveal_strlit("accent");
            reveal_strlit("danger");
            reveal_strlit("primary");
            reveal_strlit("quiet");
            reveal_strlit("standard");
        }
        match self {
            ButtonVariant::Standard => "standard",
            ButtonVariant::Primary => "primary",
            ButtonVariant::Quiet => "quiet",
            ButtonVariant::Accent => "accent",
            ButtonVariant::Danger => "danger",
        }
    }
}

/// Shared button sizes.
#[derive(Debug, Clone, Copy, PartialEq, Eq, Structural)]
pub enum ButtonSize {
    /// Dense button.
    Sm,
    /// Default button.
    Md,
    /// Large button.
    Lg,
}

pub open spec fn button_size_token(v: ButtonSize) -> Seq<char> {
    match v {
        ButtonSize::Sm => "sm"@,
        ButtonSize::Md => "md"@,
        ButtonSize::Lg => "lg"@,
    }
}

impl Default for ButtonSize {
    fn default() -> (r: Self)
        ensures
            r == ButtonSize::Md,
    {
        ButtonSize::Md
    }
}

impl ButtonSize {
    /// The token written into the primitive's data attribute.
    pub fn token(self) -> (r: &'static str)
        ensures
            r@ == button_size_token(self),
    {
        proof {
            reveal_strlit("lg");
            reveal_strlit("md");
            reveal_strlit("sm");
        }
        match self {
            ButtonSize::Sm => "sm",
            ButtonSize::Md => "md",
            ButtonSize::Lg => "lg",
        }
    }
}

/// Shared input-field variants.
#[derive(Debug, Clone, Copy, PartialEq, Eq, Structural)]
pub enum FieldVariant {
    /// Standard input.
    Standard,
    /// Inset or editor input.
    Inset,
}

pub open spec fn field_variant_token(v: FieldVariant) -> Seq<char> {
    match v {
        FieldVariant::Standard => "standard"@,
        FieldVariant::Inset => "inset"@,
    }
}

impl Default for FieldVariant {
    fn default() -> (r: Self)
        ensures
            r == FieldVariant::Standard,
    {
        FieldVariant::Standard
    }
}

impl FieldVariant {
    /// The token written into the primitive's data attribute.
    pub fn token(self) -> (r: &'static str)
        ensures
            r@ == field_variant_token(self),
    {
        proof {
            reveal_strlit("inset");
            reveal_strlit("standard");
        }
        match self {
            FieldVariant::Standard => "standard",
            FieldVariant::Inset => "inset",
        }
    }
}

/// Shared text roles.
#[derive(Debug, Clone, Copy, PartialEq, Eq, Structural)]
pub enum TextRole {
    /// Body text.
    Body,
    /// Label text.
    Label,
    /// Caption text.
    Caption,
    /// Title text.
    Title,
    /// Monospace code text.
    Code,
}

pub open spec fn text_role_token(v: TextRole) -> Seq<char> {
    match v {
        TextRole::Body => "body"@,
        TextRole::Label => "label"@,
        TextRole::Caption => "caption"@,
        TextRole::Title => "title"@,
        TextRole::Code => "code"@,
    }
}

impl Default for TextRole {
    fn default() -> (r: Self)
        ensures
            r == TextRole::Body,
    {
        TextRole::Body
    }
}

impl TextRole {
    /// The token written into the primitive's data attribute.
    pub fn token(self) -> (r: &'static str)
        ensures
            r@ == text_role_token(self),
    {
        proof {
            reveal_strlit("body");
            reveal_strlit("caption");
            reveal_strlit("code");
            reveal_strlit("label");
            reveal_strlit("title");
        }
        match self {
            TextRole::Body => "body",
            TextRole::Label => "label",
            TextRole::Caption => "caption",
            TextRole::Title => "title",
            TextRole::Code => "code",
        }
    }
}

/// Shared text tones.
#[derive(Debug, Clone, Copy, PartialEq, Eq, Structural)]
pub enum TextTone {
    /// Primary text.
    Primary,
    /// Secondary text.
    Secondary,
    /// Accent text.
    Accent,
    /// Success tone.
    Success,
    /// Warning tone.
    Warning,
    /// Danger tone.
    Danger,
}

pub open spec fn text_tone_token(v: TextTone) -> Seq<char> {
    match v {
        TextTone::Primary => "primary"@,
        TextTone::Secondary => "secondary"@,
        TextTone::Accent => "accent"@,
        TextTone::Success => "success"@,
        TextTone::Warning => "warning"@,
        TextTone::Danger => "danger"@,
    }
}

impl Default for TextTone {
    fn default() -> (r: Self)
        ensures
            r == TextTone::Primary,
    {
        TextTone::Primary
    }
}

impl TextTone {
    /// The token written into the primitive's data attribute.
    pub fn token(self) -> (r: &'static str)
        ensures
            r@ == text_tone_token(self),
    {
        proof {
            reveal_strlit("accent");
            reveal_strlit("danger");
            reveal_strlit("primary");
            reveal_strlit("secondary");
            reveal_strlit("success");
            reveal_strlit("warning");
        }
        match self {
            TextTone::Primary => "primary",
            TextTone::Secondary => "secondary",
            TextTone::Accent => "accent",
            TextTone::Success => "success",
            TextTone::Warning => "warning",
            TextTone::Danger => "danger",
        }
    }
}

/// Shared layout gap sizes.
#[derive(Debug, Clone, Copy, PartialEq, Eq, Structural)]
pub enum LayoutGap {
    /// No gap.
    NoGap,
    /// Small gap.
    Sm,
    /// Default gap.
    Md,
    /// Large gap.
    Lg,
}

pub open spec fn layout_gap_token(v: LayoutGap) -> Seq<char> {
    match v {
        LayoutGap::NoGap => "none"@,
        LayoutGap::Sm => "sm"@,
        LayoutGap::Md => "md"@,
        LayoutGap::Lg => "lg"@,
    }
}

impl Default for LayoutGap {
    fn default() -> (r: Self)
        ensures
            r == LayoutGap::Md,
    {
        LayoutGap::Md
    }
}

impl LayoutGap {
    /// The token written into the primitive's data attribute.
    pub fn token(self) -> (r: &'static str)
        ensures
            r@ == layout_gap_token(self),
    {
        proof {
            reveal_strlit("lg");
            reveal_strlit("md");
            reveal_strlit("none");
            reveal_strlit("sm");
        }
        match self {
            LayoutGap::NoGap => "none",
            LayoutGap::Sm => "sm",
            LayoutGap::Md => "md",
            LayoutGap::Lg => "lg",
        }
    }
}

/// Shared layout padding sizes.
#[derive(Debug, Clone, Copy, PartialEq, Eq, Structural)]
pub enum LayoutPadding {
    /// No padding.
    NoPadding,
    /// Compact padding.
    Sm,
    /// Default padding.
    Md,
    /// Spacious padding.
    Lg,
}

pub open spec fn layout_padding_token(v: LayoutPadding) -> Seq<char> {
    match v {
        LayoutPadding::NoPadding => "none"@,
        LayoutPadding::Sm => "sm"@,
        LayoutPadding::Md => "md"@,
        LayoutPadding::Lg => "lg"@,
    }
}

impl Default for LayoutPadding {
    fn default() -> (r: Self)
        ensures
            r == LayoutPadding::Md,
    {
        LayoutPadding::Md
    }
}

impl LayoutPadding {
    /// The token written into the primitive's data attribute.
    pub fn token(self) -> (r: &'static str)
        ensures
            r@ == layout_padding_token(self),
    {
        proof {
            reveal_strlit("lg");
            reveal_strlit("md");
            reveal_strlit("none");
            reveal_strlit("sm");
        }
        match self {
            LayoutPadding::NoPadding => "none",
            LayoutPadding::Sm => "sm",
            LayoutPadding::Md => "md",
            LayoutPadding::Lg => "lg",
        }
    }
}

/// Shared layout alignments.
#[derive(Debug, Clone, Copy, PartialEq, Eq, Structural)]
pub enum LayoutAlign {
    /// Stretch to fill.
    Stretch,
    /// Start alignment.
    Start,
    /// Center alignment.
    Center,
    /// End alignment.
    End,
}

pub open spec fn layout_align_token(v: LayoutAlign) -> Seq<char> {
    match v {
        LayoutAlign::Stretch => "stretch"@,
        LayoutAlign::Start => "start"@,
        LayoutAlign::Center => "center"@,
        LayoutAlign::End => "end"@,
    }
}

impl Default for LayoutAlign {
    fn default() -> (r: Self)
        ensures
            r == LayoutAlign::Stretch,
    {
        LayoutAlign::Stretch
    }
}

impl LayoutAlign {
    /// The token written into the primitive's data attribute.
    pub fn token(self) -> (r: &'static str)
        ensures
            r@ == layout_align_token(self),
    {
        proof {
            reveal_strlit("center");
            reveal_strlit("end");
            reveal_strlit("start");
            reveal_strlit("stretch");
        }
        match self {
            LayoutAlign::Stretch => "stretch",
            LayoutAlign::Start => "start",
            LayoutAlign::Center => "center",
            LayoutAlign::End => "end",
        }
    }
}

/// Shared layout justifications.
#[derive(Debug, Clone, Copy, PartialEq, Eq, Structural)]
pub enum LayoutJustify {
    /// Start justification.
    Start,
    /// Center justification.
    Center,
    /// Space between items.
    Between,
    /// End justification.
    End,
}

pub open spec fn layout_justify_token(v: LayoutJustify) -> Seq<char> {
    match v {
        LayoutJustify::Start => "start"@,
        LayoutJustify::Center => "center"@,
        LayoutJustify::Between => "between"@,
        LayoutJustify::End => "end"@,
    }
}

impl Default for LayoutJustify {
    fn default() -> (r: Self)
        ensures
            r == LayoutJustify::Start,
    {
        LayoutJustify::Start
    }
}

impl LayoutJustify {
    /// The token written into the primitive's data attribute.
    pub fn token(self) -> (r: &'static str)
        ensures
            r@ == layout_justify_token(self),
    {
        proof {
            reveal_strlit("between");
            reveal_strlit("center");
            reveal_strlit("end");
            reveal_strlit("start");
        }
        match self {
            LayoutJustify::Start => "start",
            LayoutJustify::Center => "center",
            LayoutJustify::Between => "between",
            LayoutJustify::End => "end",
        }
    }
}

/// Status of one step of a guided flow.
#[derive(Debug, Clone, Copy, PartialEq, Eq, Structural)]
pub enum StepStatus {
    /// Current active step.
    Current,
    /// Completed prior step.
    Complete,
    /// Pending future step.
    Pending,
    /// Step with a validation error.
    Error,
}

pub open spec fn step_status_token(v: StepStatus) -> Seq<char> {
    match v {
        StepStatus::Current => "current"@,
        StepStatus::Complete => "complete"@,
        StepStatus::Pending => "pending"@,
        StepStatus::Error => "error"@,
    }
}

impl StepStatus {
    /// The token written into the primitive's data attribute.
    pub fn token(self) -> (r: &'static str)
        ensures
            r@ == step_status_token(self),
    {
        proof {
            reveal_strlit("complete");
            reveal_strlit("current");
            reveal_strlit("error");
            reveal_strlit("pending");
        }
        match self {
            StepStatus::Current => "current",
            StepStatus::Complete => "complete",
            StepStatus::Pending => "pending",
            StepStatus::Error => "error",
        }
    }
}

/// Shared progress indicator variants.
#[derive(Debug, Clone, Copy, PartialEq, Eq, Structural)]
pub enum ProgressVariant {
    /// Standard progress indicator.
    Standard,
}

impl Default for ProgressVariant {
    fn default() -> (r: Self)
        ensures
            r == ProgressVariant::Standard,
    {
        ProgressVariant::Standard
    }
}

/// The class list of a primitive: its base class, followed by the
/// caller's layout class when one is given and not empty.
pub open spec fn merged_layout_class(base: Seq<char>, layout_class: Option<Seq<char>>) -> Seq<char> {
    match layout_class {
        Some(extra) => if extra.len() > 0 {
            base + " "@ + extra
        } else {
            base
        },
        None => base,
    }
}

pub open spec fn opt_str_view(s: Option<&str>) -> Option<Seq<char>> {
    match s {
        Some(x) => Some(x@),
        None => None,
    }
}

/// The class list of a primitive with an optional layout class.
pub fn merge_layout_class(base: &str, layout_class: Option<&str>) -> (r: String)
    ensures
        r@ == merged_layout_class(base@, opt_str_view(layout_class)),
{
    match layout_class {
        Some(extra) => {
            if extra.unicode_len() > 0 {
                String::from_str(base).concat(" ").concat(extra)
            } else {
                String::from_str(base)
            }
        },
        None => String::from_str(base),
    }
}

/// `true` or `false` as written into boolean data attributes.
pub fn bool_token(value: bool) -> (r: &'static str)
    ensures
        r@ == (if value { "true"@ } else { "false"@ }),
{
    proof {
        reveal_strlit("true");
        reveal_strlit("false");
    }
    if value {
        "true"
    } else {
        "false"
    }
}

} // verus!
