//! The widget window: its size at a scale, its bounds in physical pixels,
//! the settings it is created with and the steps that bring it up.

use crate::text::join2;
use vstd::prelude::*;
use vstd::string::*;

verus! {

/// Width of the widget window at 100 %, in logical pixels.
pub const WIDGET_BASE_WINDOW_WIDTH: i32 = 360;

/// Height of the widget window at 100 %, in logical pixels.
pub const WIDGET_BASE_WINDOW_HEIGHT: i32 = 760;

/// Smallest scale the widget window can be given, in percent.
pub const WIDGET_MIN_SCALE_PERCENT: u16 = 70;

/// Largest scale the widget window can be given, in percent.
pub const WIDGET_MAX_SCALE_PERCENT: u16 = 300;

/// The scale that is applied for a requested scale: the nearest one within
/// the allowed range.
pub open spec fn normalized_scale_percent(scale_percent: int) -> int {
    if scale_percent < WIDGET_MIN_SCALE_PERCENT as int {
        WIDGET_MIN_SCALE_PERCENT as int
    } else if scale_percent > WIDGET_MAX_SCALE_PERCENT as int {
        WIDGET_MAX_SCALE_PERCENT as int
    } else {
        scale_percent
    }
}

/// `base * percent / 100`, rounded to the nearest integer, halves upwards.
pub open spec fn scaled_length(base: int, percent: int) -> int {
    (base * percent + 50) / 100
}

/// The scale that is applied for a requested scale.
pub fn normalize_widget_scale_percent(scale_percent: u16) -> (normalized: u16)
    ensures
        normalized as int == normalized_scale_percent(scale_percent as int),
        WIDGET_MIN_SCALE_PERCENT <= normalized <= WIDGET_MAX_SCALE_PERCENT,
{
    if scale_percent < WIDGET_MIN_SCALE_PERCENT {
        WIDGET_MIN_SCALE_PERCENT
    } else if scale_percent > WIDGET_MAX_SCALE_PERCENT {
        WIDGET_MAX_SCALE_PERCENT
    } else {
        scale_percent
    }
}

/// The logical size, width then height, of the widget window at a scale:
/// the base size times the normalized scale, each side rounded to the
/// nearest pixel.
pub fn resolve_widget_window_logical_size(scale_percent: u16) -> (size: (i32, i32))
    ensures
        size.0 as int == scaled_length(
            WIDGET_BASE_WINDOW_WIDTH as int,
            normalized_scale_percent(scale_percent as int),
        ),
        size.1 as int == scaled_length(
            WIDGET_BASE_WINDOW_HEIGHT as int,
            normalized_scale_percent(scale_percent as int),
        ),
{
    let normalized: i32 = normalize_widget_scale_percent(scale_percent) as i32;
    (
        (WIDGET_BASE_WINDOW_WIDTH * normalized + 50) / 100,
        (WIDGET_BASE_WINDOW_HEIGHT * normalized + 50) / 100,
    )
}

/// `scaled_length` is the integer nearest to the exact quotient
/// `base * percent / 100`: it is less than half a pixel away from it, or
/// exactly half a pixel above it.
pub proof fn lemma_scaled_length_is_nearest(base: int, percent: int)
    ensures
        100 * scaled_length(base, percent) - 50 <= base * percent,
        base * percent < 100 * scaled_length(base, percent) + 50,
{
}

/// At the two base lengths the exact quotient never lies half-way between
/// two pixels, so every rounding rule for halves gives the same size.
pub proof fn lemma_base_lengths_never_tie(percent: int)
    ensures
        100 * scaled_length(WIDGET_BASE_WINDOW_WIDTH as int, percent) - 50
            != WIDGET_BASE_WINDOW_WIDTH * percent,
        100 * scaled_length(WIDGET_BASE_WINDOW_HEIGHT as int, percent) - 50
            != WIDGET_BASE_WINDOW_HEIGHT * percent,
{
}

/// The widget window does not shrink when the scale grows.
pub proof fn lemma_logical_size_grows_with_scale(smaller: int, larger: int)
    requires
        smaller <= larger,
    ensures
        scaled_length(WIDGET_BASE_WINDOW_WIDTH as int, normalized_scale_percent(smaller))
            <= scaled_length(WIDGET_BASE_WINDOW_WIDTH as int, normalized_scale_percent(larger)),
        scaled_length(WIDGET_BASE_WINDOW_HEIGHT as int, normalized_scale_percent(smaller))
            <= scaled_length(WIDGET_BASE_WINDOW_HEIGHT as int, normalized_scale_percent(larger)),
{
}

/// The widget window stays within the sizes of the smallest and the largest
/// scale.
pub proof fn lemma_logical_size_bounds(scale_percent: int)
    ensures
        252 <= scaled_length(
            WIDGET_BASE_WINDOW_WIDTH as int,
            normalized_scale_percent(scale_percent),
        ) <= 1080,
        532 <= scaled_length(
            WIDGET_BASE_WINDOW_HEIGHT as int,
            normalized_scale_percent(scale_percent),
        ) <= 2280,
{
}

/// What went wrong while the widget window was given its bounds.
#[derive(Clone, Copy, PartialEq, Eq, Structural, Debug)]
pub enum BoundsError {
    /// The width in physical pixels does not fit a signed 32-bit number.
    WidthOverflow,
    /// The height in physical pixels does not fit a signed 32-bit number.
    HeightOverflow,
    /// The window system refused the new bounds.
    PositioningFailed,
}

impl BoundsError {
    /// The message that stands for the error.
    pub open spec fn text(self) -> Seq<char> {
        match self {
            BoundsError::WidthOverflow =>
                "widget width overflow while converting to physical pixels."@,
            BoundsError::HeightOverflow =>
                "widget height overflow while converting to physical pixels."@,
            BoundsError::PositioningFailed =>
                "SetWindowPos failed while resizing widget window."@,
        }
    }

    /// The message that stands for the error.
    pub fn message(self) -> (message: String)
        ensures
            message@ == self.text(),
    {
        match self {
            BoundsError::WidthOverflow => String::from_str(
                "widget width overflow while converting to physical pixels.",
            ),
            BoundsError::HeightOverflow => String::from_str(
                "widget height overflow while converting to physical pixels.",
            ),
            BoundsError::PositioningFailed => String::from_str(
                "SetWindowPos failed while resizing widget window.",
            ),
        }
    }
}

/// What the window system is handed for a size in physical pixels: the
/// same numbers as signed, or the side that is too large, the width first.
pub open spec fn signed_physical_size(width: u32, height: u32) -> Result<
    (i32, i32),
    BoundsError,
> {
    if width > i32::MAX {
        Err(BoundsError::WidthOverflow)
    } else if height > i32::MAX {
        Err(BoundsError::HeightOverflow)
    } else {
        Ok((width as i32, height as i32))
    }
}

/// A size in physical pixels as the signed numbers that the window system
/// takes.
pub fn physical_size_to_signed(width: u32, height: u32) -> (size: Result<(i32, i32), BoundsError>)
    ensures
        size == signed_physical_size(width, height),
        size matches Ok(signed) ==> signed.0 as int == width as int && signed.1 as int
            == height as int,
{
    if width > 0x7fff_ffff {
        Err(BoundsError::WidthOverflow)
    } else if height > 0x7fff_ffff {
        Err(BoundsError::HeightOverflow)
    } else {
        Ok((width as i32, height as i32))
    }
}

/// What the answer of the window system to new bounds means: zero is a
/// refusal, anything else is success.
pub fn positioning_outcome(answer: i32) -> (outcome: Result<(), BoundsError>)
    ensures
        outcome == if answer == 0 {
            Err::<(), BoundsError>(BoundsError::PositioningFailed)
        } else {
            Ok::<(), BoundsError>(())
        },
{
    if answer == 0 {
        Err(BoundsError::PositioningFailed)
    } else {
        Ok(())
    }
}

/// The label under which the window system knows the main window.
pub const MAIN_WINDOW_LABEL: &'static str = "main";

/// The label under which the window system knows the widget window.
pub const WIDGET_WINDOW_LABEL: &'static str = "widget";

/// What the widget window is created with.
#[derive(Clone, Copy, PartialEq, Eq, Debug)]
pub struct WidgetWindowSettings {
    pub label: &'static str,
    pub title: &'static str,
    /// Width and height of the content, in logical pixels.
    pub inner_size: (i32, i32),
    /// Script that runs in the page before any of its own.
    pub initialization_script: &'static str,
    pub transparent: bool,
    pub decorations: bool,
    pub resizable: bool,
    /// Whether the window stays above the windows of other applications.
    pub always_on_top: bool,
    pub focused: bool,
    pub skip_taskbar: bool,
}

/// What the widget window is created with: a decorated, resizable window
/// of the base size that stays on top of the other windows and takes the
/// focus.
pub fn widget_window_settings() -> (settings: WidgetWindowSettings)
    ensures
        settings.label@ == WIDGET_WINDOW_LABEL@,
        settings.title@ == "Daily Widget"@,
        settings.inner_size == (WIDGET_BASE_WINDOW_WIDTH, WIDGET_BASE_WINDOW_HEIGHT),
        settings.initialization_script@ == "window.__DAILY_MODE__ = 'widget';"@,
        !settings.transparent,
        settings.decorations,
        settings.resizable,
        settings.always_on_top,
        settings.focused,
        !settings.skip_taskbar,
{
    WidgetWindowSettings {
        label: WIDGET_WINDOW_LABEL,
        title: "Daily Widget",
        inner_size: (WIDGET_BASE_WINDOW_WIDTH, WIDGET_BASE_WINDOW_HEIGHT),
        initialization_script: "window.__DAILY_MODE__ = 'widget';",
        transparent: false,
        decorations: true,
        resizable: true,
        always_on_top: true,
        focused: true,
        skip_taskbar: false,
    }
}

/// The widget window is created at the size it has at a scale of 100 %.
pub proof fn lemma_created_at_full_scale()
    ensures
        scaled_length(WIDGET_BASE_WINDOW_WIDTH as int, normalized_scale_percent(100))
            == WIDGET_BASE_WINDOW_WIDTH,
        scaled_length(WIDGET_BASE_WINDOW_HEIGHT as int, normalized_scale_percent(100))
            == WIDGET_BASE_WINDOW_HEIGHT,
{
}

/// One step of bringing up the widget window.
#[derive(Clone, Copy, PartialEq, Eq, Structural, Debug)]
pub enum WidgetWindowStep {
    /// Destroy the widget window that is there.
    DestroyExisting,
    /// Create the widget window from its address and settings.
    Create,
    /// Show the created window.
    Show,
}

/// The steps that bring up the widget window: a window that is already
/// there is destroyed first, so that the new one starts from a fresh page.
pub open spec fn widget_window_steps(existing: bool) -> Seq<WidgetWindowStep> {
    if existing {
        seq![WidgetWindowStep::DestroyExisting, WidgetWindowStep::Create, WidgetWindowStep::Show]
    } else {
        seq![WidgetWindowStep::Create, WidgetWindowStep::Show]
    }
}

/// The steps that bring up the widget window, in order.
pub fn plan_widget_window(existing: bool) -> (steps: Vec<WidgetWindowStep>)
    ensures
        steps@ == widget_window_steps(existing),
{
    let mut steps: Vec<WidgetWindowStep> = Vec::new();
    if existing {
        steps.push(WidgetWindowStep::DestroyExisting);
    }
    steps.push(WidgetWindowStep::Create);
    steps.push(WidgetWindowStep::Show);
    steps
}

/// What a window command answers when it fails.
#[derive(PartialEq, Eq, Debug)]
pub enum WindowError {
    /// There is no main window to act on.
    MainWindowUnavailable,
    /// The answer to a resize of the widget window never arrived.
    ResizeResultLost { detail: String },
    /// The answer to the creation of the widget window never arrived.
    CreationResultLost { detail: String },
}

impl WindowError {
    /// The message that stands for the error.
    pub open spec fn text(&self) -> Seq<char> {
        match self {
            WindowError::MainWindowUnavailable => "Main window is not available."@,
            WindowError::ResizeResultLost { detail } =>
                "failed to receive widget resize result: "@ + detail@,
            WindowError::CreationResultLost { detail } =>
                "failed to receive widget creation result: "@ + detail@,
        }
    }

    /// The message that stands for the error.
    pub fn message(&self) -> (message: String)
        ensures
            message@ == self.text(),
    {
        match self {
            WindowError::MainWindowUnavailable => String::from_str("Main window is not available."),
            WindowError::ResizeResultLost { detail } => join2(
                "failed to receive widget resize result: ",
                detail.as_str(),
            ),
            WindowError::CreationResultLost { detail } => join2(
                "failed to receive widget creation result: ",
                detail.as_str(),
            ),
        }
    }
}

} // verus!
