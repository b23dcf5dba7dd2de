//! System chrome (status bar / navigation bar) styling and the software
//! keyboard types.
//!
//! Applying a style on Android costs several JNI calls that can contend with
//! the UI thread, so the last applied style is remembered and an unchanged
//! style is skipped; what is applied is computed here and performed by the
//! platform layer.

use vstd::prelude::*;

verus! {

/// Appearance of the status bar text and icons.
#[derive(Debug, Clone, Copy, PartialEq, Eq)]
pub enum StatusBarContentStyle {
    /// White text/icons — use on dark backgrounds.
    Light,
    /// Dark text/icons — use on light backgrounds.
    Dark,
}

impl Default for StatusBarContentStyle {
    fn default() -> (s: Self)
        ensures
            s == StatusBarContentStyle::Dark,
    {
        StatusBarContentStyle::Dark
    }
}

/// Configures the system chrome appearance.  Colors are `0xRRGGBB`;
/// `None` leaves a color unchanged.
#[derive(Debug, Clone, Copy, PartialEq)]
pub struct SystemChromeStyle {
    /// Background color behind the status bar.
    pub status_bar_color: Option<u32>,
    /// Whether the status bar content should be light or dark.
    pub status_bar_style: StatusBarContentStyle,
    /// Background color behind the home indicator / navigation bar.
    pub navigation_bar_color: Option<u32>,
}

impl Default for SystemChromeStyle {
    fn default() -> (s: Self)
        ensures
            s.status_bar_color is None,
            s.status_bar_style == StatusBarContentStyle::Dark,
            s.navigation_bar_color is None,
    {
        SystemChromeStyle {
            status_bar_color: None,
            status_bar_style: StatusBarContentStyle::Dark,
            navigation_bar_color: None,
        }
    }
}

/// The type of software keyboard to present.
#[derive(Debug, Clone, Copy, PartialEq, Eq)]
pub enum KeyboardType {
    /// Standard text keyboard.
    Default,
    /// Keyboard optimized for email addresses.
    EmailAddress,
    /// Phone number pad.
    Phone,
    /// Numeric keypad (digits only).
    NumberPad,
    /// Keyboard optimized for URL entry.
    URL,
    /// Decimal number pad.
    Decimal,
}

impl Default for KeyboardType {
    fn default() -> (k: Self)
        ensures
            k == KeyboardType::Default,
    {
        KeyboardType::Default
    }
}

/// `APPEARANCE_LIGHT_STATUS_BARS` of `WindowInsetsController`.
pub const APPEARANCE_LIGHT_STATUS_BARS: i32 = 8;
/// `SYSTEM_UI_FLAG_LIGHT_STATUS_BAR` of `View`.
pub const SYSTEM_UI_FLAG_LIGHT_STATUS_BAR: i32 = 0x2000;

/// Opaque ARGB of a `0xRRGGBB` color, as the signed int Android takes.
pub open spec fn spec_opaque_argb(rgb: u32) -> i32 {
    (0xFF000000u32 | rgb) as i32
}

/// The calls that apply a style.
#[derive(Debug, Clone, Copy, PartialEq, Eq)]
pub struct SystemChromeCommands {
    /// `Window.setStatusBarColor` argument, when the color is set.
    pub status_bar_argb: Option<i32>,
    /// `Window.setNavigationBarColor` argument, when the color is set.
    pub navigation_bar_argb: Option<i32>,
    /// `setSystemBarsAppearance` appearance argument.
    pub appearance: i32,
    /// `setSystemBarsAppearance` mask argument.
    pub appearance_mask: i32,
}

/// The commands that apply `style`: opaque colors, light status bar
/// appearance for dark content.
pub open spec fn spec_chrome_commands(style: SystemChromeStyle) -> SystemChromeCommands {
    SystemChromeCommands {
        status_bar_argb: match style.status_bar_color {
            Some(c) => Some(spec_opaque_argb(c)),
            None => None,
        },
        navigation_bar_argb: match style.navigation_bar_color {
            Some(c) => Some(spec_opaque_argb(c)),
            None => None,
        },
        appearance: match style.status_bar_style {
            StatusBarContentStyle::Dark => APPEARANCE_LIGHT_STATUS_BARS,
            StatusBarContentStyle::Light => 0,
        },
        appearance_mask: APPEARANCE_LIGHT_STATUS_BARS,
    }
}

fn opaque_argb(rgb: u32) -> (r: i32)
    ensures
        r == spec_opaque_argb(rgb),
{
    (0xFF000000u32 | rgb) as i32
}

/// The style last applied, remembered to skip repeated identical styles.
pub struct SystemChromeState {
    last: Option<(Option<u32>, Option<u32>, StatusBarContentStyle)>,
}

/// The remembered form of a style.
pub open spec fn chrome_key(style: SystemChromeStyle) -> (Option<u32>, Option<u32>, StatusBarContentStyle) {
    (style.status_bar_color, style.navigation_bar_color, style.status_bar_style)
}

impl SystemChromeState {
    /// The last applied style, if any.
    pub closed spec fn last(self) -> Option<(Option<u32>, Option<u32>, StatusBarContentStyle)> {
        self.last
    }

    /// Nothing applied yet.
    pub fn new() -> (s: Self)
        ensures
            s.last() is None,
    {
        SystemChromeState { last: None }
    }

    /// Record `style` as the last applied one, once the calls that apply it
    /// have succeeded.
    pub fn mark_applied(&mut self, style: &SystemChromeStyle)
        ensures
            final(self).last() == Some(chrome_key(*style)),
    {
        self.last = Some((style.status_bar_color, style.navigation_bar_color, style.status_bar_style));
    }

    /// Forget the applied style (the window surface was torn down), so that
    /// the next style is applied again.
    pub fn reset(&mut self)
        ensures
            final(self).last() is None,
    {
        self.last = None;
    }
}

fn same_color(a: Option<u32>, b: Option<u32>) -> (r: bool)
    ensures
        r == (a == b),
{
    match (a, b) {
        (Some(x), Some(y)) => x == y,
        (None, None) => true,
        _ => false,
    }
}

fn same_content_style(a: StatusBarContentStyle, b: StatusBarContentStyle) -> (r: bool)
    ensures
        r == (a == b),
{
    match (a, b) {
        (StatusBarContentStyle::Light, StatusBarContentStyle::Light) => true,
        (StatusBarContentStyle::Dark, StatusBarContentStyle::Dark) => true,
        _ => false,
    }
}

/// What applying `style` does after `last` was applied: nothing when it is
/// the same style, otherwise the calls that apply it.
pub open spec fn chrome_outcome(
    last: Option<(Option<u32>, Option<u32>, StatusBarContentStyle)>,
    style: SystemChromeStyle,
) -> Option<SystemChromeCommands> {
    if last == Some(chrome_key(style)) {
        None
    } else {
        Some(spec_chrome_commands(style))
    }
}

/// Decide how to apply `style`: `None` when it equals the last applied
/// style, otherwise the calls to make.  The record is left alone: the caller
/// marks the style applied ([`SystemChromeState::mark_applied`]) only once the
/// calls succeeded, so that a failed apply is tried again.
pub fn set_system_chrome(state: &SystemChromeState, style: &SystemChromeStyle) -> (r: Option<SystemChromeCommands>)
    ensures
        r == chrome_outcome(state.last(), *style),
{
    let unchanged = match state.last {
        Some((s, n, c)) => same_color(s, style.status_bar_color) && same_color(n, style.navigation_bar_color)
            && same_content_style(c, style.status_bar_style),
        None => false,
    };
    if unchanged {
        return None;
    }
    let status_bar_argb = match style.status_bar_color {
        Some(c) => Some(opaque_argb(c)),
        None => None,
    };
    let navigation_bar_argb = match style.navigation_bar_color {
        Some(c) => Some(opaque_argb(c)),
        None => None,
    };
    let appearance = match style.status_bar_style {
        StatusBarContentStyle::Dark => APPEARANCE_LIGHT_STATUS_BARS,
        StatusBarContentStyle::Light => 0,
    };
    Some(SystemChromeCommands {
        status_bar_argb,
        navigation_bar_argb,
        appearance,
        appearance_mask: APPEARANCE_LIGHT_STATUS_BARS,
    })
}

/// The `systemUiVisibility` flags that show `style` on devices without an
/// insets controller: the light-status-bar flag is set for dark content and
/// cleared for light content, other flags are kept.
pub fn legacy_ui_visibility(current: i32, style: StatusBarContentStyle) -> (r: i32)
    ensures
        r == match style {
            StatusBarContentStyle::Dark => current | SYSTEM_UI_FLAG_LIGHT_STATUS_BAR,
            StatusBarContentStyle::Light => current & !SYSTEM_UI_FLAG_LIGHT_STATUS_BAR,
        },
{
    match style {
        StatusBarContentStyle::Dark => current | SYSTEM_UI_FLAG_LIGHT_STATUS_BAR,
        StatusBarContentStyle::Light => current & !SYSTEM_UI_FLAG_LIGHT_STATUS_BAR,
    }
}

/// A style marked applied is skipped when asked for again; a style asked
/// for after a different one, after a reset, or after an apply that failed
/// (and so was not marked) gets the calls that apply it.
pub proof fn lemma_chrome_repeat_is_skipped(
    first: SystemChromeStyle,
    second: SystemChromeStyle,
    last: Option<(Option<u32>, Option<u32>, StatusBarContentStyle)>,
)
    ensures
        chrome_outcome(Some(chrome_key(first)), first) is None,
        last != Some(chrome_key(second)) ==> chrome_outcome(last, second) == Some(spec_chrome_commands(second)),
        chrome_key(first) != chrome_key(second)
            ==> chrome_outcome(Some(chrome_key(first)), second) == Some(spec_chrome_commands(second)),
        chrome_outcome(None, second) == Some(spec_chrome_commands(second)),
{
}

/// Both bar colours are applied opaque and by the same conversion: the
/// argument for a `0xRRGGBB` colour has alpha byte `0xFF` (so it is a
/// negative `int`) and the colour's own low 24 bits, for the status bar and
/// the navigation bar alike; two bars of one colour get one argument, and a
/// bar left unset gets no call.
pub proof fn lemma_bar_colors_are_opaque(style: SystemChromeStyle)
    ensures
        style.status_bar_color matches Some(c) ==> (spec_chrome_commands(style).status_bar_argb matches Some(a) && {
            &&& a < 0
            &&& (a as u32) >> 24u32 == 0xFFu32
            &&& (a as u32) & 0xFFFFFFu32 == c & 0xFFFFFFu32
        }),
        style.navigation_bar_color matches Some(c) ==> (spec_chrome_commands(style).navigation_bar_argb matches Some(a) && {
            &&& a < 0
            &&& (a as u32) >> 24u32 == 0xFFu32
            &&& (a as u32) & 0xFFFFFFu32 == c & 0xFFFFFFu32
        }),
        style.status_bar_color is None ==> (spec_chrome_commands(style).status_bar_argb is None),
        style.navigation_bar_color is None ==> (spec_chrome_commands(style).navigation_bar_argb is None),
        style.status_bar_color == style.navigation_bar_color
            ==> spec_chrome_commands(style).status_bar_argb == spec_chrome_commands(style).navigation_bar_argb,
{
    if let Some(c) = style.status_bar_color {
        lemma_opaque_argb(c);
    }
    if let Some(c) = style.navigation_bar_color {
        lemma_opaque_argb(c);
    }
}

proof fn lemma_opaque_argb(c: u32)
    ensures
        spec_opaque_argb(c) < 0,
        (spec_opaque_argb(c) as u32) >> 24u32 == 0xFFu32,
        (spec_opaque_argb(c) as u32) & 0xFFFFFFu32 == c & 0xFFFFFFu32,
{
    let u = 0xFF000000u32 | c;
    assert(u >> 24u32 == 0xFFu32) by (bit_vector)
        requires u == 0xFF000000u32 | c;
    assert(u & 0xFFFFFFu32 == c & 0xFFFFFFu32) by (bit_vector)
        requires u == 0xFF000000u32 | c;
    assert(u >= 0x80000000u32) by (bit_vector)
        requires u == 0xFF000000u32 | c;
    assert((u as i32) as u32 == u) by (bit_vector);
    assert((u as i32) < 0i32) by (bit_vector)
        requires u >= 0x80000000u32;
}

/// The legacy visibility flags keep every flag but the light-status-bar one,
/// and the last content style applied decides that one.
pub proof fn lemma_legacy_visibility_keeps_other_flags(current: i32, first: StatusBarContentStyle, second: StatusBarContentStyle)
    ensures
        ({
            let once = match first {
                StatusBarContentStyle::Dark => current | SYSTEM_UI_FLAG_LIGHT_STATUS_BAR,
                StatusBarContentStyle::Light => current & !SYSTEM_UI_FLAG_LIGHT_STATUS_BAR,
            };
            let twice = match second {
                StatusBarContentStyle::Dark => once | SYSTEM_UI_FLAG_LIGHT_STATUS_BAR,
                StatusBarContentStyle::Light => once & !SYSTEM_UI_FLAG_LIGHT_STATUS_BAR,
            };
            &&& once & !SYSTEM_UI_FLAG_LIGHT_STATUS_BAR == current & !SYSTEM_UI_FLAG_LIGHT_STATUS_BAR
            &&& twice == match second {
                StatusBarContentStyle::Dark => current | SYSTEM_UI_FLAG_LIGHT_STATUS_BAR,
                StatusBarContentStyle::Light => current & !SYSTEM_UI_FLAG_LIGHT_STATUS_BAR,
            }
        }),
{
    let f: i32 = 0x2000;
    assert((current | f) & !f == current & !f) by (bit_vector);
    assert((current & !f) & !f == current & !f) by (bit_vector);
    assert((current | f) | f == current | f) by (bit_vector);
    assert((current & !f) | f == current | f) by (bit_vector);
}

} // verus!
