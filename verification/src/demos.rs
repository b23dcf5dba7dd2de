//! The colour palette and main menu of the iOS demo app.

use vstd::prelude::*;

verus! {

/// Base background — `#1e1e2e`
pub const BACKGROUND: u32 = 0x1e1e2e;
/// Slightly elevated surface — `#313244`
pub const SURFACE: u32 = 0x313244;
/// Overlay / muted surface — `#45475a`
pub const OVERLAY: u32 = 0x45475a;
/// Primary text — `#cdd6f4`
pub const TEXT: u32 = 0xcdd6f4;
/// Secondary / subdued text — `#a6adc8`
pub const SUBTEXT: u32 = 0xa6adc8;
/// Red — `#f38ba8`
pub const RED: u32 = 0xf38ba8;
/// Green — `#a6e3a1`
pub const GREEN: u32 = 0xa6e3a1;
/// Blue — `#89b4fa`
pub const BLUE: u32 = 0x89b4fa;
/// Yellow — `#f9e2af`
pub const YELLOW: u32 = 0xf9e2af;
/// Pink — `#f5c2e7`
pub const PINK: u32 = 0xf5c2e7;
/// Mauve / purple — `#cba6f7`
pub const MAUVE: u32 = 0xcba6f7;
/// Peach — `#fab387`
pub const PEACH: u32 = 0xfab387;
/// Teal — `#94e2d5`
pub const TEAL: u32 = 0x94e2d5;
/// Sky — `#89dceb`
pub const SKY: u32 = 0x89dceb;
/// Lavender — `#b4befe`
pub const LAVENDER: u32 = 0xb4befe;

/// The accent palette that [`random_color`] cycles through.
pub const ACCENT_PALETTE: [u32; 10] = [
    0xf38ba8, 0xa6e3a1, 0x89b4fa, 0xf9e2af, 0xf5c2e7, 0xcba6f7, 0xfab387, 0x94e2d5, 0x89dceb, 0xb4befe,
];

/// The accent colours in palette order.
pub open spec fn accent(i: int) -> u32 {
    seq![RED, GREEN, BLUE, YELLOW, PINK, MAUVE, PEACH, TEAL, SKY, LAVENDER][i]
}

/// A deterministic accent colour for `seed`: the accents in order, repeating
/// every ten seeds.
pub fn random_color(seed: usize) -> (c: u32)
    ensures
        c == accent((seed % 10) as int),
{
    let palette = ACCENT_PALETTE;
    assert(palette@ == seq![RED, GREEN, BLUE, YELLOW, PINK, MAUVE, PEACH, TEAL, SKY, LAVENDER]);
    palette[seed % 10]
}

/// Which view of the demo app is displayed.
#[derive(Clone, Copy, Debug, PartialEq, Eq)]
pub enum ActiveView {
    /// The top-level menu.
    Menu,
    /// Animation Playground demo.
    AnimationPlayground,
    /// Shader Showcase demo.
    ShaderShowcase,
}

impl Default for ActiveView {
    fn default() -> (v: Self)
        ensures
            v == ActiveView::Menu,
    {
        ActiveView::Menu
    }
}

/// A single tappable entry in the main menu.
#[derive(Clone, Debug)]
pub struct MenuEntry {
    /// Primary title.
    pub title: &'static str,
    /// Sub-title / description.
    pub subtitle: &'static str,
    /// Left-border accent colour (`0xRRGGBB`).
    pub accent_rgb: u32,
    /// The view this entry navigates to.
    pub target: ActiveView,
}

/// A snapshot of the menu for one frame.
#[derive(Clone, Debug)]
pub struct MenuFrame {
    /// Background fill colour (`0xRRGGBB`).
    pub background_rgb: u32,
    /// The menu entries, top to bottom.
    pub entries: Vec<MenuEntry>,
    /// Footer text.
    pub footer: &'static str,
}

impl MenuFrame {
    /// The main menu: the animation demo (blue) above the shader demo
    /// (mauve) on the base background.
    pub fn build() -> (f: Self)
        ensures
            f.background_rgb == BACKGROUND,
            f.entries@.len() == 2,
            f.entries@[0].target == ActiveView::AnimationPlayground,
            f.entries@[0].accent_rgb == BLUE,
            f.entries@[0].title@ == "Animation Playground"@,
            f.entries@[1].target == ActiveView::ShaderShowcase,
            f.entries@[1].accent_rgb == MAUVE,
            f.entries@[1].title@ == "Shader Showcase"@,
            f.footer@ == "Powered by GPUI"@,
    {
        let mut entries: Vec<MenuEntry> = Vec::new();
        entries.push(MenuEntry {
            title: "Animation Playground",
            subtitle: "Bouncing balls & particle effects",
            accent_rgb: BLUE,
            target: ActiveView::AnimationPlayground,
        });
        entries.push(MenuEntry {
            title: "Shader Showcase",
            subtitle: "Dynamic gradients & visual effects",
            accent_rgb: MAUVE,
            target: ActiveView::ShaderShowcase,
        });
        MenuFrame { background_rgb: BACKGROUND, entries, footer: "Powered by GPUI" }
    }
}

/// The accent of a seed is one of the ten palette colours, and seeds ten
/// apart get the same one.
pub proof fn lemma_random_color_cycles(seed: nat)
    ensures
        accent((seed % 10) as int) == accent(((seed + 10) % 10) as int),
        exists|j: int| 0 <= j < 10 && #[trigger] ACCENT_PALETTE@[j] == accent((seed % 10) as int),
{
    assert(((seed + 10) % 10) == seed % 10);
    let j = (seed % 10) as int;
    assert(ACCENT_PALETTE@ == seq![RED, GREEN, BLUE, YELLOW, PINK, MAUVE, PEACH, TEAL, SKY, LAVENDER]);
    assert(ACCENT_PALETTE@[j] == accent(j));
}

} // verus!
