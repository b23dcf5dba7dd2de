//! Font descriptors and the font-selection rules of the Android text system.
//!
//! The font database, shaping and rasterisation belong to the font crates;
//! what this module holds is the decisions taken around them: which family
//! name is looked up, which feature tags are valid, which faces are kept,
//! which face best matches a weight and style, which fonts are emoji fonts,
//! and how a rendered glyph image is placed and converted for the atlas.

use vstd::prelude::*;
use crate::geometry::{Bounds, DevicePixels, Point, Size};
use crate::strings::str_eq;

verus! {

/// Opaque font identifier (index into the loaded fonts).
#[derive(Copy, Clone, Debug, PartialEq, Eq, Hash)]
pub struct FontId(pub usize);

/// Opaque glyph identifier (raw glyph index from the font).
#[derive(Copy, Clone, Debug, PartialEq, Eq, Hash)]
pub struct GlyphId(pub u32);

/// Horizontal subpixel variants.
pub const SUBPIXEL_VARIANTS_X: u8 = 4;
/// Vertical subpixel variants.
pub const SUBPIXEL_VARIANTS_Y: u8 = 1;

/// Subpixel offset within a pixel grid cell.
#[derive(Copy, Clone, Debug, PartialEq, Eq, Hash)]
pub struct SubpixelVariant {
    pub x: u8,
    pub y: u8,
}

impl Default for SubpixelVariant {
    fn default() -> (v: Self)
        ensures
            v.x == 0 && v.y == 0,
    {
        SubpixelVariant { x: 0, y: 0 }
    }
}

/// Font weight (CSS-compatible integer, 100–900).
#[derive(Copy, Clone, Debug, PartialEq, Eq, Hash)]
pub struct FontWeight(pub u16);

impl FontWeight {
    /// Weight 100.
    pub fn thin() -> (w: FontWeight)
        ensures
            w.0 == 100,
    {
        FontWeight(100)
    }

    /// Weight 200.
    pub fn extra_light() -> (w: FontWeight)
        ensures
            w.0 == 200,
    {
        FontWeight(200)
    }

    /// Weight 300.
    pub fn light() -> (w: FontWeight)
        ensures
            w.0 == 300,
    {
        FontWeight(300)
    }

    /// Weight 400.
    pub fn normal() -> (w: FontWeight)
        ensures
            w.0 == 400,
    {
        FontWeight(400)
    }

    /// Weight 500.
    pub fn medium() -> (w: FontWeight)
        ensures
            w.0 == 500,
    {
        FontWeight(500)
    }

    /// Weight 600.
    pub fn semi_bold() -> (w: FontWeight)
        ensures
            w.0 == 600,
    {
        FontWeight(600)
    }

    /// Weight 700.
    pub fn bold() -> (w: FontWeight)
        ensures
            w.0 == 700,
    {
        FontWeight(700)
    }

    /// Weight 800.
    pub fn extra_bold() -> (w: FontWeight)
        ensures
            w.0 == 800,
    {
        FontWeight(800)
    }

    /// Weight 900.
    pub fn black() -> (w: FontWeight)
        ensures
            w.0 == 900,
    {
        FontWeight(900)
    }
}

impl Default for FontWeight {
    fn default() -> (w: Self)
        ensures
            w.0 == 400,
    {
        FontWeight(400)
    }
}

/// Font style.
#[derive(Copy, Clone, Debug, PartialEq, Eq, Hash)]
pub enum FontStyle {
    Normal,
    Italic,
    Oblique,
}

impl Default for FontStyle {
    fn default() -> (s: Self)
        ensures
            s == FontStyle::Normal,
    {
        FontStyle::Normal
    }
}

/// OpenType feature tag + value pairs.
#[derive(Clone, Debug, PartialEq, Eq, Hash)]
pub struct FontFeatures(pub Vec<(String, u32)>);

impl Default for FontFeatures {
    fn default() -> (f: Self)
        ensures
            f.0@.len() == 0,
    {
        FontFeatures(Vec::new())
    }
}

/// A logical font descriptor.
#[derive(Clone, Debug)]
pub struct Font {
    pub family: String,
    pub weight: FontWeight,
    pub style: FontStyle,
    pub features: FontFeatures,
}

impl Default for Font {
    fn default() -> (f: Self)
        ensures
            f.family@ == "sans-serif"@,
            f.weight.0 == 400,
            f.style == FontStyle::Normal,
            f.features.0@.len() == 0,
    {
        Font {
            family: String::from_str("sans-serif"),
            weight: FontWeight(400),
            style: FontStyle::Normal,
            features: FontFeatures(Vec::new()),
        }
    }
}

/// How a glyph should be rendered.
#[derive(Copy, Clone, Debug, PartialEq, Eq)]
pub enum TextRenderingMode {
    Subpixel,
    Grayscale,
}

impl Default for TextRenderingMode {
    fn default() -> (m: Self)
        ensures
            m == TextRenderingMode::Subpixel,
    {
        TextRenderingMode::Subpixel
    }
}

/// A `(font_id, byte_length)` run specification for line layout.
#[derive(Clone, Debug)]
pub struct FontRun {
    pub font_id: FontId,
    pub len: usize,
}

/// Cache key of a loaded family: its name and features.
#[derive(Debug, Clone, PartialEq, Eq, Hash)]
pub struct FontKey {
    pub family: String,
    pub features: FontFeatures,
}

impl FontKey {
    /// Key for `family` with `features`.
    pub fn new(family: String, features: FontFeatures) -> (k: Self)
        ensures
            k.family == family,
            k.features == features,
    {
        FontKey { family, features }
    }
}

/// The family name that is looked up for a requested `name`.  CSS generic
/// families are Android aliases and pass through; any other name is
/// trusted as given (the caller retries with the fallback when the family is
/// not found).  Either way the name is returned unchanged.
pub fn font_name_with_fallback(name: &str, fallback: &str) -> (r: String)
    ensures
        r@ == name@,
{
    let _ = fallback;
    String::from_str(name)
}

/// Why a feature list was refused.
#[derive(Clone, Debug, PartialEq, Eq)]
pub enum FontFeatureError {
    /// The first tag that is not exactly four ASCII bytes.
    InvalidTag(String),
}

/// A feature tag is valid when it is exactly four ASCII bytes: four
/// characters, each ASCII.
pub open spec fn valid_feature_tag(tag: Seq<char>) -> bool {
    tag.len() == 4 && vstd::utf8::is_ascii_chars(tag)
}

/// Whether `tag` is exactly four ASCII bytes.
fn is_four_byte_tag(tag: &str) -> (r: bool)
    ensures
        r == valid_feature_tag(tag@),
{
    tag.is_ascii() && tag.unicode_len() == 4
}

/// Validate font feature tags (each must be exactly 4 ASCII bytes).
pub fn validate_font_features(features: &FontFeatures) -> (r: Result<(), FontFeatureError>)
    ensures
        r is Ok <==> forall|i: int| 0 <= i < features.0@.len() ==> valid_feature_tag(#[trigger] features.0@[i].0@),
        r matches Err(FontFeatureError::InvalidTag(t)) ==> exists|i: int| {
            &&& 0 <= i < features.0@.len()
            &&& features.0@[i].0@ == t@
            &&& !valid_feature_tag(t@)
            &&& forall|j: int| 0 <= j < i ==> valid_feature_tag(#[trigger] features.0@[j].0@)
        },
{
    let n = features.0.len();
    let mut i: usize = 0;
    while i < n
        invariant
            n == features.0@.len(),
            i <= n,
            forall|j: int| 0 <= j < i ==> valid_feature_tag(#[trigger] features.0@[j].0@),
        decreases n - i,
    {
        let name = &features.0[i].0;
        if !is_four_byte_tag(name.as_str()) {
            return Err(FontFeatureError::InvalidTag(name.clone()));
        }
        i = i + 1;
    }
    Ok(())
}

/// Post-script names of the emoji fonts the text system knows.
pub open spec fn is_known_emoji_font(name: Seq<char>) -> bool {
    name == "NotoColorEmoji"@ || name == "NotoColorEmojiCompat"@ || name == "NotoEmoji"@
        || name == "TwemojiMozilla"@ || name == "Twemoji"@
}

/// Whether `postscript_name` is a known emoji font.
pub fn check_is_known_emoji_font(postscript_name: &str) -> (r: bool)
    ensures
        r == is_known_emoji_font(postscript_name@),
{
    str_eq(postscript_name, "NotoColorEmoji") || str_eq(postscript_name, "NotoColorEmojiCompat")
        || str_eq(postscript_name, "NotoEmoji") || str_eq(postscript_name, "TwemojiMozilla")
        || str_eq(postscript_name, "Twemoji")
}

/// Decorative / symbol faces without an `m` glyph are dropped when a family
/// is loaded, except the known icon fonts.
pub open spec fn face_is_usable_spec(m_glyph: u16, postscript_name: Seq<char>) -> bool {
    m_glyph != 0 || postscript_name == "SegoeFluentIcons"@ || postscript_name == "Segoe Fluent Icons"@
}

/// Whether a face whose glyph for `m` is `m_glyph` (0 = none) is kept.
pub fn face_is_usable(m_glyph: u16, postscript_name: &str) -> (r: bool)
    ensures
        r == face_is_usable_spec(m_glyph, postscript_name@),
{
    m_glyph != 0 || str_eq(postscript_name, "SegoeFluentIcons") || str_eq(postscript_name, "Segoe Fluent Icons")
}

/// Weight and slant of a candidate face.
#[derive(Copy, Clone, Debug, PartialEq, Eq)]
pub struct FaceStyle {
    pub weight: u16,
    pub italic: bool,
}

/// Match score of a face for a target: 1000 for a slant mismatch plus the
/// weight distance (lower is better).
pub open spec fn match_score(face: FaceStyle, target_weight: u16, target_italic: bool) -> int {
    (if face.italic == target_italic { 0int } else { 1000int })
        + if face.weight >= target_weight { face.weight - target_weight } else { target_weight - face.weight }
}

/// Whether a style counts as slanted.
pub open spec fn is_slanted(style: FontStyle) -> bool {
    style == FontStyle::Italic || style == FontStyle::Oblique
}

/// No face of the family could be considered.
#[derive(Copy, Clone, Debug, PartialEq, Eq)]
pub struct NoFontFaces;

/// Index of the candidate that best matches `font`'s weight and slant.
///
/// `candidates[i]` is the style of the i-th face of the family, `None` when
/// the face is missing from the font database (such faces are skipped).  A
/// single candidate is taken as is; otherwise the first face with the lowest
/// [`match_score`] wins, and index 0 when no face could be looked at.
pub fn find_best_match(font: &Font, candidates: &[Option<FaceStyle>]) -> (r: Result<usize, NoFontFaces>)
    ensures
        r is Err <==> candidates@.len() == 0,
        candidates@.len() == 1 ==> r == Ok::<usize, NoFontFaces>(0),
        candidates@.len() > 1 ==> (r matches Ok(ix) && {
            let tw = font.weight.0;
            let ti = is_slanted(font.style);
            &&& ix < candidates@.len()
            &&& (forall|j: int| 0 <= j < candidates@.len() ==> candidates@[j] is None) ==> ix == 0
            &&& (exists|j: int| 0 <= j < candidates@.len() && candidates@[j] is Some) ==> {
                &&& candidates@[ix as int] is Some
                &&& forall|j: int| 0 <= j < candidates@.len() && candidates@[j] is Some ==>
                    match_score(candidates@[ix as int]->0, tw, ti) <= match_score(#[trigger] candidates@[j]->0, tw, ti)
                &&& forall|j: int| 0 <= j < ix && candidates@[j] is Some ==>
                    match_score(candidates@[ix as int]->0, tw, ti) < match_score(#[trigger] candidates@[j]->0, tw, ti)
            }
        }),
{
    let n = candidates.len();
    if n == 0 {
        return Err(NoFontFaces);
    }
    if n == 1 {
        return Ok(0);
    }
    let target_weight = font.weight.0;
    let target_italic = match font.style {
        FontStyle::Italic | FontStyle::Oblique => true,
        FontStyle::Normal => false,
    };
    let ghost tw = target_weight;
    let ghost ti = target_italic;
    let mut best_index: usize = 0;
    let mut best_score: u32 = u32::MAX;
    let mut found = false;
    let mut index: usize = 0;
    while index < n
        invariant
            n == candidates@.len(),
            index <= n,
            best_index < n,
            tw == target_weight,
            ti == target_italic,
            found <==> exists|j: int| 0 <= j < index && candidates@[j] is Some,
            !found ==> best_index == 0 && best_score == u32::MAX,
            found ==> {
                &&& best_index < index
                &&& candidates@[best_index as int] is Some
                &&& best_score == match_score(candidates@[best_index as int]->0, tw, ti)
                &&& forall|j: int| 0 <= j < index && candidates@[j] is Some ==>
                    best_score <= match_score(#[trigger] candidates@[j]->0, tw, ti)
                &&& forall|j: int| 0 <= j < best_index && candidates@[j] is Some ==>
                    best_score < match_score(#[trigger] candidates@[j]->0, tw, ti)
            },
        decreases n - index,
    {
        match candidates[index] {
            None => {},
            Some(face) => {
                let style_penalty: u32 = if face.italic == target_italic { 0 } else { 1000 };
                let weight_diff: u32 = if face.weight >= target_weight {
                    (face.weight - target_weight) as u32
                } else {
                    (target_weight - face.weight) as u32
                };
                let score = style_penalty + weight_diff;
                assert(score == match_score(face, tw, ti));
                if score < best_score {
                    best_score = score;
                    best_index = index;
                }
                found = true;
            },
        }
        index = index + 1;
    }
    Ok(best_index)
}

/// The glyph id a character map gives (0 means "no glyph").
pub fn glyph_from_charmap(gid: u16) -> (r: Option<GlyphId>)
    ensures
        r == (if gid == 0 { None } else { Some(GlyphId(gid as u32)) }),
{
    if gid == 0 {
        None
    } else {
        Some(GlyphId(gid as u32))
    }
}

/// Device-pixel bounds of a rendered glyph image from its placement: the
/// origin is `(left, -top)`; a side too large for `i32` counts as 0.
pub fn raster_bounds_from_placement(left: i32, top: i32, width: u32, height: u32) -> (b: Bounds<DevicePixels>)
    requires
        top != i32::MIN,
    ensures
        b.origin.x.0 == left,
        b.origin.y.0 == -top,
        b.size.width.0 == (if width <= i32::MAX { width as int } else { 0 }),
        b.size.height.0 == (if height <= i32::MAX { height as int } else { 0 }),
{
    let w: i32 = if width <= 0x7fff_ffff { width as i32 } else { 0 };
    let h: i32 = if height <= 0x7fff_ffff { height as i32 } else { 0 };
    Bounds {
        origin: Point { x: DevicePixels(left), y: DevicePixels(-top) },
        size: Size { width: DevicePixels(w), height: DevicePixels(h) },
    }
}

/// Kind of pixels a glyph renderer produced.
#[derive(Copy, Clone, Debug, PartialEq, Eq)]
pub enum GlyphContent {
    /// One alpha byte per pixel.
    Mask,
    /// Subpixel coverage, four bytes per pixel in RGBA order.
    SubpixelMask,
    /// Colour image, four bytes per pixel in RGBA order.
    Color,
}

/// Refusal to rasterise a glyph.
#[derive(Copy, Clone, Debug, PartialEq, Eq)]
pub enum GlyphError {
    /// The requested glyph bounds have a zero side.
    EmptyBounds,
}

/// Glyph bounds with a zero side cannot be rasterised.
pub fn check_glyph_bounds(glyph_bounds: Bounds<DevicePixels>) -> (r: Result<(), GlyphError>)
    ensures
        r is Err <==> (glyph_bounds.size.width.0 == 0 || glyph_bounds.size.height.0 == 0),
{
    if glyph_bounds.size.width.0 == 0 || glyph_bounds.size.height.0 == 0 {
        Err(GlyphError::EmptyBounds)
    } else {
        Ok(())
    }
}

/// Byte `i` of `data` after swapping the first and third byte of every
/// complete 4-byte pixel (RGBA ↔ BGRA); a trailing partial pixel is kept.
pub open spec fn swapped_rb(data: Seq<u8>, i: int) -> u8 {
    let whole = data.len() - data.len() % 4;
    if i < whole && i % 4 == 0 {
        data[i + 2]
    } else if i < whole && i % 4 == 2 {
        data[i - 2]
    } else {
        data[i]
    }
}

/// `data` with red and blue swapped in every complete 4-byte pixel.
pub open spec fn swap_rb_seq(data: Seq<u8>) -> Seq<u8> {
    Seq::new(data.len(), |i: int| swapped_rb(data, i))
}

/// Swapping red and blue twice gives the bytes back.
pub proof fn lemma_swap_red_blue_twice(data: Seq<u8>)
    ensures
        swap_rb_seq(swap_rb_seq(data)) == data,
{
    let once = swap_rb_seq(data);
    let n = data.len() as int;
    let whole = n - n % 4;
    assert forall|i: int| 0 <= i < n implies #[trigger] swap_rb_seq(once)[i] == data[i] by {
        assert(once.len() == n);
        if i < whole && i % 4 == 0 {
            assert((i + 2) % 4 == 2 && i + 2 < whole) by (nonlinear_arith)
                requires
                    i % 4 == 0,
                    i < whole,
                    whole == n - n % 4,
                    0 <= i,
                    0 <= n,
            ;
            assert(once[i + 2] == data[i]);
        } else if i < whole && i % 4 == 2 {
            assert((i - 2) % 4 == 0 && 0 <= i - 2) by (nonlinear_arith)
                requires
                    i % 4 == 2,
                    0 <= i,
            ;
            assert(once[i - 2] == data[i]);
        }
    }
    assert(swap_rb_seq(once) =~= data);
}

/// Swap red and blue in every complete 4-byte pixel.
pub fn swap_red_blue(data: &mut Vec<u8>)
    ensures
        final(data)@.len() == old(data)@.len(),
        forall|i: int| 0 <= i < old(data)@.len() ==> #[trigger] final(data)@[i] == swapped_rb(old(data)@, i),
{
    let n = data.len();
    let whole = n - n % 4;
    let mut p: usize = 0;
    while p < whole
        invariant
            n == data@.len(),
            n == old(data)@.len(),
            whole == n - n % 4,
            p % 4 == 0,
            p <= whole,
            forall|i: int| 0 <= i < p ==> #[trigger] data@[i] == swapped_rb(old(data)@, i),
            forall|i: int| p <= i < n ==> #[trigger] data@[i] == old(data)@[i],
        decreases whole - p,
    {
        let r = data[p];
        let b = data[p + 2];
        data.set(p, b);
        data.set(p + 2, r);
        p = p + 4;
    }
}

/// Convert a rendered glyph image for the atlas: masks pass through,
/// subpixel and colour images have red and blue swapped (RGBA → BGRA).
/// The bitmap size is the requested glyph bounds' size.
pub fn finish_glyph_image(glyph_bounds: Bounds<DevicePixels>, content: GlyphContent, data: Vec<u8>) -> (r: (Size<DevicePixels>, Vec<u8>))
    ensures
        r.0 == glyph_bounds.size,
        content == GlyphContent::Mask ==> r.1@ == data@,
        content != GlyphContent::Mask ==> r.1@.len() == data@.len() && forall|i: int|
            0 <= i < data@.len() ==> #[trigger] r.1@[i] == swapped_rb(data@, i),
{
    let mut data = data;
    match content {
        GlyphContent::Color | GlyphContent::SubpixelMask => {
            swap_red_blue(&mut data);
        },
        GlyphContent::Mask => {},
    }
    (glyph_bounds.size, data)
}

} // verus!
