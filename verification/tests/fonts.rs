use gpui_mobile::layout::{group_glyph_runs, run_byte_ranges, GlyphRun, PlacedGlyph};
use gpui_mobile::geometry::{point, size, Bounds, DevicePixels, Point, Size};
use gpui_mobile::text::{
    check_glyph_bounds, check_is_known_emoji_font, face_is_usable, find_best_match, finish_glyph_image,
    font_name_with_fallback, glyph_from_charmap, raster_bounds_from_placement, swap_red_blue, validate_font_features,
    FaceStyle, Font, FontFeatureError, FontFeatures, FontId, FontRun, FontStyle, FontWeight, GlyphContent, GlyphId, SUBPIXEL_VARIANTS_X,
    SUBPIXEL_VARIANTS_Y,
};

#[test]
fn font_name_fallback_passthrough_generics() {
    assert_eq!(font_name_with_fallback("sans-serif", "Roboto"), "sans-serif");
    assert_eq!(font_name_with_fallback("monospace", "Roboto"), "monospace");
}

#[test]
fn font_name_fallback_passthrough_specific() {
    assert_eq!(font_name_with_fallback("Roboto", "sans-serif"), "Roboto");
}

#[test]
fn check_is_known_emoji_font_positive() {
    assert!(check_is_known_emoji_font("NotoColorEmoji"));
    assert!(check_is_known_emoji_font("NotoColorEmojiCompat"));
    assert!(check_is_known_emoji_font("TwemojiMozilla"));
}

#[test]
fn check_is_known_emoji_font_negative() {
    assert!(!check_is_known_emoji_font("Roboto"));
    assert!(!check_is_known_emoji_font("NotoSans"));
    assert!(!check_is_known_emoji_font(""));
}

#[test]
fn cosmic_font_features_empty() {
    let features = FontFeatures(vec![]);
    let result = validate_font_features(&features);
    assert!(result.is_ok());
}

#[test]
fn cosmic_font_features_valid_tag() {
    let feats = FontFeatures(vec![("liga".to_string(), 1)]);
    validate_font_features(&feats).unwrap();
}

#[test]
fn cosmic_font_features_invalid_tag_too_short() {
    let features = FontFeatures(vec![("ke".to_string(), 1)]);
    let result = validate_font_features(&features);
    assert!(result.is_err(), "expected error for short tag");
}

#[test]
fn cosmic_font_features_invalid_tag_too_long() {
    let features = FontFeatures(vec![("kerning".to_string(), 1)]);
    let result = validate_font_features(&features);
    assert!(result.is_err(), "expected error for long tag");
}

#[test]
fn font_weight_constants() {
    assert_eq!(FontWeight::normal().0, 400);
    assert_eq!(FontWeight::bold().0, 700);
}

#[test]
fn subpixel_variant_counts() {
    assert_eq!(SUBPIXEL_VARIANTS_X, 4);
    assert_eq!(SUBPIXEL_VARIANTS_Y, 1);
}

#[test]
fn point_and_size_constructors() {
    let p = point(1.0_f32, 2.0_f32);
    assert_eq!(p.x, 1.0);
    assert_eq!(p.y, 2.0);

    let s = size(3u32, 4u32);
    assert_eq!(s.width, 3);
    assert_eq!(s.height, 4);
}

#[test]
fn device_pixels_from_i32() {
    let dp: DevicePixels = 42.into();
    assert_eq!(dp.0, 42);
}

#[test]
fn invalid_tag_error_names_the_first_bad_tag() {
    let features = FontFeatures(vec![("liga".to_string(), 1), ("ab".to_string(), 0), ("kerning".to_string(), 1)]);
    assert_eq!(validate_font_features(&features), Err(FontFeatureError::InvalidTag("ab".to_string())));
    // Four bytes are not enough: they must be ASCII.
    let accented = FontFeatures(vec![("éé".to_string(), 1)]);
    assert_eq!(validate_font_features(&accented), Err(FontFeatureError::InvalidTag("éé".to_string())));
    let euro = FontFeatures(vec![("a€".to_string(), 1)]);
    assert!(validate_font_features(&euro).is_err());
    let four_ascii = FontFeatures(vec![("kern".to_string(), 0), ("ss01".to_string(), 1)]);
    assert!(validate_font_features(&four_ascii).is_ok());
}

#[test]
fn font_weights_follow_css() {
    assert_eq!(FontWeight::thin().0, 100);
    assert_eq!(FontWeight::extra_light().0, 200);
    assert_eq!(FontWeight::light().0, 300);
    assert_eq!(FontWeight::medium().0, 500);
    assert_eq!(FontWeight::semi_bold().0, 600);
    assert_eq!(FontWeight::extra_bold().0, 800);
    assert_eq!(FontWeight::black().0, 900);
    assert_eq!(FontWeight::default().0, 400);
}

#[test]
fn default_font_is_sans_serif_regular() {
    let f = Font::default();
    assert_eq!(f.family, "sans-serif");
    assert_eq!(f.weight.0, 400);
    assert_eq!(f.style, FontStyle::Normal);
    assert!(f.features.0.is_empty());
}

#[test]
fn best_match_prefers_slant_then_weight() {
    let bold_italic = Font { family: "x".to_string(), weight: FontWeight::bold(), style: FontStyle::Italic, features: FontFeatures::default() };
    let faces = [
        Some(FaceStyle { weight: 700, italic: false }),
        Some(FaceStyle { weight: 400, italic: true }),
        None,
        Some(FaceStyle { weight: 600, italic: true }),
    ];
    assert_eq!(find_best_match(&bold_italic, &faces), Ok(3));
    let regular = Font::default();
    assert_eq!(find_best_match(&regular, &faces), Ok(0));
    assert!(find_best_match(&regular, &[]).is_err());
    assert_eq!(find_best_match(&regular, &[None, None]), Ok(0));
    assert_eq!(find_best_match(&bold_italic, &[None]), Ok(0));
}

#[test]
fn best_match_keeps_the_first_of_equal_scores() {
    let font = Font { weight: FontWeight(500), ..Font::default() };
    let faces = [Some(FaceStyle { weight: 400, italic: false }), Some(FaceStyle { weight: 600, italic: false })];
    assert_eq!(find_best_match(&font, &faces), Ok(0));
}

#[test]
fn faces_without_m_are_dropped_unless_icons() {
    assert!(face_is_usable(42, "Roboto-Regular"));
    assert!(!face_is_usable(0, "Roboto-Regular"));
    assert!(face_is_usable(0, "SegoeFluentIcons"));
}

#[test]
fn glyph_zero_is_missing() {
    assert_eq!(glyph_from_charmap(0), None);
    assert_eq!(glyph_from_charmap(36), Some(GlyphId(36)));
}

#[test]
fn raster_bounds_put_the_bitmap_above_the_baseline() {
    let b = raster_bounds_from_placement(-2, 10, 8, 12);
    assert_eq!(b.origin.x, DevicePixels(-2));
    assert_eq!(b.origin.y, DevicePixels(-10));
    assert_eq!(b.size.width, DevicePixels(8));
    assert_eq!(b.size.height, DevicePixels(12));
}

#[test]
fn empty_glyph_bounds_are_refused() {
    let ok = Bounds { origin: Point { x: DevicePixels(0), y: DevicePixels(0) }, size: Size { width: DevicePixels(3), height: DevicePixels(4) } };
    assert!(check_glyph_bounds(ok).is_ok());
    let flat = Bounds { size: Size { width: DevicePixels(3), height: DevicePixels(0) }, ..ok };
    assert!(check_glyph_bounds(flat).is_err());
}

#[test]
fn swap_red_blue_swaps_whole_pixels_only() {
    let mut data = vec![1u8, 2, 3, 4, 5, 6, 7, 8, 9, 10];
    swap_red_blue(&mut data);
    assert_eq!(data, vec![3, 2, 1, 4, 7, 6, 5, 8, 9, 10]);
    swap_red_blue(&mut data);
    assert_eq!(data, vec![1, 2, 3, 4, 5, 6, 7, 8, 9, 10]);
}

#[test]
fn glyph_images_convert_by_content() {
    let b = Bounds { origin: Point { x: DevicePixels(1), y: DevicePixels(2) }, size: Size { width: DevicePixels(1), height: DevicePixels(1) } };
    let (sz, mask) = finish_glyph_image(b, GlyphContent::Mask, vec![9u8, 8, 7, 6]);
    assert_eq!(sz, b.size);
    assert_eq!(mask, vec![9, 8, 7, 6]);
    let (_, color) = finish_glyph_image(b, GlyphContent::Color, vec![9u8, 8, 7, 6]);
    assert_eq!(color, vec![7, 8, 9, 6]);
}

#[test]
fn find_best_match_empty_candidates_errors() {
    let font = Font::default();
    let result = find_best_match(&font, &[]);
    assert!(result.is_err());
}

#[test]
fn font_runs_cover_consecutive_byte_ranges() {
    let runs = [FontRun { font_id: FontId(0), len: 3 }, FontRun { font_id: FontId(1), len: 0 }, FontRun { font_id: FontId(0), len: 5 }];
    assert_eq!(run_byte_ranges(&runs), vec![(0, 3), (3, 3), (3, 8)]);
    assert!(run_byte_ranges(&[]).is_empty());
}

#[test]
fn glyphs_group_into_runs_of_one_font() {
    let g = |font: usize, glyph_id: u16, index: usize, is_emoji: bool| {
        Some(PlacedGlyph { font_id: FontId(font), glyph_id, index, is_emoji })
    };
    let glyphs = [
        g(0, 10, 0, false),
        g(0, 11, 1, false),
        None,
        g(2, 3, 2, true),
        g(2, 40, 2, true),
        g(0, 3, 6, false),
        g(1, 12, 7, false),
    ];
    assert_eq!(
        group_glyph_runs(&glyphs),
        vec![
            GlyphRun { font_id: FontId(0), glyphs: vec![0, 1] },
            GlyphRun { font_id: FontId(2), glyphs: vec![4] },
            GlyphRun { font_id: FontId(0), glyphs: vec![5] },
            GlyphRun { font_id: FontId(1), glyphs: vec![6] },
        ]
    );
    assert!(group_glyph_runs(&[]).is_empty());
    assert!(group_glyph_runs(&[None, g(5, 3, 0, true)]).is_empty());
}
