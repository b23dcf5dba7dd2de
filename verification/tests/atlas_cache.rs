use gpui_mobile::atlas::{
    bytes_per_pixel, format_for_kind, AtlasKey, AtlasState, AtlasTextureFormat, AtlasTextureId, AtlasTextureKind,
};
use gpui_mobile::geometry::{DevicePixels, Size};

fn sz(w: i32, h: i32) -> Size<DevicePixels> {
    Size { width: DevicePixels(w), height: DevicePixels(h) }
}

#[test]
fn unreferenced_after_decrement() {
    let mut count: u32 = 1;
    count = count.saturating_sub(1);
    assert_eq!(count, 0, "should be unreferenced after decrement");
}

#[test]
fn atlas_key_equality() {
    let k1 = AtlasKey(42);
    let k2 = AtlasKey(42);
    let k3 = AtlasKey(99);
    assert_eq!(k1, k2);
    assert_ne!(k1, k3);
}

#[test]
fn formats_and_pixel_sizes() {
    assert_eq!(bytes_per_pixel(AtlasTextureFormat::R8Unorm), 1);
    assert_eq!(bytes_per_pixel(AtlasTextureFormat::Rgba8Unorm), 4);
    assert_eq!(bytes_per_pixel(AtlasTextureFormat::Bgra8Unorm), 4);
    assert_eq!(bytes_per_pixel(AtlasTextureFormat::Other), 4);
    assert_eq!(format_for_kind(AtlasTextureKind::Monochrome), AtlasTextureFormat::R8Unorm);
    assert_eq!(format_for_kind(AtlasTextureKind::Subpixel), AtlasTextureFormat::Rgba8Unorm);
    assert_eq!(format_for_kind(AtlasTextureKind::Polychrome), AtlasTextureFormat::Rgba8Unorm);
}

#[test]
fn insert_then_get_returns_the_cached_tile() {
    let mut atlas = AtlasState::new(4096);
    let key = AtlasKey(7);
    assert_eq!(atlas.get(&key), None);
    let first = atlas.get_or_insert(&key, AtlasTextureKind::Monochrome, sz(10, 12), vec![1u8; 120]);
    let tile = first.tile.expect("a 10x12 tile fits");
    assert_eq!(tile.bounds.size, sz(10, 12));
    assert_eq!(tile.texture_id.kind, AtlasTextureKind::Monochrome);
    assert_eq!(tile.padding, 0);
    let nt = first.new_texture.expect("the first tile opens a texture");
    assert_eq!(nt.id, tile.texture_id);
    assert_eq!(nt.format, AtlasTextureFormat::R8Unorm);
    assert_eq!((nt.width, nt.height), (1024, 1024));
    assert_eq!(atlas.get(&key), Some(tile));

    let again = atlas.get_or_insert(&key, AtlasTextureKind::Polychrome, sz(99, 99), vec![]);
    assert_eq!(again.tile, Some(tile));
    assert_eq!(again.new_texture, None);
    assert_eq!(atlas.texture_counts(), (1, 0, 0));
}

#[test]
fn tiles_share_a_texture_and_free_it_with_the_last_one() {
    let mut atlas = AtlasState::new(4096);
    let a = atlas.get_or_insert(&AtlasKey(1), AtlasTextureKind::Subpixel, sz(16, 16), vec![0u8; 1024]);
    let b = atlas.get_or_insert(&AtlasKey(2), AtlasTextureKind::Subpixel, sz(16, 16), vec![0u8; 1024]);
    let ta = a.tile.unwrap();
    let tb = b.tile.unwrap();
    assert_eq!(ta.texture_id, tb.texture_id);
    assert!(b.new_texture.is_none());
    assert_ne!(ta.bounds.origin, tb.bounds.origin);
    assert_eq!(atlas.texture_counts(), (0, 1, 0));

    assert_eq!(atlas.remove(&AtlasKey(1)), None);
    assert!(atlas.is_texture_live(ta.texture_id));
    assert_eq!(atlas.get(&AtlasKey(1)), None);
    assert_eq!(atlas.get(&AtlasKey(2)), Some(tb));
    assert_eq!(atlas.remove(&AtlasKey(2)), Some(ta.texture_id));
    assert!(!atlas.is_texture_live(ta.texture_id));
    assert_eq!(atlas.texture_counts(), (0, 0, 0));
    assert_eq!(atlas.remove(&AtlasKey(2)), None);

    // The freed slot is used again for the next texture of the kind.
    let c = atlas.get_or_insert(&AtlasKey(3), AtlasTextureKind::Subpixel, sz(4, 4), vec![0u8; 64]);
    assert_eq!(c.new_texture.map(|n| n.id), Some(ta.texture_id));
}

#[test]
fn oversized_and_empty_tiles_are_refused() {
    // A tile that no texture holds still opens a texture slot (sized for
    // the request within the limits), as the renderer's atlas does.
    let mut atlas = AtlasState::new(2048);
    let too_wide = atlas.get_or_insert(&AtlasKey(1), AtlasTextureKind::Polychrome, sz(2049, 10), vec![]);
    assert_eq!(too_wide.tile, None);
    let first = too_wide.new_texture.unwrap();
    assert_eq!((first.id.index, first.width, first.height), (0, 2048, 1024));
    let empty = atlas.get_or_insert(&AtlasKey(2), AtlasTextureKind::Polychrome, sz(0, 10), vec![]);
    assert_eq!(empty.tile, None);
    let second = empty.new_texture.unwrap();
    assert_eq!((second.id.index, second.width, second.height), (1, 1024, 1024));
    assert_eq!(atlas.get(&AtlasKey(1)), None);
    assert_eq!(atlas.get(&AtlasKey(2)), None);
    let big = atlas.get_or_insert(&AtlasKey(3), AtlasTextureKind::Polychrome, sz(1500, 10), vec![]);
    assert_eq!(big.new_texture, None);
    assert_eq!(big.tile.unwrap().texture_id, first.id);
    assert_eq!(atlas.texture_info(first.id), (AtlasTextureFormat::Rgba8Unorm, 2048, 1024));
    assert_eq!(atlas.texture_counts(), (0, 0, 2));
}

#[test]
fn device_limit_is_capped() {
    let mut atlas = AtlasState::new(u32::MAX);
    let r = atlas.get_or_insert(&AtlasKey(1), AtlasTextureKind::Monochrome, sz(65473, 1), vec![]);
    assert_eq!(r.tile, None);
    assert_eq!(r.new_texture.map(|n| (n.width, n.height)), Some((65472, 1024)));
    let r = atlas.get_or_insert(&AtlasKey(2), AtlasTextureKind::Monochrome, sz(65472, 1), vec![]);
    assert!(r.tile.is_some());
    assert_eq!(r.new_texture, None);
}

#[test]
fn uploads_are_flushed_in_order_as_writes() {
    let mut atlas = AtlasState::new(4096);
    let a = atlas.get_or_insert(&AtlasKey(1), AtlasTextureKind::Monochrome, sz(3, 2), vec![1u8, 2, 3, 4, 5, 6]);
    let b = atlas.get_or_insert(&AtlasKey(2), AtlasTextureKind::Polychrome, sz(1, 1), vec![9u8, 9, 9, 9]);
    let _c = atlas.get_or_insert(&AtlasKey(3), AtlasTextureKind::Polychrome, sz(1, 1), vec![]);
    let writes = atlas.take_uploads();
    assert_eq!(writes.len(), 2);
    let ta = a.tile.unwrap();
    assert_eq!(writes[0].id, ta.texture_id);
    assert_eq!((writes[0].x as i32, writes[0].y as i32), (ta.bounds.origin.x.0, ta.bounds.origin.y.0));
    assert_eq!((writes[0].width, writes[0].height, writes[0].bytes_per_row), (3, 2, 3));
    assert_eq!(writes[0].data, vec![1u8, 2, 3, 4, 5, 6]);
    assert_eq!(writes[1].id, b.tile.unwrap().texture_id);
    assert_eq!(writes[1].bytes_per_row, 4);
    assert!(atlas.take_uploads().is_empty());
    assert_eq!(atlas.get(&AtlasKey(1)), Some(ta));
}

#[test]
fn invalidate_forgets_tiles_but_keeps_textures() {
    let mut atlas = AtlasState::new(4096);
    let a = atlas.get_or_insert(&AtlasKey(1), AtlasTextureKind::Monochrome, sz(8, 8), vec![0u8; 64]);
    let id: AtlasTextureId = a.tile.unwrap().texture_id;
    atlas.invalidate();
    assert_eq!(atlas.get(&AtlasKey(1)), None);
    assert!(atlas.take_uploads().is_empty());
    assert!(atlas.is_texture_live(id));
    assert_eq!(atlas.texture_counts(), (1, 0, 0));
    let again = atlas.get_or_insert(&AtlasKey(1), AtlasTextureKind::Monochrome, sz(8, 8), vec![0u8; 64]);
    assert_eq!(again.new_texture, None);
    assert_eq!(again.tile.unwrap().texture_id, id);
}

#[test]
fn bytes_per_pixel_correct() {
    assert_eq!(bytes_per_pixel(AtlasTextureFormat::R8Unorm), 1);
    assert_eq!(bytes_per_pixel(AtlasTextureFormat::Rgba8Unorm), 4);
    assert_eq!(bytes_per_pixel(AtlasTextureFormat::Bgra8Unorm), 4);
}

#[test]
fn bytes_per_pixel_fallback() {
    assert_eq!(bytes_per_pixel(AtlasTextureFormat::Other), 4);
}

#[test]
fn texture_list_starts_empty() {
    let atlas = AtlasState::new(4096);
    assert_eq!(atlas.texture_counts(), (0, 0, 0));
}

#[test]
fn storage_index_kind() {
    let atlas = AtlasState::new(4096);
    for kind in [AtlasTextureKind::Monochrome, AtlasTextureKind::Subpixel, AtlasTextureKind::Polychrome] {
        assert!(!atlas.is_texture_live(AtlasTextureId { index: 0, kind }));
    }
}

#[test]
fn pending_uploads_start_empty() {
    let mut atlas = AtlasState::new(4096);
    assert!(atlas.take_uploads().is_empty());
}

#[test]
fn textures_are_tried_newest_first_and_freed_slots_reused() {
    let mut atlas = AtlasState::new(1024);
    let kind = AtlasTextureKind::Polychrome;
    let full = atlas.get_or_insert(&AtlasKey(1), kind, sz(1024, 1024), vec![]);
    assert_eq!(full.tile.unwrap().texture_id.index, 0);
    let a = atlas.get_or_insert(&AtlasKey(2), kind, sz(10, 10), vec![]);
    assert_eq!(a.new_texture.unwrap().id.index, 1);
    assert_eq!(a.tile.unwrap().texture_id.index, 1);
    let b = atlas.get_or_insert(&AtlasKey(3), kind, sz(10, 10), vec![]);
    assert_eq!(b.new_texture, None);
    assert_eq!(b.tile.unwrap().texture_id.index, 1);
    assert_eq!(atlas.remove(&AtlasKey(1)), Some(AtlasTextureId { index: 0, kind }));
    let c = atlas.get_or_insert(&AtlasKey(4), kind, sz(1024, 1024), vec![]);
    assert_eq!(c.new_texture.unwrap().id, AtlasTextureId { index: 0, kind });
    assert_eq!(c.tile.unwrap().texture_id.index, 0);
    assert_eq!(atlas.texture_counts(), (0, 0, 2));
}

#[test]
fn largest_texture_takes_a_full_size_tile() {
    let mut atlas = AtlasState::new(46340);
    let r = atlas.get_or_insert(&AtlasKey(1), AtlasTextureKind::Polychrome, sz(46340, 46340), vec![]);
    assert_eq!(r.tile.map(|t| t.bounds.size), Some(sz(46340, 46340)));
    assert_eq!(r.new_texture.map(|n| (n.width, n.height)), Some((46340, 46340)));
}

#[test]
fn tile_area_limit_follows_the_allocator_total() {
    let mut atlas = AtlasState::new(u32::MAX);
    assert!(atlas.tile_area_fits(sz(65472, 1)));
    assert!(atlas.tile_area_fits(sz(65472, 32800)));
    assert!(!atlas.tile_area_fits(sz(65472, 32801)));
    assert!(!atlas.tile_area_fits(sz(50000, 50000)));
    let r = atlas.get_or_insert(&AtlasKey(1), AtlasTextureKind::Monochrome, sz(65472, 32800), vec![]);
    assert_eq!(r.tile.map(|t| t.bounds.size), Some(sz(65472, 32800)));
    assert_eq!(r.new_texture.map(|n| (n.width, n.height)), Some((65472, 32800)));
}
