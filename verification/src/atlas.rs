//! Texture-atlas bookkeeping for the Android renderer.
//!
//! The atlas is a set of GPU textures per kind (monochrome glyph masks,
//! subpixel masks, colour images).  Tiles are carved out of a texture with an
//! `etagere` shelf allocator; a texture is reused or created when none has
//! room.  Each texture counts the cached tiles that point into it and gives
//! its slot back once that count reaches zero.  Uploads are queued and handed
//! out in one batch at the start of a frame.
//!
//! This module holds the decisions and the state; the GPU objects that go
//! with each texture slot live with the caller, which creates one for every
//! [`NewTexture`] reported here and writes every [`TextureWrite`] handed out
//! by [`AtlasState::take_uploads`].

use vstd::prelude::*;
use std::collections::HashMap;
use etagere::BucketedAtlasAllocator;
use crate::etagere_alloc::{allocate_rect, allocation, allocator_extent, allocator_items, fresh_allocator, new_allocator};
use crate::geometry::{Bounds, DevicePixels, Point, Size};

verus! {

broadcast use vstd::std_specs::hash::group_hash_axioms;

/// Opaque key that identifies a cached atlas entry.
#[derive(Clone, Debug, PartialEq, Eq, Hash)]
pub struct AtlasKey(pub u64);

/// Which texture "layer" an atlas entry lives in.
#[derive(Copy, Clone, Debug, PartialEq, Eq, Hash)]
pub enum AtlasTextureKind {
    Monochrome,
    Subpixel,
    Polychrome,
}

/// Identifies a specific atlas texture within a kind.
#[derive(Copy, Clone, Debug, PartialEq, Eq, Hash)]
pub struct AtlasTextureId {
    pub index: u32,
    pub kind: AtlasTextureKind,
}

/// A successfully allocated tile inside the atlas.
#[derive(Copy, Clone, Debug, PartialEq)]
pub struct AtlasTile {
    pub texture_id: AtlasTextureId,
    pub tile_id: u32,
    pub padding: u8,
    pub bounds: Bounds<DevicePixels>,
}

/// Pixel formats of atlas textures (and the few others the upload path
/// knows the pixel size of).
#[derive(Copy, Clone, Debug, PartialEq, Eq)]
pub enum AtlasTextureFormat {
    R8Unorm,
    Rgba8Unorm,
    Bgra8Unorm,
    Rgba8UnormSrgb,
    Bgra8UnormSrgb,
    /// Any other format.
    Other,
}

/// Bytes per pixel of a format: 1 for single-channel, 4 otherwise.
pub open spec fn spec_bytes_per_pixel(format: AtlasTextureFormat) -> u8 {
    match format {
        AtlasTextureFormat::R8Unorm => 1,
        _ => 4,
    }
}

/// Bytes per pixel of `format`; unknown formats count as 4.
pub fn bytes_per_pixel(format: AtlasTextureFormat) -> (b: u8)
    ensures
        b == spec_bytes_per_pixel(format),
{
    match format {
        AtlasTextureFormat::R8Unorm => 1,
        AtlasTextureFormat::Rgba8Unorm
        | AtlasTextureFormat::Bgra8Unorm
        | AtlasTextureFormat::Rgba8UnormSrgb
        | AtlasTextureFormat::Bgra8UnormSrgb => 4,
        _ => 4,
    }
}

/// The texture format used for a kind: single-channel masks for
/// monochrome glyphs, RGBA for subpixel masks and colour images.
pub open spec fn spec_format_for_kind(kind: AtlasTextureKind) -> AtlasTextureFormat {
    match kind {
        AtlasTextureKind::Monochrome => AtlasTextureFormat::R8Unorm,
        AtlasTextureKind::Subpixel => AtlasTextureFormat::Rgba8Unorm,
        AtlasTextureKind::Polychrome => AtlasTextureFormat::Rgba8Unorm,
    }
}

/// The texture format used for `kind`.
pub fn format_for_kind(kind: AtlasTextureKind) -> (f: AtlasTextureFormat)
    ensures
        f == spec_format_for_kind(kind),
{
    match kind {
        AtlasTextureKind::Monochrome => AtlasTextureFormat::R8Unorm,
        AtlasTextureKind::Subpixel => AtlasTextureFormat::Rgba8Unorm,
        AtlasTextureKind::Polychrome => AtlasTextureFormat::Rgba8Unorm,
    }
}

/// Default side of a new atlas texture.
pub const DEFAULT_ATLAS_SIZE: u32 = 1024;

/// The largest texture side the atlas accepts from the device: the shelf
/// allocator rounds shelf heights up in `u16`, which stays in range up to
/// this side.
pub const MAX_ATLAS_SIDE: u32 = 65472;

/// Side of a texture created for a request of side `requested`: at least the
/// default size, at most the device limit.
pub open spec fn texture_side(requested: i32, max: u32) -> u32 {
    let r = requested as u32;
    let at_least = if r > DEFAULT_ATLAS_SIZE { r } else { DEFAULT_ATLAS_SIZE };
    if at_least < max { at_least } else { max }
}

/// The texture that a request of `size` would open has an area within
/// `i32::MAX`: the shelf allocator adds each tile's area to an `i32` total.
/// A request inside the device limit breaks this only when its own area is
/// above `i32::MAX`, and such a tile's area would overflow that total.
pub open spec fn texture_area_fits(size: Size<DevicePixels>, max: u32) -> bool {
    (texture_side(size.width.0, max) as int) * (texture_side(size.height.0, max) as int) <= i32::MAX
}

fn compute_texture_side(requested: i32, max: u32) -> (s: u32)
    ensures
        s == texture_side(requested, max),
{
    let r = requested as u32;
    let at_least = if r > DEFAULT_ATLAS_SIZE { r } else { DEFAULT_ATLAS_SIZE };
    if at_least < max { at_least } else { max }
}

/// A texture that the caller must create for a freshly used slot.
#[derive(Copy, Clone, Debug, PartialEq, Eq)]
pub struct NewTexture {
    pub id: AtlasTextureId,
    pub format: AtlasTextureFormat,
    pub width: u32,
    pub height: u32,
}

/// A queued upload.
pub struct PendingUpload {
    pub id: AtlasTextureId,
    pub bounds: Bounds<DevicePixels>,
    pub data: Vec<u8>,
}

/// One texture write of a flushed batch.
pub struct TextureWrite {
    pub id: AtlasTextureId,
    pub x: u32,
    pub y: u32,
    pub width: u32,
    pub height: u32,
    pub bytes_per_row: u32,
    pub data: Vec<u8>,
}

/// One atlas texture page (its allocator and reference count).
pub(crate) struct AtlasTexture {
    pub(crate) id: AtlasTextureId,
    pub(crate) allocator: BucketedAtlasAllocator,
    pub(crate) format: AtlasTextureFormat,
    pub(crate) width: u32,
    pub(crate) height: u32,
    /// Number of cached tiles pointing into this texture.
    pub(crate) live_atlas_keys: u32,
}

/// `true` when a tile's rectangle lies inside a `width` × `height` texture.
pub open spec fn tile_inside(t: AtlasTile, width: u32, height: u32) -> bool {
    &&& 0 < t.bounds.size.width.0 && 0 < t.bounds.size.height.0
    &&& 0 <= t.bounds.origin.x.0 && 0 <= t.bounds.origin.y.0
    &&& t.bounds.origin.x.0 + t.bounds.size.width.0 <= width
    &&& t.bounds.origin.y.0 + t.bounds.size.height.0 <= height
}

/// The tile that allocation result `a` gives in texture `id` for `size`.
pub open spec fn tile_of(id: AtlasTextureId, a: Option<(u32, i32, i32, i32, i32)>, size: Size<DevicePixels>) -> Option<AtlasTile> {
    match a {
        None => None,
        Some((tile_id, x0, y0, _x1, _y1)) => Some(
            AtlasTile {
                texture_id: id,
                tile_id,
                padding: 0,
                bounds: Bounds { origin: Point { x: DevicePixels(x0), y: DevicePixels(y0) }, size },
            },
        ),
    }
}

/// The tile that a fresh (empty) `width` × `height` texture `id` gives for
/// `size`.
pub open spec fn fresh_offer(id: AtlasTextureId, width: u32, height: u32, size: Size<DevicePixels>) -> Option<AtlasTile> {
    tile_of(id, allocation(fresh_allocator(width as i32, height as i32), size.width.0, size.height.0), size)
}

impl AtlasTexture {
    /// The tile this texture gives for `size`: none once its count is
    /// saturated, otherwise what its allocator gives.
    pub(crate) open spec fn offer(self, size: Size<DevicePixels>) -> Option<AtlasTile> {
        if self.live_atlas_keys == u32::MAX {
            None
        } else {
            tile_of(self.id, allocation(self.allocator, size.width.0, size.height.0), size)
        }
    }

    /// The texture sits in slot `index` of the `kind` list.
    pub(crate) open spec fn wf_at(self, index: int, kind: AtlasTextureKind, max: u32) -> bool {
        &&& self.id.index == index
        &&& self.id.kind == kind
        &&& self.format == spec_format_for_kind(kind)
        &&& self.width <= max
        &&& self.height <= max
        &&& max <= MAX_ATLAS_SIDE
        &&& (self.width as int) * (self.height as int) <= i32::MAX
        &&& allocator_extent(self.allocator) == (self.width as int, self.height as int)
    }

    /// Same identity, size and count (the allocator may have moved on).
    pub(crate) open spec fn same_shape(self, other: AtlasTexture) -> bool {
        &&& self.id == other.id
        &&& self.format == other.format
        &&& self.width == other.width
        &&& self.height == other.height
        &&& self.live_atlas_keys == other.live_atlas_keys
        &&& allocator_extent(self.allocator) == allocator_extent(other.allocator)
    }

    /// Try to carve out a `size`-pixel region.  A texture whose count is
    /// already `u32::MAX` counts as full.
    fn allocate(&mut self, size: Size<DevicePixels>) -> (r: Option<AtlasTile>)
        requires
            old(self).width <= MAX_ATLAS_SIDE,
            old(self).height <= MAX_ATLAS_SIDE,
            (old(self).width as int) * (old(self).height as int) <= i32::MAX,
            allocator_extent(old(self).allocator) == (old(self).width as int, old(self).height as int),
        ensures
            r == old(self).offer(size),
            r is None ==> *final(self) == *old(self),
            final(self).id == old(self).id,
            final(self).format == old(self).format,
            final(self).width == old(self).width,
            final(self).height == old(self).height,
            allocator_extent(final(self).allocator) == allocator_extent(old(self).allocator),
            r is None ==> final(self).live_atlas_keys == old(self).live_atlas_keys,
            r matches Some(t) ==> {
                &&& final(self).live_atlas_keys == old(self).live_atlas_keys + 1
                &&& t.texture_id == old(self).id
                &&& t.padding == 0
                &&& t.bounds.size == size
                &&& tile_inside(t, old(self).width, old(self).height)
            },
            (size.width.0 <= 0 || size.height.0 <= 0 || size.width.0 > old(self).width
                || size.height.0 > old(self).height) ==> r is None,
            (allocator_items(old(self).allocator).is_empty() && old(self).live_atlas_keys < u32::MAX
                && 0 < size.width.0 <= old(self).width && 0 < size.height.0 <= old(self).height)
                ==> r is Some,
    {
        if self.live_atlas_keys == u32::MAX {
            return None;
        }
        match allocate_rect(&mut self.allocator, size.width.0, size.height.0) {
            None => None,
            Some((id, x0, y0, _x1, _y1)) => {
                self.live_atlas_keys = self.live_atlas_keys + 1;
                Some(AtlasTile {
                    texture_id: self.id,
                    tile_id: id,
                    padding: 0,
                    bounds: Bounds {
                        origin: Point { x: DevicePixels(x0), y: DevicePixels(y0) },
                        size,
                    },
                })
            },
        }
    }
}


/// Per-kind storage for atlas textures.
pub(crate) struct AtlasTextureList {
    pub(crate) textures: Vec<Option<AtlasTexture>>,
    /// Indices of slots in `textures` that have been freed and may be reused.
    pub(crate) free_list: Vec<usize>,
}

proof fn lemma_pop_no_dup(s: Seq<usize>)
    requires
        s.no_duplicates(),
        s.len() > 0,
    ensures
        !s.drop_last().contains(s.last()),
        s.drop_last().no_duplicates(),
        forall|x: usize| #[trigger] s.contains(x) <==> (s.drop_last().contains(x) || x == s.last()),
{
    assert forall|x: usize| #[trigger] s.contains(x) <==> (s.drop_last().contains(x) || x == s.last()) by {
        if s.contains(x) {
            let j = choose|j: int| 0 <= j < s.len() && s[j] == x;
            if j < s.len() - 1 {
                assert(s.drop_last()[j] == x);
            }
        }
        if s.drop_last().contains(x) {
            let j = choose|j: int| 0 <= j < s.drop_last().len() && s.drop_last()[j] == x;
            assert(s[j] == x);
        }
        if x == s.last() {
            assert(s[s.len() - 1] == x);
        }
    }
}

impl AtlasTextureList {
    pub(crate) open spec fn live_at(self, i: int) -> bool {
        0 <= i < self.textures@.len() && self.textures@[i] is Some
    }

    pub(crate) open spec fn tex(self, i: int) -> AtlasTexture {
        self.textures@[i]->0
    }

    pub(crate) open spec fn wf(self, kind: AtlasTextureKind, max: u32) -> bool {
        &&& self.textures@.len() <= u32::MAX
        &&& max <= MAX_ATLAS_SIDE
        &&& self.free_list@.no_duplicates()
        &&& forall|j: int| 0 <= j < self.free_list@.len() ==> self.free_list@[j] < self.textures@.len()
        &&& forall|i: int| 0 <= i < self.textures@.len()
            ==> (self.textures@[i] is None <==> self.free_list@.contains(i as usize))
        &&& forall|i: int| #[trigger] self.live_at(i) ==> self.tex(i).wf_at(i, kind, max)
    }

    /// Every texture live in `self` is live in `new` with the same identity,
    /// format and size.
    pub(crate) open spec fn keeps(self, new: AtlasTextureList) -> bool {
        forall|i: int| #[trigger] self.live_at(i) ==> {
            &&& new.live_at(i)
            &&& new.tex(i).id == self.tex(i).id
            &&& new.tex(i).format == self.tex(i).format
            &&& new.tex(i).width == self.tex(i).width
            &&& new.tex(i).height == self.tex(i).height
        }
    }

    /// The slot a new texture takes: the most recently freed one, else a
    /// new slot at the end.
    pub(crate) open spec fn next_slot(self) -> int {
        if self.free_list@.len() > 0 { self.free_list@.last() as int } else { self.textures@.len() as int }
    }

    /// Reference count of slot `i` (zero for a free slot).
    pub(crate) open spec fn refs(self, i: int) -> int {
        if self.live_at(i) {
            self.tex(i).live_atlas_keys as int
        } else {
            0
        }
    }

    fn new() -> (l: Self)
        ensures
            l.textures@.len() == 0,
            l.free_list@.len() == 0,
    {
        AtlasTextureList { textures: Vec::new(), free_list: Vec::new() }
    }
}

fn allocate_slot(slot: &mut Option<AtlasTexture>, size: Size<DevicePixels>) -> (r: Option<AtlasTile>)
    requires
        *old(slot) matches Some(t) ==> {
            &&& t.width <= MAX_ATLAS_SIDE
            &&& t.height <= MAX_ATLAS_SIDE
            &&& (t.width as int) * (t.height as int) <= i32::MAX
            &&& allocator_extent(t.allocator) == (t.width as int, t.height as int)
        },
    ensures
        *old(slot) is None ==> r is None && *final(slot) is None,
        r is None ==> *final(slot) == *old(slot),
        *old(slot) matches Some(t0) ==> r == t0.offer(size),
        *old(slot) matches Some(t0) ==> *final(slot) matches Some(t1) && {
            &&& t1.id == t0.id
            &&& t1.format == t0.format
            &&& t1.width == t0.width
            &&& t1.height == t0.height
            &&& allocator_extent(t1.allocator) == allocator_extent(t0.allocator)
            &&& r is None ==> t1.live_atlas_keys == t0.live_atlas_keys
            &&& r matches Some(t) ==> {
                &&& t1.live_atlas_keys == t0.live_atlas_keys + 1
                &&& t.texture_id == t0.id
                &&& t.padding == 0
                &&& t.bounds.size == size
                &&& tile_inside(t, t0.width, t0.height)
            }
            &&& (size.width.0 <= 0 || size.height.0 <= 0 || size.width.0 > t0.width
                || size.height.0 > t0.height) ==> r is None
            &&& (allocator_items(t0.allocator).is_empty() && t0.live_atlas_keys < u32::MAX
                && 0 < size.width.0 <= t0.width && 0 < size.height.0 <= t0.height) ==> r is Some
        },
{
    match slot {
        Some(tex) => tex.allocate(size),
        None => None,
    }
}

/// Allocate a `size` tile among the textures of one kind: the most recently
/// created texture first, then a new (or reused) slot.
fn allocate_in(list: &mut AtlasTextureList, kind: AtlasTextureKind, max: u32, size: Size<DevicePixels>) -> (r: (Option<AtlasTile>, Option<NewTexture>))
    requires
        old(list).wf(kind, max),
        texture_area_fits(size, max),
    ensures
        final(list).wf(kind, max),
        old(list).keeps(*final(list)),
        forall|i: int| #[trigger] final(list).live_at(i) && !old(list).live_at(i)
            ==> (r.1 matches Some(nt) && nt.id.index == i),
        r.1 matches Some(nt) ==> {
            &&& nt.id.kind == kind
            &&& !old(list).live_at(nt.id.index as int)
            &&& final(list).live_at(nt.id.index as int)
            &&& final(list).tex(nt.id.index as int).width == nt.width
            &&& final(list).tex(nt.id.index as int).height == nt.height
            &&& nt.format == spec_format_for_kind(kind)
            &&& nt.width == texture_side(size.width.0, max)
            &&& nt.height == texture_side(size.height.0, max)
            &&& nt.id.index == old(list).next_slot()
        },
        r.0 is None ==> forall|i: int| #[trigger] final(list).refs(i) == old(list).refs(i),
        r.0 matches Some(t) ==> {
            &&& t.texture_id.kind == kind
            &&& t.padding == 0
            &&& t.bounds.size == size
            &&& final(list).live_at(t.texture_id.index as int)
            &&& tile_inside(t, final(list).tex(t.texture_id.index as int).width,
                final(list).tex(t.texture_id.index as int).height)
            &&& final(list).refs(t.texture_id.index as int) == old(list).refs(t.texture_id.index as int) + 1
            &&& forall|i: int| i != t.texture_id.index ==> #[trigger] final(list).refs(i) == old(list).refs(i)
        },
        !(0 < size.width.0 <= max && 0 < size.height.0 <= max) ==> r.0 is None,
        (0 < size.width.0 <= max && 0 < size.height.0 <= max
            && (old(list).free_list@.len() > 0 || old(list).textures@.len() < u32::MAX)) ==> r.0 is Some,
        r.1 is None ==> (r.0 matches Some(t) ==> {
            &&& old(list).live_at(t.texture_id.index as int)
            &&& r.0 == old(list).tex(t.texture_id.index as int).offer(size)
            &&& forall|j: int| t.texture_id.index < j && #[trigger] old(list).live_at(j)
                ==> old(list).tex(j).offer(size) is None
        }),
        r.1 is Some || r.0 is None ==> forall|j: int| #[trigger] old(list).live_at(j) ==> old(list).tex(j).offer(size) is None,
        r.1 matches Some(nt) ==> r.0 == fresh_offer(nt.id, nt.width, nt.height, size),
{
    let n = list.textures.len();
    let mut i = n;
    while i > 0
        invariant
            i <= n,
            n == list.textures@.len(),
            n == old(list).textures@.len(),
            list.free_list@ == old(list).free_list@,
            old(list).wf(kind, max),
            forall|j: int| 0 <= j < n ==> (list.textures@[j] is Some <==> old(list).textures@[j] is Some),
            forall|j: int| #[trigger] list.live_at(j) ==> list.tex(j).same_shape(old(list).tex(j)),
            list.textures@ == old(list).textures@,
            forall|j: int| i <= j && #[trigger] old(list).live_at(j) ==> old(list).tex(j).offer(size) is None,
        decreases i,
    {
        i = i - 1;
        let ghost before = *list;
        assert(old(list).live_at(i as int) == before.live_at(i as int));
        assert(before.live_at(i as int) ==> before.tex(i as int).same_shape(old(list).tex(i as int)));
        let got = allocate_slot(&mut list.textures[i], size);
        assert(forall|j: int| 0 <= j < n && j != i ==> list.textures@[j] == before.textures@[j]);
        match got {
            Some(tile) => {
                proof {
                    assert(list.live_at(i as int));
                    assert(before.live_at(i as int));
                    assert(old(list).live_at(i as int));
                    assert forall|j: int| #[trigger] list.live_at(j) implies list.tex(j).wf_at(j, kind, max) by {
                        assert(before.live_at(j));
                        assert(old(list).live_at(j));
                        assert(before.tex(j).same_shape(old(list).tex(j)));
                    }
                    assert forall|j: int| 0 <= j < list.textures@.len() implies
                        (list.textures@[j] is None <==> list.free_list@.contains(j as usize)) by {
                        assert(old(list).textures@[j] is None <==> old(list).free_list@.contains(j as usize));
                    }
                    assert forall|j: int| j != tile.texture_id.index implies #[trigger] list.refs(j) == old(list).refs(j) by {
                        if list.live_at(j) {
                            assert(before.live_at(j));
                            assert(before.tex(j).same_shape(old(list).tex(j)));
                        }
                    }
                    assert forall|j: int| #[trigger] old(list).live_at(j) implies {
                        &&& list.live_at(j)
                        &&& list.tex(j).id == old(list).tex(j).id
                        &&& list.tex(j).format == old(list).tex(j).format
                        &&& list.tex(j).width == old(list).tex(j).width
                        &&& list.tex(j).height == old(list).tex(j).height
                    } by {
                        assert(before.live_at(j));
                        assert(before.tex(j).same_shape(old(list).tex(j)));
                    }
                }
                return (Some(tile), None);
            },
            None => {
                assert(list.textures@ =~= before.textures@);
                assert forall|j: int| #[trigger] list.live_at(j) implies list.tex(j).same_shape(old(list).tex(j)) by {
                    assert(before.live_at(j));
                }
            },
        }
    }
    proof {
        assert forall|j: int| #[trigger] list.live_at(j) implies list.tex(j).wf_at(j, kind, max) by {
            assert(old(list).live_at(j));
        }
    }
    let ghost mid = *list;
    assert(forall|j: int| #[trigger] mid.refs(j) == old(list).refs(j));
    let w = compute_texture_side(size.width.0, max);
    let h = compute_texture_side(size.height.0, max);
    let format = format_for_kind(kind);
    let len = list.textures.len();
    if list.free_list.len() == 0 && len == u32::MAX as usize {
        proof {
            assert forall|j: int| #[trigger] old(list).live_at(j) implies {
                &&& list.live_at(j)
                &&& list.tex(j).id == old(list).tex(j).id
                &&& list.tex(j).format == old(list).tex(j).format
                &&& list.tex(j).width == old(list).tex(j).width
                &&& list.tex(j).height == old(list).tex(j).height
            } by {
                assert(mid.live_at(j));
                assert(mid.tex(j).same_shape(old(list).tex(j)));
            }
        }
        return (None, None);
    }
    let index: usize;
    match list.free_list.pop() {
        Some(ix) => {
            proof {
                lemma_pop_no_dup(mid.free_list@);
                assert(mid.free_list@[mid.free_list@.len() - 1] == ix);
            }
            index = ix;
        },
        None => {
            index = len;
        },
    }
    let tex = AtlasTexture {
        id: AtlasTextureId { index: index as u32, kind },
        allocator: new_allocator(w as i32, h as i32),
        format,
        width: w,
        height: h,
        live_atlas_keys: 0,
    };
    if index < len {
        list.textures.set(index, Some(tex));
    } else {
        list.textures.push(Some(tex));
    }
    let ghost placed = *list;
    proof {
        assert(placed.live_at(index as int));
        assert forall|j: int| 0 <= j < placed.textures@.len() implies
            (placed.textures@[j] is None <==> placed.free_list@.contains(j as usize)) by {
            if j != index {
                assert(mid.textures@[j] is None <==> mid.free_list@.contains(j as usize));
            }
        }
    }
    let got = allocate_slot(&mut list.textures[index], size);
    let nt = NewTexture { id: AtlasTextureId { index: index as u32, kind }, format, width: w, height: h };
    proof {
        assert(forall|j: int| 0 <= j < list.textures@.len() && j != index ==> list.textures@[j] == placed.textures@[j]);
        assert forall|j: int| #[trigger] list.live_at(j) implies list.tex(j).wf_at(j, kind, max) by {
            if j != index {
                assert(mid.live_at(j));
            }
        }
        assert forall|j: int| 0 <= j < list.textures@.len() implies
            (list.textures@[j] is None <==> list.free_list@.contains(j as usize)) by {
            assert(placed.textures@[j] is None <==> placed.free_list@.contains(j as usize));
        }
        assert forall|j: int| j != index implies #[trigger] list.refs(j) == old(list).refs(j) by {
            assert(mid.refs(j) == old(list).refs(j));
        }
        assert(old(list).refs(index as int) == 0);
        assert forall|j: int| #[trigger] old(list).live_at(j) implies {
            &&& list.live_at(j)
            &&& list.tex(j).id == old(list).tex(j).id
            &&& list.tex(j).format == old(list).tex(j).format
            &&& list.tex(j).width == old(list).tex(j).width
            &&& list.tex(j).height == old(list).tex(j).height
        } by {
            assert(mid.live_at(j));
            assert(mid.tex(j).same_shape(old(list).tex(j)));
            assert(j != index);
        }
    }
    (got, Some(nt))
}


/// The keys whose cached tile lies in texture `id`.
pub open spec fn keys_on(m: Map<u64, AtlasTile>, id: AtlasTextureId) -> Set<u64> {
    m.dom().filter(|k: u64| m[k].texture_id == id)
}

proof fn lemma_keys_on_finite(m: Map<u64, AtlasTile>, id: AtlasTextureId)
    requires
        m.dom().finite(),
    ensures
        keys_on(m, id).finite(),
{
    vstd::set_lib::lemma_set_subset_finite(m.dom(), keys_on(m, id));
}

proof fn lemma_keys_on_insert(m: Map<u64, AtlasTile>, k: u64, t: AtlasTile, id: AtlasTextureId)
    requires
        m.dom().finite(),
        !m.contains_key(k),
    ensures
        t.texture_id == id ==> keys_on(m.insert(k, t), id) == keys_on(m, id).insert(k),
        t.texture_id != id ==> keys_on(m.insert(k, t), id) == keys_on(m, id),
        t.texture_id == id ==> keys_on(m.insert(k, t), id).len() == keys_on(m, id).len() + 1,
        keys_on(m.insert(k, t), id).finite(),
{
    lemma_keys_on_finite(m, id);
    assert(t.texture_id == id ==> keys_on(m.insert(k, t), id) =~= keys_on(m, id).insert(k));
    assert(t.texture_id != id ==> keys_on(m.insert(k, t), id) =~= keys_on(m, id));
}

proof fn lemma_keys_on_remove(m: Map<u64, AtlasTile>, k: u64, id: AtlasTextureId)
    requires
        m.dom().finite(),
        m.contains_key(k),
    ensures
        m[k].texture_id == id ==> keys_on(m.remove(k), id) == keys_on(m, id).remove(k),
        m[k].texture_id == id ==> keys_on(m.remove(k), id).len() + 1 == keys_on(m, id).len(),
        m[k].texture_id != id ==> keys_on(m.remove(k), id) == keys_on(m, id),
{
    lemma_keys_on_finite(m, id);
    assert(m[k].texture_id == id ==> keys_on(m.remove(k), id) =~= keys_on(m, id).remove(k));
    assert(m[k].texture_id != id ==> keys_on(m.remove(k), id) =~= keys_on(m, id));
}

/// A queued upload that the flush can hand out: inside the atlas range.
pub open spec fn upload_ok(u: PendingUpload) -> bool {
    &&& 0 <= u.bounds.origin.x.0 <= MAX_ATLAS_SIDE
    &&& 0 <= u.bounds.origin.y.0 <= MAX_ATLAS_SIDE
    &&& 0 < u.bounds.size.width.0 <= MAX_ATLAS_SIDE
    &&& 0 < u.bounds.size.height.0 <= MAX_ATLAS_SIDE
}

/// Outcome of [`AtlasState::get_or_insert`].
#[derive(Copy, Clone, Debug, PartialEq)]
pub struct AtlasInsert {
    /// The cached or newly allocated tile; `None` when no texture had room.
    pub tile: Option<AtlasTile>,
    /// A texture slot that came into use and needs a GPU texture.
    pub new_texture: Option<NewTexture>,
}

/// The atlas: per-kind texture lists, the tile cache and the upload queue.
pub struct AtlasState {
    max_texture_size: u32,
    monochrome: AtlasTextureList,
    subpixel: AtlasTextureList,
    polychrome: AtlasTextureList,
    /// Maps an atlas key to the tile that was allocated for it.
    tiles_by_key: HashMap<u64, AtlasTile>,
    /// Uploads queued since the last flush.
    pending_uploads: Vec<PendingUpload>,
}

impl AtlasState {
    spec fn list(self, kind: AtlasTextureKind) -> AtlasTextureList {
        match kind {
            AtlasTextureKind::Monochrome => self.monochrome,
            AtlasTextureKind::Subpixel => self.subpixel,
            AtlasTextureKind::Polychrome => self.polychrome,
        }
    }

    /// Texture `id` exists (its slot is in use).
    pub closed spec fn is_live(self, id: AtlasTextureId) -> bool {
        self.list(id.kind).live_at(id.index as int)
    }

    /// Width and height of texture `id`.
    pub closed spec fn texture_size(self, id: AtlasTextureId) -> (u32, u32) {
        (self.list(id.kind).tex(id.index as int).width, self.list(id.kind).tex(id.index as int).height)
    }

    /// Number of cached tiles that texture `id` counts as pointing into it.
    pub closed spec fn refs(self, id: AtlasTextureId) -> int {
        self.list(id.kind).refs(id.index as int)
    }

    /// The tile cache, by key.
    pub closed spec fn tiles(self) -> Map<u64, AtlasTile> {
        self.tiles_by_key@
    }

    /// The queued uploads, oldest first.
    pub closed spec fn pending(self) -> Seq<PendingUpload> {
        self.pending_uploads@
    }

    /// Largest texture side the atlas creates.
    pub closed spec fn max_side(self) -> u32 {
        self.max_texture_size
    }

    /// Number of texture slots of `kind` (live or free).
    pub closed spec fn slot_count(self, kind: AtlasTextureKind) -> int {
        self.list(kind).textures@.len() as int
    }

    /// Number of free slots of `kind`.
    pub closed spec fn free_count(self, kind: AtlasTextureKind) -> int {
        self.list(kind).free_list@.len() as int
    }

    /// The slot index a new texture of `kind` takes: the most recently freed
    /// slot, else the next slot after the last one.
    pub closed spec fn next_slot(self, kind: AtlasTextureKind) -> int {
        self.list(kind).next_slot()
    }

    /// The tile texture `id` gives for a `size` request: none for a free slot
    /// or a texture whose count is saturated, otherwise what its allocator
    /// gives.
    pub closed spec fn offer(self, id: AtlasTextureId, size: Size<DevicePixels>) -> Option<AtlasTile> {
        if self.is_live(id) {
            self.list(id.kind).tex(id.index as int).offer(size)
        } else {
            None
        }
    }

    /// A tile of the cache: its texture exists and holds its rectangle.
    pub closed spec fn tile_ok(self, t: AtlasTile) -> bool {
        &&& self.is_live(t.texture_id)
        &&& tile_inside(t, self.texture_size(t.texture_id).0, self.texture_size(t.texture_id).1)
    }

    /// The atlas invariant: free lists name exactly the unused slots, every
    /// cached tile lies inside a live texture, and every live texture counts
    /// exactly the cached tiles that point into it.
    pub closed spec fn wf(self) -> bool {
        &&& self.max_texture_size <= MAX_ATLAS_SIDE
        &&& self.monochrome.wf(AtlasTextureKind::Monochrome, self.max_texture_size)
        &&& self.subpixel.wf(AtlasTextureKind::Subpixel, self.max_texture_size)
        &&& self.polychrome.wf(AtlasTextureKind::Polychrome, self.max_texture_size)
        &&& self.tiles_by_key@.dom().finite()
        &&& forall|k: u64| #[trigger] self.tiles_by_key@.contains_key(k) ==> self.tile_ok(self.tiles_by_key@[k])
        &&& forall|id: AtlasTextureId| #[trigger] self.is_live(id)
            ==> self.refs(id) == keys_on(self.tiles_by_key@, id).len()
        &&& forall|j: int| 0 <= j < self.pending_uploads@.len() ==> upload_ok(#[trigger] self.pending_uploads@[j])
    }

    /// Create an empty atlas for a device whose largest texture side is
    /// `device_max_texture_size`; sides above [`MAX_ATLAS_SIDE`] are capped.
    pub fn new(device_max_texture_size: u32) -> (a: Self)
        ensures
            a.wf(),
            a.max_side() == if device_max_texture_size < MAX_ATLAS_SIDE { device_max_texture_size } else { MAX_ATLAS_SIDE },
            a.tiles() == Map::<u64, AtlasTile>::empty(),
            a.pending().len() == 0,
            forall|id: AtlasTextureId| !a.is_live(id),
            forall|kind: AtlasTextureKind| a.slot_count(kind) == 0,
    {
        let max = if device_max_texture_size < MAX_ATLAS_SIDE { device_max_texture_size } else { MAX_ATLAS_SIDE };
        let a = AtlasState {
            max_texture_size: max,
            monochrome: AtlasTextureList::new(),
            subpixel: AtlasTextureList::new(),
            polychrome: AtlasTextureList::new(),
            tiles_by_key: HashMap::new(),
            pending_uploads: Vec::new(),
        };
        assert(a.tiles_by_key@ =~= Map::<u64, AtlasTile>::empty());
        a
    }

    /// The tile cached for `key`, if any.
    pub open spec fn lookup(self, key: AtlasKey) -> Option<AtlasTile> {
        if self.tiles().contains_key(key.0) { Some(self.tiles()[key.0]) } else { None }
    }

    /// The cached tile for `key`, if any.
    pub fn get(&self, key: &AtlasKey) -> (r: Option<AtlasTile>)
        ensures
            r == self.lookup(*key),
    {
        match self.tiles_by_key.get(&key.0) {
            Some(t) => Some(*t),
            None => None,
        }
    }

    fn allocate(&mut self, size: Size<DevicePixels>, kind: AtlasTextureKind) -> (r: (Option<AtlasTile>, Option<NewTexture>))
        requires
            old(self).wf(),
            texture_area_fits(size, old(self).max_texture_size),
        ensures
            final(self).max_texture_size == old(self).max_texture_size,
            final(self).tiles_by_key == old(self).tiles_by_key,
            final(self).pending_uploads == old(self).pending_uploads,
            forall|k: AtlasTextureKind| k != kind ==> #[trigger] final(self).list(k) == old(self).list(k),
            final(self).list(kind).wf(kind, old(self).max_texture_size),
            old(self).list(kind).keeps(final(self).list(kind)),
            forall|i: int| #[trigger] final(self).list(kind).live_at(i) && !old(self).list(kind).live_at(i)
                ==> (r.1 matches Some(nt) && nt.id.index == i),
            r.1 matches Some(nt) ==> {
                &&& nt.id.kind == kind
                &&& !old(self).list(kind).live_at(nt.id.index as int)
                &&& final(self).list(kind).live_at(nt.id.index as int)
                &&& final(self).list(kind).tex(nt.id.index as int).width == nt.width
                &&& final(self).list(kind).tex(nt.id.index as int).height == nt.height
                &&& nt.format == spec_format_for_kind(kind)
                &&& nt.width == texture_side(size.width.0, old(self).max_texture_size)
                &&& nt.height == texture_side(size.height.0, old(self).max_texture_size)
                &&& nt.id.index == old(self).list(kind).next_slot()
            },
            r.0 is None ==> forall|i: int| #[trigger] final(self).list(kind).refs(i) == old(self).list(kind).refs(i),
            r.0 matches Some(t) ==> {
                &&& t.texture_id.kind == kind
                &&& t.padding == 0
                &&& t.bounds.size == size
                &&& final(self).list(kind).live_at(t.texture_id.index as int)
                &&& tile_inside(t, final(self).list(kind).tex(t.texture_id.index as int).width,
                    final(self).list(kind).tex(t.texture_id.index as int).height)
                &&& final(self).list(kind).refs(t.texture_id.index as int)
                    == old(self).list(kind).refs(t.texture_id.index as int) + 1
                &&& forall|i: int| i != t.texture_id.index
                    ==> #[trigger] final(self).list(kind).refs(i) == old(self).list(kind).refs(i)
            },
            !(0 < size.width.0 <= old(self).max_texture_size && 0 < size.height.0 <= old(self).max_texture_size)
                ==> r.0 is None,
            (0 < size.width.0 <= old(self).max_texture_size && 0 < size.height.0 <= old(self).max_texture_size
                && (old(self).list(kind).free_list@.len() > 0 || old(self).list(kind).textures@.len() < u32::MAX))
                ==> r.0 is Some,
            r.1 is None ==> (r.0 matches Some(t) ==> {
                &&& old(self).list(kind).live_at(t.texture_id.index as int)
                &&& r.0 == old(self).list(kind).tex(t.texture_id.index as int).offer(size)
                &&& forall|j: int| t.texture_id.index < j && #[trigger] old(self).list(kind).live_at(j)
                    ==> old(self).list(kind).tex(j).offer(size) is None
            }),
            r.1 is Some || r.0 is None ==> forall|j: int| #[trigger] old(self).list(kind).live_at(j)
                ==> old(self).list(kind).tex(j).offer(size) is None,
            r.1 matches Some(nt) ==> r.0 == fresh_offer(nt.id, nt.width, nt.height, size),
    {
        let max = self.max_texture_size;
        match kind {
            AtlasTextureKind::Monochrome => allocate_in(&mut self.monochrome, kind, max, size),
            AtlasTextureKind::Subpixel => allocate_in(&mut self.subpixel, kind, max, size),
            AtlasTextureKind::Polychrome => allocate_in(&mut self.polychrome, kind, max, size),
        }
    }

    /// Whether a tile of `size` may be requested: the texture it would open
    /// has an area within `i32::MAX`.
    pub fn tile_area_fits(&self, size: Size<DevicePixels>) -> (r: bool)
        ensures
            r == texture_area_fits(size, self.max_side()),
    {
        let w = compute_texture_side(size.width.0, self.max_texture_size) as u64;
        let h = compute_texture_side(size.height.0, self.max_texture_size) as u64;
        proof {
            assert((w as int) * (h as int) <= u32::MAX as int * u32::MAX as int) by (nonlinear_arith)
                requires
                    w <= u32::MAX,
                    h <= u32::MAX,
            ;
        }
        w * h <= i32::MAX as u64
    }

    /// Return the cached tile for `key`, or allocate a `size` tile of `kind`
    /// for it, queue `bytes` for upload into it and cache it.  (The caller
    /// produces `bytes` only for keys that [`get`](Self::get) does not find.)
    ///
    /// A fresh tile is refused exactly when its size is empty or larger than
    /// the largest texture side; a kind whose `u32::MAX` slots are all taken
    /// and full refuses too.  Existing textures are tried newest first (highest
    /// slot first) and the tile is the first [`offer`](Self::offer); when none
    /// has room the most recently freed slot, else a new one, takes a new
    /// texture, reported in `new_texture`, and the tile is what that fresh
    /// texture offers (possibly nothing).  A new key needs
    /// [`texture_area_fits`]: a tile of more than `i32::MAX` pixels would
    /// overflow the shelf allocator's area total
    /// ([`tile_area_fits`](Self::tile_area_fits) tests it).
    pub fn get_or_insert(&mut self, key: &AtlasKey, kind: AtlasTextureKind, size: Size<DevicePixels>, bytes: Vec<u8>) -> (r: AtlasInsert)
        requires
            old(self).wf(),
            !old(self).tiles().contains_key(key.0) ==> texture_area_fits(size, old(self).max_side()),
        ensures
            final(self).wf(),
            final(self).max_side() == old(self).max_side(),
            forall|id: AtlasTextureId| #[trigger] old(self).is_live(id)
                ==> final(self).is_live(id) && final(self).texture_size(id) == old(self).texture_size(id),
            forall|id: AtlasTextureId| #[trigger] final(self).is_live(id) && !old(self).is_live(id)
                ==> (r.new_texture matches Some(nt) && nt.id == id),
            r.new_texture matches Some(nt) ==> {
                &&& nt.id.kind == kind
                &&& !old(self).is_live(nt.id)
                &&& final(self).is_live(nt.id)
                &&& final(self).texture_size(nt.id) == (nt.width, nt.height)
                &&& nt.format == spec_format_for_kind(kind)
                &&& nt.width == texture_side(size.width.0, old(self).max_side())
                &&& nt.height == texture_side(size.height.0, old(self).max_side())
                &&& nt.id.index == old(self).next_slot(kind)
            },
            old(self).tiles().contains_key(key.0) ==> {
                &&& r.tile == Some(old(self).tiles()[key.0])
                &&& r.new_texture is None
                &&& final(self).tiles() == old(self).tiles()
                &&& final(self).pending() == old(self).pending()
            },
            !old(self).tiles().contains_key(key.0) ==> {
                &&& !(0 < size.width.0 <= old(self).max_side() && 0 < size.height.0 <= old(self).max_side())
                    ==> r.tile is None
                &&& (0 < size.width.0 <= old(self).max_side() && 0 < size.height.0 <= old(self).max_side()
                    && (old(self).free_count(kind) > 0 || old(self).slot_count(kind) < u32::MAX))
                    ==> r.tile is Some
                &&& r.tile is None ==> final(self).tiles() == old(self).tiles() && final(self).pending() == old(self).pending()
                &&& r.new_texture is None ==> (r.tile matches Some(t) ==> {
                    &&& r.tile == old(self).offer(t.texture_id, size)
                    &&& forall|id: AtlasTextureId| id.kind == kind && t.texture_id.index < id.index
                        && #[trigger] old(self).is_live(id) ==> old(self).offer(id, size) is None
                })
                &&& (r.new_texture is Some || r.tile is None) ==> forall|id: AtlasTextureId| id.kind == kind
                    && #[trigger] old(self).is_live(id) ==> old(self).offer(id, size) is None
                &&& r.new_texture matches Some(nt) ==> r.tile == fresh_offer(nt.id, nt.width, nt.height, size)
                &&& r.tile matches Some(t) ==> {
                    &&& final(self).tiles() == old(self).tiles().insert(key.0, t)
                    &&& final(self).pending() == old(self).pending().push(
                        (PendingUpload { id: t.texture_id, bounds: t.bounds, data: bytes }),
                    )
                    &&& t.texture_id.kind == kind
                    &&& t.bounds.size == size
                    &&& t.padding == 0
                    &&& final(self).tile_ok(t)
                }
            },
    {
        match self.tiles_by_key.get(&key.0) {
            Some(t) => {
                return AtlasInsert { tile: Some(*t), new_texture: None };
            },
            None => {},
        }
        let ghost old_self = *self;
        let (tile, nt) = self.allocate(size, kind);
        let ghost mid = *self;
        proof {
            let mx = old_self.max_texture_size;
            assert(mid.list(AtlasTextureKind::Monochrome).wf(AtlasTextureKind::Monochrome, mx)) by {
                if kind != AtlasTextureKind::Monochrome {
                    assert(mid.list(AtlasTextureKind::Monochrome) == old_self.list(AtlasTextureKind::Monochrome));
                }
            }
            assert(mid.list(AtlasTextureKind::Subpixel).wf(AtlasTextureKind::Subpixel, mx)) by {
                if kind != AtlasTextureKind::Subpixel {
                    assert(mid.list(AtlasTextureKind::Subpixel) == old_self.list(AtlasTextureKind::Subpixel));
                }
            }
            assert(mid.list(AtlasTextureKind::Polychrome).wf(AtlasTextureKind::Polychrome, mx)) by {
                if kind != AtlasTextureKind::Polychrome {
                    assert(mid.list(AtlasTextureKind::Polychrome) == old_self.list(AtlasTextureKind::Polychrome));
                }
            }
            assert forall|id: AtlasTextureId| #[trigger] old_self.is_live(id) implies
                mid.is_live(id) && mid.texture_size(id) == old_self.texture_size(id) by {
                if id.kind == kind {
                    assert(old_self.list(kind).live_at(id.index as int));
                }
            }
        }
        match tile {
            None => {
                proof {
                    assert forall|id: AtlasTextureId| #[trigger] mid.is_live(id) implies
                        mid.refs(id) == keys_on(mid.tiles_by_key@, id).len() by {
                        if old_self.is_live(id) {
                            assert(old_self.refs(id) == keys_on(old_self.tiles_by_key@, id).len());
                        }
                        if id.kind != kind {
                            assert(mid.list(id.kind) == old_self.list(id.kind));
                        }
                        if id.kind == kind {
                            assert(mid.list(kind).refs(id.index as int) == old_self.list(kind).refs(id.index as int));
                            if !old_self.is_live(id) {
                                assert(mid.list(kind).live_at(id.index as int));
                                assert(keys_on(mid.tiles_by_key@, id) =~= Set::<u64>::empty()) by {
                                    assert forall|k: u64| #[trigger] mid.tiles_by_key@.contains_key(k)
                                        implies mid.tiles_by_key@[k].texture_id != id by {
                                        assert(old_self.tile_ok(old_self.tiles_by_key@[k]));
                                    }
                                }
                            }
                        }
                    }
                    assert forall|k: u64| #[trigger] mid.tiles_by_key@.contains_key(k) implies mid.tile_ok(mid.tiles_by_key@[k]) by {
                        assert(old_self.tile_ok(old_self.tiles_by_key@[k]));
                        let tid = old_self.tiles_by_key@[k].texture_id;
                        assert(old_self.is_live(tid));
                    }
                    assert forall|id: AtlasTextureId| #[trigger] mid.is_live(id) && !old_self.is_live(id)
                        implies (nt matches Some(n) && n.id == id) by {
                        if id.kind == kind {
                            assert(mid.list(kind).live_at(id.index as int));
                        } else {
                            assert(mid.list(id.kind) == old_self.list(id.kind));
                        }
                    }
                }
                AtlasInsert { tile: None, new_texture: nt }
            },
            Some(t) => {
                self.pending_uploads.push(PendingUpload { id: t.texture_id, bounds: t.bounds, data: bytes });
                self.tiles_by_key.insert(key.0, t);
                proof {
                    let m0 = old_self.tiles_by_key@;
                    assert(self.tiles_by_key@ == m0.insert(key.0, t));
                    assert(self.tiles_by_key@.dom().finite());
                    assert forall|id: AtlasTextureId| #[trigger] self.is_live(id) implies
                        self.refs(id) == keys_on(self.tiles_by_key@, id).len() by {
                        lemma_keys_on_insert(m0, key.0, t, id);
                        assert(self.list(id.kind) == mid.list(id.kind));
                        if old_self.is_live(id) {
                            assert(old_self.refs(id) == keys_on(m0, id).len());
                        }
                        if id.kind == kind {
                            if !old_self.is_live(id) {
                                assert(keys_on(m0, id) =~= Set::<u64>::empty()) by {
                                    assert forall|k: u64| #[trigger] m0.contains_key(k)
                                        implies m0[k].texture_id != id by {
                                        assert(old_self.tile_ok(m0[k]));
                                    }
                                }
                                assert(old_self.list(kind).refs(id.index as int) == 0);
                            }
                        } else {
                            assert(mid.list(id.kind) == old_self.list(id.kind));
                        }
                    }
                    assert forall|k: u64| #[trigger] self.tiles_by_key@.contains_key(k) implies self.tile_ok(self.tiles_by_key@[k]) by {
                        if k != key.0 {
                            assert(old_self.tile_ok(m0[k]));
                            let tid = m0[k].texture_id;
                            assert(old_self.is_live(tid));
                        }
                    }
                    assert forall|j: int| 0 <= j < self.pending_uploads@.len() implies upload_ok(#[trigger] self.pending_uploads@[j]) by {
                        if j < old_self.pending_uploads@.len() {
                            assert(upload_ok(old_self.pending_uploads@[j]));
                        }
                    }
                    assert forall|id: AtlasTextureId| #[trigger] self.is_live(id) && !old_self.is_live(id)
                        implies (nt matches Some(n) && n.id == id) by {
                        if id.kind == kind {
                            assert(mid.list(kind).live_at(id.index as int));
                        } else {
                            assert(mid.list(id.kind) == old_self.list(id.kind));
                        }
                    }
                }
                AtlasInsert { tile: Some(t), new_texture: nt }
            },
        }
    }

    /// Remove the tile cached for `key`.  Its texture drops one reference
    /// and, when no cached tile points into it any more, gives its slot back
    /// to the free list; that texture's id is returned so that the caller can
    /// release the GPU texture.
    pub fn remove(&mut self, key: &AtlasKey) -> (freed: Option<AtlasTextureId>)
        requires
            old(self).wf(),
        ensures
            final(self).wf(),
            final(self).max_side() == old(self).max_side(),
            final(self).tiles() == old(self).tiles().remove(key.0),
            final(self).pending() == old(self).pending(),
            !old(self).tiles().contains_key(key.0) ==> freed is None,
            old(self).tiles().contains_key(key.0) ==> {
                let id = old(self).tiles()[key.0].texture_id;
                &&& freed == (if old(self).refs(id) == 1 { Some(id) } else { None::<AtlasTextureId> })
                &&& final(self).refs(id) == old(self).refs(id) - 1
            },
            freed matches Some(id) ==> !final(self).is_live(id) && old(self).is_live(id)
                && final(self).next_slot(id.kind) == id.index,
            forall|id: AtlasTextureId| freed != Some(id) ==> (#[trigger] final(self).is_live(id) == old(self).is_live(id)),
            forall|id: AtlasTextureId| #[trigger] final(self).is_live(id)
                ==> final(self).texture_size(id) == old(self).texture_size(id),
    {
        let ghost old_self = *self;
        let t = match self.tiles_by_key.remove(&key.0) {
            Some(t) => t,
            None => {
                assert(self.tiles_by_key@ =~= old_self.tiles_by_key@.remove(key.0));
                assert(self.tiles_by_key@ =~= old_self.tiles_by_key@);
                assert(self.list(AtlasTextureKind::Monochrome) == old_self.list(AtlasTextureKind::Monochrome));
                assert(self.list(AtlasTextureKind::Subpixel) == old_self.list(AtlasTextureKind::Subpixel));
                assert(self.list(AtlasTextureKind::Polychrome) == old_self.list(AtlasTextureKind::Polychrome));
                assert forall|i: AtlasTextureId| #[trigger] self.is_live(i) implies
                    self.refs(i) == keys_on(self.tiles_by_key@, i).len() by {
                    assert(old_self.is_live(i));
                }
                assert forall|k: u64| #[trigger] self.tiles_by_key@.contains_key(k) implies self.tile_ok(self.tiles_by_key@[k]) by {
                    assert(old_self.tile_ok(old_self.tiles_by_key@[k]));
                }
                return None;
            },
        };
        let id = t.texture_id;
        let max = self.max_texture_size;
        proof {
            assert(old_self.tile_ok(t));
            assert(old_self.refs(id) == keys_on(old_self.tiles_by_key@, id).len());
            lemma_keys_on_remove(old_self.tiles_by_key@, key.0, id);
        }
        let freed = match id.kind {
            AtlasTextureKind::Monochrome => release_in(&mut self.monochrome, AtlasTextureKind::Monochrome, max, id.index as usize),
            AtlasTextureKind::Subpixel => release_in(&mut self.subpixel, AtlasTextureKind::Subpixel, max, id.index as usize),
            AtlasTextureKind::Polychrome => release_in(&mut self.polychrome, AtlasTextureKind::Polychrome, max, id.index as usize),
        };
        proof {
            let m0 = old_self.tiles_by_key@;
            let m1 = self.tiles_by_key@;
            assert(m1 == m0.remove(key.0));
            assert forall|k: AtlasTextureKind| k != id.kind implies #[trigger] self.list(k) == old_self.list(k) by {}
            assert forall|i: AtlasTextureId| #[trigger] self.is_live(i) implies
                self.refs(i) == keys_on(m1, i).len() by {
                lemma_keys_on_remove(m0, key.0, i);
                assert(old_self.is_live(i));
                assert(old_self.refs(i) == keys_on(m0, i).len());
                if i.kind != id.kind {
                    assert(self.list(i.kind) == old_self.list(i.kind));
                }
            }
            if freed {
                lemma_keys_on_finite(m1, id);
                keys_on(m1, id).lemma_len0_is_empty();
            }
            assert forall|k: u64| #[trigger] m1.contains_key(k) implies self.tile_ok(m1[k]) by {
                assert(old_self.tile_ok(m0[k]));
                let tid = m0[k].texture_id;
                assert(old_self.is_live(tid));
                if tid.kind != id.kind {
                    assert(self.list(tid.kind) == old_self.list(tid.kind));
                } else if tid.index != id.index {
                    assert(self.list(id.kind).live_at(tid.index as int));
                } else {
                    assert(tid == id);
                    if freed {
                        assert(keys_on(m1, id).contains(k));
                        assert(false);
                    }
                    assert(self.list(id.kind).live_at(tid.index as int));
                }
            }
            assert forall|j: int| 0 <= j < self.pending_uploads@.len() implies upload_ok(#[trigger] self.pending_uploads@[j]) by {
                assert(upload_ok(old_self.pending_uploads@[j]));
            }
            assert forall|i: AtlasTextureId| (if freed { Some(id) } else { None::<AtlasTextureId> }) != Some(i)
                implies (#[trigger] self.is_live(i) == old_self.is_live(i)) by {
                if i.kind != id.kind {
                    assert(self.list(i.kind) == old_self.list(i.kind));
                }
            }
            assert forall|i: AtlasTextureId| #[trigger] self.is_live(i)
                implies self.texture_size(i) == old_self.texture_size(i) by {
                if i.kind != id.kind {
                    assert(self.list(i.kind) == old_self.list(i.kind));
                }
            }
        }
        if freed { Some(id) } else { None }
    }
}

/// Drop one reference from slot `index`; free the slot when none is left.
fn release_in(list: &mut AtlasTextureList, kind: AtlasTextureKind, max: u32, index: usize) -> (freed: bool)
    requires
        old(list).wf(kind, max),
        old(list).live_at(index as int),
        old(list).tex(index as int).live_atlas_keys >= 1,
    ensures
        final(list).wf(kind, max),
        freed == (old(list).tex(index as int).live_atlas_keys == 1),
        freed ==> !final(list).live_at(index as int),
        !freed ==> final(list).live_at(index as int),
        final(list).refs(index as int) == old(list).refs(index as int) - 1,
        forall|j: int| j != index ==> #[trigger] final(list).live_at(j) == old(list).live_at(j),
        forall|j: int| j != index ==> #[trigger] final(list).refs(j) == old(list).refs(j),
        forall|j: int| #[trigger] final(list).live_at(j) ==> final(list).tex(j).width == old(list).tex(j).width
            && final(list).tex(j).height == old(list).tex(j).height,
        freed ==> final(list).next_slot() == index,
        !freed ==> final(list).next_slot() == old(list).next_slot(),
{
    let ghost before = *list;
    let freed = release_slot(&mut list.textures[index]);
    if freed {
        list.free_list.push(index);
    }
    proof {
        assert forall|j: int| 0 <= j < list.textures@.len() && j != index implies list.textures@[j] == before.textures@[j] by {}
        assert forall|j: int| #[trigger] list.live_at(j) implies list.tex(j).wf_at(j, kind, max) by {
            assert(before.live_at(j));
        }
        assert forall|j: int| 0 <= j < list.textures@.len() implies
            (list.textures@[j] is None <==> list.free_list@.contains(j as usize)) by {
            assert(before.textures@[j] is None <==> before.free_list@.contains(j as usize));
            if freed && j != index {
                assert(list.free_list@.contains(j as usize) <==> before.free_list@.contains(j as usize)) by {
                    if list.free_list@.contains(j as usize) {
                        let q = choose|q: int| 0 <= q < list.free_list@.len() && list.free_list@[q] == j as usize;
                        if q < before.free_list@.len() {
                            assert(before.free_list@[q] == j as usize);
                        }
                    }
                    if before.free_list@.contains(j as usize) {
                        let q = choose|q: int| 0 <= q < before.free_list@.len() && before.free_list@[q] == j as usize;
                        assert(list.free_list@[q] == j as usize);
                    }
                }
            }
            if freed && j == index {
                assert(list.free_list@[list.free_list@.len() - 1] == index);
            }
        }
        if freed {
            assert(!before.free_list@.contains(index));
            assert forall|a: int, b: int| 0 <= a < b < list.free_list@.len() implies list.free_list@[a] != list.free_list@[b] by {
                if b == list.free_list@.len() - 1 {
                    assert(before.free_list@[a] == list.free_list@[a]);
                } else {
                    assert(before.free_list@[a] == list.free_list@[a]);
                    assert(before.free_list@[b] == list.free_list@[b]);
                }
            }
            assert forall|q: int| 0 <= q < list.free_list@.len() implies list.free_list@[q] < list.textures@.len() by {
                if q < before.free_list@.len() {
                    assert(before.free_list@[q] == list.free_list@[q]);
                }
            }
        }
    }
    freed
}

fn release_slot(slot: &mut Option<AtlasTexture>) -> (freed: bool)
    requires
        *old(slot) matches Some(t) && t.live_atlas_keys >= 1,
    ensures
        freed == (old(slot)->0.live_atlas_keys == 1),
        freed ==> *final(slot) is None,
        !freed ==> (*final(slot) matches Some(t1) && {
            let t0 = old(slot)->0;
            &&& t1.id == t0.id
            &&& t1.format == t0.format
            &&& t1.width == t0.width
            &&& t1.height == t0.height
            &&& t1.live_atlas_keys == t0.live_atlas_keys - 1
            &&& allocator_extent(t1.allocator) == allocator_extent(t0.allocator)
        }),
{
    let unreferenced = match slot {
        Some(tex) => {
            tex.live_atlas_keys = tex.live_atlas_keys.saturating_sub(1);
            tex.live_atlas_keys == 0
        },
        None => false,
    };
    if unreferenced {
        *slot = None;
    }
    unreferenced
}


/// Number of live slots in a texture list.
spec fn count_live(s: Seq<Option<AtlasTexture>>) -> nat
    decreases s.len(),
{
    if s.len() == 0 {
        0
    } else {
        count_live(s.drop_last()) + if s.last() is Some { 1nat } else { 0nat }
    }
}

fn count_live_in(list: &AtlasTextureList) -> (n: usize)
    ensures
        n == count_live(list.textures@),
{
    let len = list.textures.len();
    let mut n: usize = 0;
    let mut i: usize = 0;
    while i < len
        invariant
            len == list.textures@.len(),
            i <= len,
            n <= i,
            n == count_live(list.textures@.take(i as int)),
        decreases len - i,
    {
        assert(list.textures@.take(i + 1).drop_last() =~= list.textures@.take(i as int));
        match &list.textures[i] {
            Some(_) => {
                n = n + 1;
            },
            None => {},
        }
        i = i + 1;
    }
    assert(list.textures@.take(len as int) =~= list.textures@);
    n
}

fn reset_slot(slot: &mut Option<AtlasTexture>)
    requires
        *old(slot) matches Some(t) ==> t.width <= MAX_ATLAS_SIDE && t.height <= MAX_ATLAS_SIDE,
    ensures
        *old(slot) is None ==> *final(slot) is None,
        *old(slot) matches Some(t0) ==> (*final(slot) matches Some(t1) && {
            &&& t1.id == t0.id
            &&& t1.format == t0.format
            &&& t1.width == t0.width
            &&& t1.height == t0.height
            &&& t1.live_atlas_keys == 0
            &&& t1.allocator == fresh_allocator(t0.width as i32, t0.height as i32)
            &&& allocator_extent(t1.allocator) == (t0.width as int, t0.height as int)
        }),
{
    match slot {
        Some(tex) => {
            tex.allocator = new_allocator(tex.width as i32, tex.height as i32);
            tex.live_atlas_keys = 0;
        },
        None => {},
    }
}

/// Reset every texture of a list to empty (same slots, same sizes).
fn reset_list(list: &mut AtlasTextureList, kind: AtlasTextureKind, max: u32)
    requires
        old(list).wf(kind, max),
    ensures
        final(list).wf(kind, max),
        final(list).textures@.len() == old(list).textures@.len(),
        final(list).free_list@ == old(list).free_list@,
        forall|j: int| #[trigger] final(list).live_at(j) == old(list).live_at(j),
        forall|j: int| #[trigger] final(list).live_at(j) ==> {
            &&& final(list).tex(j).width == old(list).tex(j).width
            &&& final(list).tex(j).height == old(list).tex(j).height
            &&& final(list).tex(j).live_atlas_keys == 0
            &&& final(list).tex(j).allocator == fresh_allocator(old(list).tex(j).width as i32, old(list).tex(j).height as i32)
        },
{
    let n = list.textures.len();
    let mut i: usize = 0;
    while i < n
        invariant
            i <= n,
            n == list.textures@.len(),
            n == old(list).textures@.len(),
            list.free_list@ == old(list).free_list@,
            old(list).wf(kind, max),
            forall|j: int| 0 <= j < n ==> (list.textures@[j] is Some <==> old(list).textures@[j] is Some),
            forall|j: int| #[trigger] list.live_at(j) ==> {
                &&& list.tex(j).id == old(list).tex(j).id
                &&& list.tex(j).format == old(list).tex(j).format
                &&& list.tex(j).width == old(list).tex(j).width
                &&& list.tex(j).height == old(list).tex(j).height
                &&& allocator_extent(list.tex(j).allocator) == (list.tex(j).width as int, list.tex(j).height as int)
                &&& (j < i ==> list.tex(j).live_atlas_keys == 0)
                &&& (j < i ==> list.tex(j).allocator == fresh_allocator(list.tex(j).width as i32, list.tex(j).height as i32))
            },
        decreases n - i,
    {
        let ghost before = *list;
        proof {
            if before.live_at(i as int) {
                assert(old(list).live_at(i as int));
                assert(old(list).tex(i as int).wf_at(i as int, kind, max));
            }
        }
        reset_slot(&mut list.textures[i]);
        proof {
            assert forall|j: int| #[trigger] list.live_at(j) implies {
                &&& list.tex(j).id == old(list).tex(j).id
                &&& list.tex(j).format == old(list).tex(j).format
                &&& list.tex(j).width == old(list).tex(j).width
                &&& list.tex(j).height == old(list).tex(j).height
                &&& allocator_extent(list.tex(j).allocator) == (list.tex(j).width as int, list.tex(j).height as int)
                &&& (j < i + 1 ==> list.tex(j).live_atlas_keys == 0)
                &&& (j < i + 1 ==> list.tex(j).allocator == fresh_allocator(list.tex(j).width as i32, list.tex(j).height as i32))
            } by {
                assert(before.live_at(j));
            }
        }
        i = i + 1;
    }
    proof {
        assert forall|j: int| #[trigger] list.live_at(j) implies list.tex(j).wf_at(j, kind, max) by {
            assert(old(list).live_at(j));
        }
        assert forall|j: int| 0 <= j < list.textures@.len() implies
            (list.textures@[j] is None <==> list.free_list@.contains(j as usize)) by {
            assert(old(list).textures@[j] is None <==> old(list).free_list@.contains(j as usize));
        }
    }
}

/// The texture write a queued upload becomes, if it carries pixels.
pub open spec fn upload_write(u: PendingUpload) -> Option<TextureWrite> {
    let w = u.bounds.size.width.0 as u32;
    let h = u.bounds.size.height.0 as u32;
    if w == 0 || h == 0 || u.data@.len() == 0 {
        None
    } else {
        Some(
            TextureWrite {
                id: u.id,
                x: u.bounds.origin.x.0 as u32,
                y: u.bounds.origin.y.0 as u32,
                width: w,
                height: h,
                bytes_per_row: (w * spec_bytes_per_pixel(spec_format_for_kind(u.id.kind))) as u32,
                data: u.data,
            },
        )
    }
}

/// The writes a batch of queued uploads becomes, in queue order.
pub open spec fn upload_writes(s: Seq<PendingUpload>) -> Seq<TextureWrite>
    decreases s.len(),
{
    if s.len() == 0 {
        Seq::empty()
    } else {
        let prev = upload_writes(s.drop_last());
        match upload_write(s.last()) {
            Some(w) => prev.push(w),
            None => prev,
        }
    }
}

impl AtlasState {
    /// Number of live textures of each kind (monochrome, subpixel, polychrome).
    pub closed spec fn live_textures(self, kind: AtlasTextureKind) -> nat {
        count_live(self.list(kind).textures@)
    }

    /// Return the number of live textures of each kind.
    pub fn texture_counts(&self) -> (r: (usize, usize, usize))
        ensures
            r.0 == self.live_textures(AtlasTextureKind::Monochrome),
            r.1 == self.live_textures(AtlasTextureKind::Subpixel),
            r.2 == self.live_textures(AtlasTextureKind::Polychrome),
    {
        (count_live_in(&self.monochrome), count_live_in(&self.subpixel), count_live_in(&self.polychrome))
    }

    /// Whether texture `id` exists.
    pub fn is_texture_live(&self, id: AtlasTextureId) -> (r: bool)
        ensures
            r == self.is_live(id),
    {
        let list = match id.kind {
            AtlasTextureKind::Monochrome => &self.monochrome,
            AtlasTextureKind::Subpixel => &self.subpixel,
            AtlasTextureKind::Polychrome => &self.polychrome,
        };
        let ix = id.index as usize;
        if ix < list.textures.len() {
            match &list.textures[ix] {
                Some(_) => true,
                None => false,
            }
        } else {
            false
        }
    }

    /// Format and size of texture `id`, which must exist.
    pub fn texture_info(&self, id: AtlasTextureId) -> (r: (AtlasTextureFormat, u32, u32))
        requires
            self.wf(),
            self.is_live(id),
        ensures
            r.0 == spec_format_for_kind(id.kind),
            (r.1, r.2) == self.texture_size(id),
    {
        let list = match id.kind {
            AtlasTextureKind::Monochrome => &self.monochrome,
            AtlasTextureKind::Subpixel => &self.subpixel,
            AtlasTextureKind::Polychrome => &self.polychrome,
        };
        let ix = id.index as usize;
        assert(list.live_at(ix as int));
        match &list.textures[ix] {
            Some(t) => (t.format, t.width, t.height),
            None => (format_for_kind(id.kind), 0, 0),
        }
    }

    /// Drop every cached tile and queued upload and empty every texture.
    /// Textures stay allocated with their sizes; only their allocators and
    /// counts are reset.
    pub fn invalidate(&mut self)
        requires
            old(self).wf(),
        ensures
            final(self).wf(),
            final(self).max_side() == old(self).max_side(),
            final(self).tiles() == Map::<u64, AtlasTile>::empty(),
            final(self).pending().len() == 0,
            forall|id: AtlasTextureId| #[trigger] final(self).is_live(id) == old(self).is_live(id),
            forall|id: AtlasTextureId| #[trigger] final(self).is_live(id)
                ==> final(self).texture_size(id) == old(self).texture_size(id) && final(self).refs(id) == 0,
            forall|kind: AtlasTextureKind| #[trigger] final(self).live_textures(kind) == old(self).live_textures(kind),
            forall|id: AtlasTextureId, size: Size<DevicePixels>| #[trigger] final(self).offer(id, size)
                == if final(self).is_live(id) {
                    fresh_offer(id, final(self).texture_size(id).0, final(self).texture_size(id).1, size)
                } else {
                    None::<AtlasTile>
                },
    {
        let ghost old_self = *self;
        self.tiles_by_key.clear();
        self.pending_uploads.clear();
        let max = self.max_texture_size;
        reset_list(&mut self.monochrome, AtlasTextureKind::Monochrome, max);
        reset_list(&mut self.subpixel, AtlasTextureKind::Subpixel, max);
        reset_list(&mut self.polychrome, AtlasTextureKind::Polychrome, max);
        proof {
            assert(self.tiles_by_key@ =~= Map::<u64, AtlasTile>::empty());
            assert forall|id: AtlasTextureId| #[trigger] self.is_live(id) implies
                self.refs(id) == keys_on(self.tiles_by_key@, id).len() by {
                assert(keys_on(self.tiles_by_key@, id) =~= Set::<u64>::empty());
            }
            assert forall|kind: AtlasTextureKind| #[trigger] self.live_textures(kind) == old_self.live_textures(kind) by {
                lemma_count_live_same(self.list(kind).textures@, old_self.list(kind).textures@);
            }
        }
    }

    /// Hand out every queued upload as a texture write, in queue order,
    /// skipping empty ones, and empty the queue.
    pub fn take_uploads(&mut self) -> (r: Vec<TextureWrite>)
        requires
            old(self).wf(),
        ensures
            final(self).wf(),
            final(self).max_side() == old(self).max_side(),
            final(self).tiles() == old(self).tiles(),
            final(self).pending().len() == 0,
            forall|id: AtlasTextureId| #[trigger] final(self).is_live(id) == old(self).is_live(id),
            forall|id: AtlasTextureId| #[trigger] final(self).is_live(id)
                ==> final(self).texture_size(id) == old(self).texture_size(id) && final(self).refs(id) == old(self).refs(id),
            forall|id: AtlasTextureId, size: Size<DevicePixels>| #[trigger] final(self).offer(id, size)
                == old(self).offer(id, size),
            r@ == upload_writes(old(self).pending()),
    {
        let ghost old_self = *self;
        let mut uploads: Vec<PendingUpload> = Vec::new();
        std::mem::swap(&mut uploads, &mut self.pending_uploads);
        let ghost all = uploads@;
        let mut out: Vec<TextureWrite> = Vec::new();
        let mut rev: Vec<PendingUpload> = Vec::new();
        while uploads.len() > 0
            invariant
                all == uploads@ + rev@.reverse(),
            decreases uploads@.len(),
        {
            let ghost u0 = uploads@;
            match uploads.pop() {
                Some(u) => {
                    rev.push(u);
                    assert(all =~= uploads@ + rev@.reverse());
                },
                None => {},
            }
        }
        assert(all =~= rev@.reverse());
        while rev.len() > 0
            invariant
                all =~= all.take(all.len() - rev@.len()) + rev@.reverse(),
                rev@.len() <= all.len(),
                out@ == upload_writes(all.take(all.len() - rev@.len())),
                forall|j: int| 0 <= j < all.len() ==> upload_ok(#[trigger] all[j]),
            decreases rev@.len(),
        {
            let ghost done = all.len() - rev@.len();
            match rev.pop() {
                Some(u) => {
                    proof {
                        assert(all[done] == u) by {
                            assert(rev@.push(u).reverse()[0] == u);
                        }
                        assert(all.take(done + 1).drop_last() =~= all.take(done));
                        assert(all.take(done + 1).last() == u);
                        assert(upload_ok(all[done]));
                    }
                    let w = u.bounds.size.width.0 as u32;
                    let h = u.bounds.size.height.0 as u32;
                    if w == 0 || h == 0 || u.data.len() == 0 {
                    } else {
                        let bpp = bytes_per_pixel(format_for_kind(u.id.kind));
                        assert(w <= MAX_ATLAS_SIDE);
                        assert(bpp <= 4);
                        assert((w as int) * (bpp as int) <= 65472 * 4) by (nonlinear_arith)
                            requires
                                w <= 65472,
                                bpp <= 4,
                        ;
                        out.push(TextureWrite {
                            id: u.id,
                            x: u.bounds.origin.x.0 as u32,
                            y: u.bounds.origin.y.0 as u32,
                            width: w,
                            height: h,
                            bytes_per_row: w * (bpp as u32),
                            data: u.data,
                        });
                    }
                    assert(all =~= all.take(all.len() - rev@.len()) + rev@.reverse());
                },
                None => {},
            }
        }
        assert(all.take(all.len() as int) =~= all);
        proof {
            assert(self.list(AtlasTextureKind::Monochrome) == old_self.list(AtlasTextureKind::Monochrome));
            assert(self.list(AtlasTextureKind::Subpixel) == old_self.list(AtlasTextureKind::Subpixel));
            assert(self.list(AtlasTextureKind::Polychrome) == old_self.list(AtlasTextureKind::Polychrome));
            assert forall|i: AtlasTextureId| #[trigger] self.is_live(i) implies
                self.refs(i) == keys_on(self.tiles_by_key@, i).len() by {
                assert(old_self.is_live(i));
            }
            assert forall|k: u64| #[trigger] self.tiles_by_key@.contains_key(k) implies self.tile_ok(self.tiles_by_key@[k]) by {
                assert(old_self.tile_ok(old_self.tiles_by_key@[k]));
            }
        }
        out
    }
}

proof fn lemma_count_live_same(a: Seq<Option<AtlasTexture>>, b: Seq<Option<AtlasTexture>>)
    requires
        a.len() == b.len(),
        forall|j: int| 0 <= j < a.len() ==> (a[j] is Some <==> b[j] is Some),
    ensures
        count_live(a) == count_live(b),
    decreases a.len(),
{
    if a.len() > 0 {
        lemma_count_live_same(a.drop_last(), b.drop_last());
    }
}

/// The atlas invariant, seen from outside: every cached tile lies inside a
/// live texture, no cached tile points into a freed slot, and the count a
/// live texture keeps is the number of cached tiles that point into it (so a
/// texture is released exactly when its last tile goes).
pub proof fn lemma_atlas_tiles_and_counts(a: AtlasState)
    requires
        a.wf(),
    ensures
        forall|k: u64| #[trigger] a.tiles().contains_key(k) ==> {
            let t = a.tiles()[k];
            &&& a.is_live(t.texture_id)
            &&& tile_inside(t, a.texture_size(t.texture_id).0, a.texture_size(t.texture_id).1)
        },
        forall|id: AtlasTextureId, k: u64| #![trigger a.is_live(id), a.tiles().contains_key(k)]
            !a.is_live(id) && a.tiles().contains_key(k) ==> a.tiles()[k].texture_id != id,
        forall|id: AtlasTextureId| #[trigger] a.is_live(id) ==> a.refs(id) == keys_on(a.tiles(), id).len(),
{
    assert forall|k: u64| #[trigger] a.tiles().contains_key(k) implies {
        let t = a.tiles()[k];
        &&& a.is_live(t.texture_id)
        &&& tile_inside(t, a.texture_size(t.texture_id).0, a.texture_size(t.texture_id).1)
    } by {
        assert(a.tile_ok(a.tiles()[k]));
    }
    assert forall|id: AtlasTextureId, k: u64| #![trigger a.is_live(id), a.tiles().contains_key(k)]
        !a.is_live(id) && a.tiles().contains_key(k) implies a.tiles()[k].texture_id != id by {
        assert(a.tile_ok(a.tiles()[k]));
    }
}

/// What `get_or_insert` caches for a key is what `get` (and a second
/// `get_or_insert`) then returns for it; after `remove` of the key, or after
/// `invalidate`, `get` returns nothing.
pub proof fn lemma_atlas_get_after_insert_remove(
    before: AtlasState,
    inserted: AtlasState,
    removed: AtlasState,
    cleared: AtlasState,
    key: AtlasKey,
    t: AtlasTile,
)
    requires
        inserted.tiles() == before.tiles().insert(key.0, t),
        removed.tiles() == inserted.tiles().remove(key.0),
        cleared.tiles() == Map::<u64, AtlasTile>::empty(),
    ensures
        inserted.lookup(key) == Some(t),
        removed.lookup(key) is None,
        cleared.lookup(key) is None,
        forall|other: AtlasKey| other.0 != key.0 ==> #[trigger] removed.lookup(other) == before.lookup(other),
{
    assert forall|other: AtlasKey| other.0 != key.0 implies #[trigger] removed.lookup(other) == before.lookup(other) by {
        assert(removed.tiles().contains_key(other.0) == before.tiles().contains_key(other.0));
    }
}

/// Caching a tile for a new key and removing the key again gives back the
/// same cache, and every texture live throughout counts as many tiles as it
/// did before.
pub proof fn lemma_atlas_insert_then_remove_restores_counts(
    a0: AtlasState,
    a1: AtlasState,
    a2: AtlasState,
    key: AtlasKey,
    t: AtlasTile,
)
    requires
        a0.wf(),
        a2.wf(),
        !a0.tiles().contains_key(key.0),
        a1.tiles() == a0.tiles().insert(key.0, t),
        a2.tiles() == a1.tiles().remove(key.0),
    ensures
        a2.tiles() == a0.tiles(),
        forall|id: AtlasTextureId| a0.is_live(id) && #[trigger] a2.is_live(id) ==> a2.refs(id) == a0.refs(id),
{
    assert(a2.tiles() =~= a0.tiles());
}

/// A texture that `remove` released gives its slot, and so its id, to the
/// next texture `get_or_insert` opens for that kind.
pub proof fn lemma_atlas_freed_slot_is_reused(after_remove: AtlasState, freed: AtlasTextureId, opened: NewTexture)
    requires
        after_remove.next_slot(freed.kind) == freed.index,
        opened.id.kind == freed.kind,
        opened.id.index == after_remove.next_slot(opened.id.kind),
    ensures
        opened.id == freed,
{
}

} // verus!
