//! The shelf allocator of the `etagere` crate, as the atlas uses it.

use vstd::prelude::*;
use etagere::BucketedAtlasAllocator;

verus! {

#[verifier::external_type_specification]
#[verifier::external_body]
pub struct ExBucketedAtlasAllocator(BucketedAtlasAllocator);

/// The (width, height) that an allocator was created with.
pub uninterp spec fn allocator_extent(a: BucketedAtlasAllocator) -> (int, int);

/// The rectangles `(min_x, min_y, max_x, max_y)` an allocator has handed out.
pub uninterp spec fn allocator_items(a: BucketedAtlasAllocator) -> Set<(int, int, int, int)>;

/// The allocator that `BucketedAtlasAllocator::new(size2(width, height))`
/// builds (with the default options).
pub uninterp spec fn fresh_allocator(width: i32, height: i32) -> BucketedAtlasAllocator;

/// What `BucketedAtlasAllocator::allocate(size2(width, height))` returns on
/// allocator `a`: the allocation id and the rectangle corners
/// `(min_x, min_y, max_x, max_y)`, or `None`.
pub uninterp spec fn allocation(a: BucketedAtlasAllocator, width: i32, height: i32) -> Option<(u32, i32, i32, i32, i32)>;

/// `BucketedAtlasAllocator::new(size2(width, height))` with the default
/// options (no alignment, horizontal shelves, one column).
///
/// Claims: the allocator has the given extent and holds no rectangle.  Its
/// constructor asserts that both sides are below `u16::MAX`, so `requires`
/// keeps them there.
#[verifier::external_body]
pub(crate) fn new_allocator(width: i32, height: i32) -> (a: BucketedAtlasAllocator)
    requires
        0 <= width < 65535,
        0 <= height < 65535,
    ensures
        a == fresh_allocator(width, height),
        allocator_extent(a) == (width as int, height as int),
        allocator_items(a) == Set::<(int, int, int, int)>::empty(),
{
    BucketedAtlasAllocator::new(etagere::size2(width, height))
}

/// `BucketedAtlasAllocator::allocate(size2(width, height))`, returning the
/// allocation id (`AllocId::serialize`) and the rectangle corners.
///
/// Claims, as `allocate`, `alloc_from_bucket` and `coalesce_shelves` show
/// them: the result is the named function of the allocator and the size; a
/// refused request leaves the allocator as it was (every path that returns
/// `None` does so before changing a field, and shelves are only merged on the
/// way to a successful allocation); the extent never changes; an empty request or one larger than the extent gets `None`; a
/// returned rectangle starts inside the extent, is exactly `width` wide and at
/// least `height` tall, ends inside the extent, and joins the handed-out set,
/// which is otherwise unchanged; an allocator that has handed out nothing
/// fits any request within its extent.  `requires` keeps the extent at most
/// 65472 high, where the shelf-height rounding cannot overflow `u16`, and
/// its area within `i32::MAX`: `alloc_from_bucket` adds each rectangle's
/// `i32` area to the allocated space, and the rectangles handed out are
/// disjoint and inside the extent, so neither the area nor the sum can
/// overflow.  Not
/// stated: the shelf-merging step indexes one shelf beyond the list when the
/// last shelf is empty; shelves only become empty through `deallocate`, which
/// this library never calls.
#[verifier::external_body]
pub(crate) fn allocate_rect(a: &mut BucketedAtlasAllocator, width: i32, height: i32) -> (r: Option<(u32, i32, i32, i32, i32)>)
    requires
        0 <= allocator_extent(*old(a)).0 <= 65472,
        0 <= allocator_extent(*old(a)).1 <= 65472,
        allocator_extent(*old(a)).0 * allocator_extent(*old(a)).1 <= i32::MAX,
    ensures
        r == allocation(*old(a), width, height),
        r is None ==> *final(a) == *old(a),
        allocator_extent(*final(a)) == allocator_extent(*old(a)),
        (width <= 0 || height <= 0 || width > allocator_extent(*old(a)).0
            || height > allocator_extent(*old(a)).1) ==> r is None,
        (allocator_items(*old(a)).is_empty() && 0 < width <= allocator_extent(*old(a)).0
            && 0 < height <= allocator_extent(*old(a)).1) ==> r is Some,
        r is None ==> allocator_items(*final(a)) == allocator_items(*old(a)),
        r matches Some((id, x0, y0, x1, y1)) ==> {
            &&& 0 <= x0 && 0 <= y0
            &&& x1 == x0 + width
            &&& y1 >= y0 + height
            &&& x1 <= allocator_extent(*old(a)).0
            &&& y1 <= allocator_extent(*old(a)).1
            &&& allocator_items(*final(a)) == allocator_items(*old(a)).insert(
                (x0 as int, y0 as int, x1 as int, y1 as int),
            )
        },
{
    let alloc = a.allocate(etagere::size2(width, height))?;
    Some((alloc.id.serialize(), alloc.rectangle.min.x, alloc.rectangle.min.y, alloc.rectangle.max.x, alloc.rectangle.max.y))
}

} // verus!
