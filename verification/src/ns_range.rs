//! `NSRange`, the location/length pair of the UIKit text APIs.

use vstd::prelude::*;

verus! {

/// The range that `from_range` makes of `start..end`.
pub open spec fn spec_from_range(start: usize, end: usize) -> NSRange {
    NSRange { location: start, length: if end > start { (end - start) as usize } else { 0 } }
}

/// `NSRange` — used when bridging CoreText / UITextInput APIs.
#[derive(Copy, Clone, Debug, PartialEq, Eq)]
pub struct NSRange {
    pub location: usize,
    pub length: usize,
}

impl NSRange {
    /// Sentinel value meaning "no range" (`NSNotFound`).
    pub fn invalid() -> (r: Self)
        ensures
            r.location == usize::MAX,
            r.length == 0,
    {
        NSRange { location: usize::MAX, length: 0 }
    }

    /// A range is valid unless its location is the `NSNotFound` sentinel.
    pub fn is_valid(&self) -> (r: bool)
        ensures
            r == (self.location != usize::MAX),
    {
        self.location != usize::MAX
    }

    /// The half-open range `location..location + length`, or `None` for
    /// the sentinel.
    pub fn to_range(self) -> (r: Option<std::ops::Range<usize>>)
        requires
            self.location != usize::MAX ==> self.location + self.length <= usize::MAX,
        ensures
            self.location == usize::MAX ==> r is None,
            self.location != usize::MAX ==> (r matches Some(rg) && rg.start == self.location
                && rg.end == self.location + self.length),
    {
        if self.is_valid() {
            let start = self.location;
            let end = start + self.length;
            Some(start..end)
        } else {
            None
        }
    }

    /// The range covering `range` (empty when it ends before it starts).
    pub fn from_range(range: std::ops::Range<usize>) -> (r: Self)
        ensures
            r == spec_from_range(range.start, range.end),
    {
        let length = if range.end > range.start { range.end - range.start } else { 0 };
        NSRange { location: range.start, length }
    }
}

/// A range made of `start..end` gives `start..end` back, unless `start` is
/// the sentinel; an inverted range comes back empty.
pub proof fn lemma_ns_range_round_trip(start: usize, end: usize)
    ensures
        spec_from_range(start, end).location == start,
        start <= end ==> spec_from_range(start, end).location + spec_from_range(start, end).length == end,
        end < start ==> spec_from_range(start, end).length == 0,
        (spec_from_range(start, end).location != usize::MAX) == (start != usize::MAX),
{
}

} // verus!
