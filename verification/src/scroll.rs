//! Scroll offsets that stay within their bounds.

use vstd::prelude::*;

verus! {

/// The two kinds of scrollable area.
#[derive(Clone, Copy, Debug, PartialEq, Eq, Structural)]
pub enum RegionKind {
    /// A list that starts at its top: it cannot be scrolled above it.
    List,
    /// A conversation: once it is taller than its viewport it can be
    /// scrolled as far up as down.
    Content,
}

/// `v` if it lies between `lo` and `hi`, else the nearer bound. Where the
/// bounds are crossed the lower one wins.
pub open spec fn clamp(v: int, lo: int, hi: int) -> int {
    if v < lo {
        lo
    } else if v > hi {
        hi
    } else {
        v
    }
}

/// A height as the host hands it over, kept within what an offset can hold.
pub open spec fn to_offset(v: int) -> int {
    clamp(v, i32::MIN as int, i32::MAX as int)
}

/// How far the content sticks out of the viewport; zero where it fits.
pub open spec fn overhang(content_height: int, viewport_height: int) -> int {
    if content_height > viewport_height {
        to_offset(content_height - viewport_height)
    } else {
        0
    }
}

/// The lowest offset of a region of this kind.
pub open spec fn lower_bound(kind: RegionKind, content_height: int, viewport_height: int) -> int {
    match kind {
        RegionKind::List => 0,
        RegionKind::Content => -overhang(content_height, viewport_height),
    }
}

/// The highest offset of a region: the offset at which the bottom of the
/// content lies on the bottom of the viewport.
pub open spec fn upper_bound(content_height: int, viewport_height: int) -> int {
    overhang(content_height, viewport_height)
}

/// The scroll state of one scrollable area.
#[derive(Clone, Copy, Debug, PartialEq, Eq, Structural)]
pub struct ScrollRegion {
    pub kind: RegionKind,
    pub offset: i32,
    pub min_offset: i32,
    pub max_offset: i32,
}

impl ScrollRegion {
    /// The offset lies within the bounds.
    pub open spec fn wf(self) -> bool {
        self.min_offset <= self.offset <= self.max_offset
    }

    /// The region after a scroll by `delta` steps of `sensitivity` pixels.
    pub open spec fn scrolled(self, delta: int, sensitivity: int) -> ScrollRegion {
        ScrollRegion {
            offset: clamp(
                self.offset + delta * sensitivity,
                self.min_offset as int,
                self.max_offset as int,
            ) as i32,
            ..self
        }
    }

    /// The region after its content or its viewport changed size.
    pub open spec fn with_extent(self, content_height: int, viewport_height: int) -> ScrollRegion {
        let lo = lower_bound(self.kind, content_height, viewport_height);
        let hi = upper_bound(content_height, viewport_height);
        ScrollRegion {
            kind: self.kind,
            offset: clamp(self.offset as int, lo, hi) as i32,
            min_offset: lo as i32,
            max_offset: hi as i32,
        }
    }

    /// The region scrolled to the end of its content.
    pub open spec fn at_bottom(self) -> ScrollRegion {
        ScrollRegion { offset: self.max_offset, ..self }
    }

    /// The region after each of `deltas` was scrolled in turn, first to
    /// last, each with its own sensitivity.
    pub open spec fn scrolled_all(self, deltas: Seq<(int, int)>) -> ScrollRegion
        decreases deltas.len(),
    {
        if deltas.len() == 0 {
            self
        } else {
            self.scrolled_all(deltas.drop_last()).scrolled(deltas.last().0, deltas.last().1)
        }
    }

    /// A region of the given kind with nothing in it, at offset zero.
    pub fn new(kind: RegionKind) -> (r: ScrollRegion)
        ensures
            r == (ScrollRegion { kind, offset: 0, min_offset: 0, max_offset: 0 }),
            r.wf(),
    {
        ScrollRegion { kind, offset: 0, min_offset: 0, max_offset: 0 }
    }

    /// Scrolls by `delta` steps of `sensitivity` pixels each, and keeps
    /// the offset within the bounds.
    pub fn scroll(&mut self, delta: i32, sensitivity: i32)
        ensures
            *final(self) == old(self).scrolled(delta as int, sensitivity as int),
            old(self).min_offset <= old(self).max_offset ==> final(self).wf(),
    {
        assert(-0x4000_0000_0000_0000 <= delta * sensitivity <= 0x4000_0000_0000_0000)
            by (nonlinear_arith)
            requires
                -0x8000_0000 <= delta <= 0x7fff_ffff,
                -0x8000_0000 <= sensitivity <= 0x7fff_ffff,
        ;
        let wanted: i64 = self.offset as i64 + delta as i64 * sensitivity as i64;
        if wanted < self.min_offset as i64 {
            self.offset = self.min_offset;
        } else if wanted > self.max_offset as i64 {
            self.offset = self.max_offset;
        } else {
            self.offset = wanted as i32;
        }
    }

    /// Takes note of the height of the content and of the viewport: the
    /// bounds are computed anew from them, and the offset is brought
    /// within the new bounds.
    pub fn set_extent(&mut self, content_height: i32, viewport_height: i32)
        ensures
            *final(self) == old(self).with_extent(content_height as int, viewport_height as int),
            final(self).wf(),
    {
        let over: i64 = content_height as i64 - viewport_height as i64;
        let hi: i32 = if over <= 0 {
            0
        } else if over > i32::MAX as i64 {
            i32::MAX
        } else {
            over as i32
        };
        let lo: i32 = match self.kind {
            RegionKind::List => 0,
            RegionKind::Content => -hi,
        };
        self.min_offset = lo;
        self.max_offset = hi;
        if self.offset < lo {
            self.offset = lo;
        } else if self.offset > hi {
            self.offset = hi;
        }
    }

    /// Scrolls to the end of the content: where the content is taller than
    /// the viewport its bottom comes to lie on the viewport's bottom, and
    /// where it fits the offset is zero.
    pub fn auto_scroll_to_bottom(&mut self)
        ensures
            *final(self) == old(self).at_bottom(),
            old(self).min_offset <= old(self).max_offset ==> final(self).wf(),
    {
        self.offset = self.max_offset;
    }
}

/// However often and however far a region is scrolled, its offset stays
/// within its bounds, and the bounds stay as they are.
pub proof fn lemma_scroll_stays_in_bounds(r: ScrollRegion, deltas: Seq<(int, int)>)
    requires
        r.wf(),
    ensures
        r.scrolled_all(deltas).wf(),
        r.scrolled_all(deltas).min_offset == r.min_offset,
        r.scrolled_all(deltas).max_offset == r.max_offset,
        r.scrolled_all(deltas).kind == r.kind,
    decreases deltas.len(),
{
    if deltas.len() > 0 {
        lemma_scroll_stays_in_bounds(r, deltas.drop_last());
    }
}

/// Scrolling to the bottom twice is scrolling to the bottom once.
pub proof fn lemma_auto_scroll_idempotent(r: ScrollRegion)
    ensures
        r.at_bottom().at_bottom() == r.at_bottom(),
{
}

/// After the extent was set, the bottom is where the content sticks out
/// of the viewport, and zero where the content fits.
pub proof fn lemma_bottom_of_extent(r: ScrollRegion, content_height: int, viewport_height: int)
    requires
        i32::MIN <= content_height <= i32::MAX,
        i32::MIN <= viewport_height <= i32::MAX,
    ensures
        r.with_extent(content_height, viewport_height).wf(),
        r.with_extent(content_height, viewport_height).at_bottom().wf(),
        content_height <= viewport_height ==> r.with_extent(
            content_height,
            viewport_height,
        ).at_bottom().offset == 0,
        0 <= viewport_height < content_height ==> r.with_extent(
            content_height,
            viewport_height,
        ).at_bottom().offset == content_height - viewport_height,
{
}

} // verus!
