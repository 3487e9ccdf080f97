use vstd::prelude::*;

verus! {

/// The rectangular playfield. A valid arena has `bottom < top` and `left < right`.
#[derive(Clone, Copy, Debug, PartialEq, Eq, Structural)]
pub struct Arena {
    pub top: i64,
    pub bottom: i64,
    pub left: i64,
    pub right: i64,
}

impl Arena {
    pub open spec fn wf(&self) -> bool {
        self.bottom < self.top && self.left < self.right
    }

    /// Whether the four bounds describe a non-empty playfield.
    pub fn is_valid(&self) -> (r: bool)
        ensures
            r == self.wf(),
    {
        self.bottom < self.top && self.left < self.right
    }
}

/// An axis-aligned box given by its centre and its half extents.
#[derive(Clone, Copy, Debug, PartialEq, Eq, Structural)]
pub struct Aabb {
    pub center_x: i64,
    pub center_y: i64,
    pub half_width: i64,
    pub half_height: i64,
}

/// Two open spans `(c1 - h1, c1 + h1)` and `(c2 - h2, c2 + h2)` share a point.
/// Spans are open, so boxes that only touch at an edge do not overlap, and a
/// span of zero extent overlaps only a span that holds it strictly inside.
pub open spec fn spans_overlap(c1: int, h1: int, c2: int, h2: int) -> bool {
    c1 - h1 < c2 + h2 && c2 - h2 < c1 + h1
}

impl Aabb {
    pub open spec fn wf(&self) -> bool {
        self.half_width >= 0 && self.half_height >= 0
    }
}

fn spans_overlap_exec(c1: i64, h1: i64, c2: i64, h2: i64) -> (r: bool)
    ensures
        r == spans_overlap(c1 as int, h1 as int, c2 as int, h2 as int),
{
    let (c1, h1, c2, h2) = (c1 as i128, h1 as i128, c2 as i128, h2 as i128);
    c1 - h1 < c2 + h2 && c2 - h2 < c1 + h1
}

/// Whether the x-extents of the two boxes overlap.
pub fn overlaps_x(a: &Aabb, b: &Aabb) -> (r: bool)
    ensures
        r == spans_overlap(a.center_x as int, a.half_width as int, b.center_x as int, b.half_width as int),
{
    spans_overlap_exec(a.center_x, a.half_width, b.center_x, b.half_width)
}

/// Whether the y-extents of the two boxes overlap.
pub fn overlaps_y(a: &Aabb, b: &Aabb) -> (r: bool)
    ensures
        r == spans_overlap(a.center_y as int, a.half_height as int, b.center_y as int, b.half_height as int),
{
    spans_overlap_exec(a.center_y, a.half_height, b.center_y, b.half_height)
}

/// Whether the two boxes intersect: they overlap on both axes.
pub fn aabb_intersects(a: &Aabb, b: &Aabb) -> (r: bool)
    ensures
        r == (spans_overlap(a.center_x as int, a.half_width as int, b.center_x as int, b.half_width as int)
            && spans_overlap(a.center_y as int, a.half_height as int, b.center_y as int, b.half_height as int)),
{
    overlaps_x(a, b) && overlaps_y(a, b)
}

} // verus!
