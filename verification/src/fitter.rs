//! The decisions of the bounding-box fitter.
//!
//! To fit a box is to shrink it round a reference point until no side is
//! longer than a limit. The lengths are great-circle lengths, which the caller
//! measures; this module holds what is decided between the measurements: whether
//! a box needs fitting, where to measure from, how far to go in each direction,
//! and which box the four points reached make.
//!
//! A length comes as a `u64` whose order is the order of the lengths. Nothing
//! here adds or scales lengths, so any such numbering of them will do.

use vstd::prelude::*;
use vstd::std_specs::convert::FromSpecImpl;
use crate::geometry::Coordinate;
use crate::geometry::PointBoundingBox;

verus! {

/// Whether a box of the given width and height is to be fitted: a limit is set
/// and a side is longer than it.
pub open spec fn spec_needs_fitting(width: u64, height: u64, max_side_len: Option<u64>) -> bool {
    match max_side_len {
        Some(max_len) => width > max_len || height > max_len,
        None => false,
    }
}

/// Decides whether a box of the given width and height is to be fitted.
#[verifier::when_used_as_spec(spec_needs_fitting)]
pub fn needs_fitting(width: u64, height: u64, max_side_len: Option<u64>) -> (r: bool)
    ensures
        r == spec_needs_fitting(width, height, max_side_len),
{
    match max_side_len {
        Some(max_len) => width > max_len || height > max_len,
        None => false,
    }
}

/// The point that a box is fitted round.
#[derive(Clone, Copy, Debug, PartialEq, Eq, Structural)]
pub enum Anchor {
    /// The reference point itself: it lies inside the box.
    Reference(Coordinate),
    /// The centre of the box: the reference point lies outside it or on its
    /// boundary, and a box fitted round it could miss the given box altogether.
    Center,
}

/// The anchor for fitting `bbox` round `reference`.
pub open spec fn spec_anchor(bbox: PointBoundingBox, reference: Coordinate) -> Anchor {
    if bbox.contains(reference) {
        Anchor::Reference(reference)
    } else {
        Anchor::Center
    }
}

/// Chooses the point to fit `bbox` round.
#[verifier::when_used_as_spec(spec_anchor)]
pub fn anchor(bbox: PointBoundingBox, reference: Coordinate) -> (r: Anchor)
    ensures
        r == spec_anchor(bbox, reference),
{
    if bbox.contains(reference) {
        Anchor::Reference(reference)
    } else {
        Anchor::Center
    }
}

/// What to do with a box before it is inserted: `None` to insert it as it is,
/// the anchor to fit it round otherwise.
pub open spec fn spec_fitting_plan(
    bbox: PointBoundingBox,
    reference: Coordinate,
    width: u64,
    height: u64,
    max_side_len: Option<u64>,
) -> Option<Anchor> {
    if needs_fitting(width, height, max_side_len) {
        Some(anchor(bbox, reference))
    } else {
        None
    }
}

/// Decides what to do with a box of the given width and height before it is
/// inserted.
#[verifier::when_used_as_spec(spec_fitting_plan)]
pub fn fitting_plan(
    bbox: PointBoundingBox,
    reference: Coordinate,
    width: u64,
    height: u64,
    max_side_len: Option<u64>,
) -> (r: Option<Anchor>)
    ensures
        r == spec_fitting_plan(bbox, reference, width, height, max_side_len),
{
    if needs_fitting(width, height, max_side_len) {
        Some(anchor(bbox, reference))
    } else {
        None
    }
}

/// The lengths from the anchor to the nearest point of each edge of a box.
#[derive(Clone, Copy, Debug, PartialEq, Eq, Structural)]
pub struct EdgeDistances {
    pub north: u64,
    pub east: u64,
    pub south: u64,
    pub west: u64,
}

/// The lesser of a length and a limit.
pub open spec fn clamp_length(length: u64, limit: u64) -> u64 {
    if length < limit {
        length
    } else {
        limit
    }
}

impl EdgeDistances {
    /// Each length cut down to `limit`, which is half the greatest side allowed.
    pub open spec fn spec_clamped(self, limit: u64) -> EdgeDistances {
        EdgeDistances {
            north: clamp_length(self.north, limit),
            east: clamp_length(self.east, limit),
            south: clamp_length(self.south, limit),
            west: clamp_length(self.west, limit),
        }
    }

    /// Cuts each length down to `limit`.
    #[verifier::when_used_as_spec(spec_clamped)]
    pub fn clamped(self, limit: u64) -> (r: EdgeDistances)
        ensures
            r == self.spec_clamped(limit),
    {
        EdgeDistances {
            north: if self.north < limit { self.north } else { limit },
            east: if self.east < limit { self.east } else { limit },
            south: if self.south < limit { self.south } else { limit },
            west: if self.west < limit { self.west } else { limit },
        }
    }
}

/// The points reached from the anchor by going due north, east, south and
/// west.
#[derive(Clone, Copy, Debug, PartialEq, Eq, Structural)]
pub struct CardinalPoints {
    pub north: Coordinate,
    pub east: Coordinate,
    pub south: Coordinate,
    pub west: Coordinate,
}

/// The box through four cardinal points: each corner takes its longitude from
/// the west or the east point and its latitude from the north or the south
/// point.
pub open spec fn assembled(points: CardinalPoints) -> PointBoundingBox {
    PointBoundingBox {
        south_west: Coordinate { x: points.west.x, y: points.south.y },
        south_east: Coordinate { x: points.east.x, y: points.south.y },
        north_west: Coordinate { x: points.west.x, y: points.north.y },
        north_east: Coordinate { x: points.east.x, y: points.north.y },
    }
}

impl From<CardinalPoints> for PointBoundingBox {
    /// The box through the four points, [`assembled`].
    fn from(points: CardinalPoints) -> (r: Self) {
        PointBoundingBox {
            south_west: Coordinate { x: points.west.x, y: points.south.y },
            south_east: Coordinate { x: points.east.x, y: points.south.y },
            north_west: Coordinate { x: points.west.x, y: points.north.y },
            north_east: Coordinate { x: points.east.x, y: points.north.y },
        }
    }
}

impl FromSpecImpl<CardinalPoints> for PointBoundingBox {
    open spec fn obeys_from_spec() -> bool {
        true
    }

    open spec fn from_spec(points: CardinalPoints) -> Self {
        assembled(points)
    }
}

/// No clamped length is longer than the limit or than it was, and a length
/// within the limit stays as it is.
pub proof fn lemma_clamped_within_limit(distances: EdgeDistances, limit: u64)
    ensures
        distances.clamped(limit).north <= limit,
        distances.clamped(limit).east <= limit,
        distances.clamped(limit).south <= limit,
        distances.clamped(limit).west <= limit,
        distances.clamped(limit).north <= distances.north,
        distances.clamped(limit).east <= distances.east,
        distances.clamped(limit).south <= distances.south,
        distances.clamped(limit).west <= distances.west,
        distances.north <= limit && distances.east <= limit && distances.south <= limit
            && distances.west <= limit ==> distances.clamped(limit) == distances,
{
}

/// The box through four cardinal points is aligned with the axes, and it
/// holds every point that lies strictly between the west and the east point by
/// longitude and strictly between the south and the north point by latitude.
pub proof fn lemma_assembled_box_holds_anchor(points: CardinalPoints, anchor: Coordinate)
    ensures
        assembled(points).north_west.x == assembled(points).south_west.x,
        assembled(points).north_east.x == assembled(points).south_east.x,
        assembled(points).north_west.y == assembled(points).north_east.y,
        assembled(points).south_west.y == assembled(points).south_east.y,
        points.west.x < anchor.x < points.east.x && points.south.y < anchor.y < points.north.y
            ==> assembled(points).contains(anchor),
{
}

} // verus!
