//! Coordinates and bounding boxes.
//!
//! The types are generic in the number that a coordinate is made of. What the
//! cache holds is fixed-point: an `i64` that counts steps of `10^-precision`
//! degrees, which is the default. A caller that keeps degrees in a number type
//! of its own builds its boxes with the same functions and goes over to steps
//! with [`BoundingBox::map`].

use vstd::prelude::*;
use vstd::std_specs::convert::FromSpecImpl;
use vstd::std_specs::convert::TryFromSpecImpl;

verus! {

/// The greatest magnitude of a coordinate that the index takes: `2^60`. Within
/// it the areas and squared lengths that the index computes on 128-bit integers
/// cannot overflow.
pub const COORDINATE_LIMIT: i64 = 1_152_921_504_606_846_976;

/// A position: `x` is the longitude and `y` the latitude.
#[derive(Clone, Copy, Debug, PartialEq, Eq, Structural)]
pub struct Coordinate<T = i64> {
    pub x: T,
    pub y: T,
}

/// The four corners of a box. North corners are expected to lie at a greater
/// latitude than south corners and east corners at a greater longitude than
/// west corners, but nothing enforces it: any four corners are a value.
#[derive(Clone, Copy, Debug, PartialEq, Eq, Structural)]
pub struct BoundingBox<T = i64> {
    pub south_west: Coordinate<T>,
    pub south_east: Coordinate<T>,
    pub north_west: Coordinate<T>,
    pub north_east: Coordinate<T>,
}

/// The corners of a [`BoundingBox`] as points to measure from. A value is
/// derived from a `BoundingBox` or produced by this crate.
#[derive(Clone, Copy, Debug, PartialEq, Eq, Structural)]
pub struct PointBoundingBox<T = i64> {
    pub south_west: Coordinate<T>,
    pub south_east: Coordinate<T>,
    pub north_west: Coordinate<T>,
    pub north_east: Coordinate<T>,
}

/// A side of a box, from one corner to the next.
#[derive(Clone, Copy, Debug, PartialEq, Eq, Structural)]
pub struct Edge<T = i64> {
    pub start: Coordinate<T>,
    pub end: Coordinate<T>,
}

/// The four sides of a box. The width of a box is the length of its north
/// edge, its height the length of its east edge.
#[derive(Clone, Copy, Debug, PartialEq, Eq, Structural)]
pub struct Edges<T = i64> {
    /// From the north-west corner to the north-east corner.
    pub north: Edge<T>,
    /// From the north-east corner to the south-east corner.
    pub east: Edge<T>,
    /// From the south-west corner to the south-east corner.
    pub south: Edge<T>,
    /// From the north-west corner to the south-west corner.
    pub west: Edge<T>,
}

/// The sequence that could not be read as a box, handed back whole.
#[derive(Debug)]
pub struct BoundingBoxConversionError<T = i64> {
    pub bounding_box: Vec<T>,
}

/// The box that a sequence `[south, north, west, east]` describes: two
/// latitudes, then two longitudes. Elements past the fourth are ignored.
pub open spec fn box_of_bounds<T>(v: Seq<T>) -> BoundingBox<T>
    recommends
        v.len() >= 4,
{
    BoundingBox {
        south_west: Coordinate { x: v[2], y: v[0] },
        south_east: Coordinate { x: v[3], y: v[0] },
        north_west: Coordinate { x: v[2], y: v[1] },
        north_east: Coordinate { x: v[3], y: v[1] },
    }
}

/// The closed ring round a box: south-west, south-east, north-east,
/// north-west, and south-west again.
pub open spec fn ring_of<T>(b: BoundingBox<T>) -> Seq<Coordinate<T>> {
    seq![b.south_west, b.south_east, b.north_east, b.north_west, b.south_west]
}

/// The corners of a box as points.
pub open spec fn point_box<T>(b: BoundingBox<T>) -> PointBoundingBox<T> {
    PointBoundingBox {
        south_west: b.south_west,
        south_east: b.south_east,
        north_west: b.north_west,
        north_east: b.north_east,
    }
}

/// Whatever `f` returns for a value is what `g` gives for it.
pub open spec fn computes<T, U, F: Fn(T) -> U>(f: F, g: spec_fn(T) -> U) -> bool {
    forall|v: T, w: U| #[trigger] f.ensures((v,), w) ==> w == g(v)
}

/// The corner with the lesser longitude and the lesser latitude of two points.
pub open spec fn lower_corner(a: Coordinate, b: Coordinate) -> Coordinate {
    Coordinate { x: if a.x < b.x { a.x } else { b.x }, y: if a.y < b.y { a.y } else { b.y } }
}

/// The corner with the greater longitude and the greater latitude of two points.
pub open spec fn upper_corner(a: Coordinate, b: Coordinate) -> Coordinate {
    Coordinate { x: if a.x < b.x { b.x } else { a.x }, y: if a.y < b.y { b.y } else { a.y } }
}

impl<T> Coordinate<T> {
    /// The coordinate with `f` applied to both components.
    pub open spec fn spec_map<U>(self, f: spec_fn(T) -> U) -> Coordinate<U> {
        Coordinate { x: f(self.x), y: f(self.y) }
    }

    /// Applies `f` to the longitude, then to the latitude. Rounding a
    /// coordinate to a number of decimal places is such a map, and so is the
    /// change between degrees and steps.
    pub fn map<U, F: Fn(T) -> U>(self, f: F) -> (r: Coordinate<U>)
        requires
            f.requires((self.x,)),
            f.requires((self.y,)),
        ensures
            f.ensures((self.x,), r.x),
            f.ensures((self.y,), r.y),
            forall|g: spec_fn(T) -> U| #[trigger] computes(f, g) ==> r == self.spec_map(g),
    {
        let x = f(self.x);
        let y = f(self.y);
        Coordinate { x, y }
    }
}

impl<T: Copy> Coordinate<T> {
    /// The latitude.
    pub fn lat(&self) -> (r: T)
        ensures
            r == self.y,
    {
        self.y
    }

    /// The longitude.
    pub fn lon(&self) -> (r: T)
        ensures
            r == self.x,
    {
        self.x
    }
}

impl Coordinate {
    /// Both components lie within [`COORDINATE_LIMIT`] of zero.
    pub open spec fn in_range(&self) -> bool {
        &&& -COORDINATE_LIMIT <= self.x <= COORDINATE_LIMIT
        &&& -COORDINATE_LIMIT <= self.y <= COORDINATE_LIMIT
    }

    /// Tests [`Coordinate::in_range`].
    pub fn is_in_range(&self) -> (r: bool)
        ensures
            r == self.in_range(),
    {
        -COORDINATE_LIMIT <= self.x && self.x <= COORDINATE_LIMIT && -COORDINATE_LIMIT <= self.y
            && self.y <= COORDINATE_LIMIT
    }
}

impl<T> BoundingBox<T> {
    /// The box with `f` applied to every component of every corner.
    pub open spec fn spec_map<U>(self, f: spec_fn(T) -> U) -> BoundingBox<U> {
        BoundingBox {
            south_west: self.south_west.spec_map(f),
            south_east: self.south_east.spec_map(f),
            north_west: self.north_west.spec_map(f),
            north_east: self.north_east.spec_map(f),
        }
    }

    /// `f` may be called on every component of every corner.
    pub open spec fn admits<U, F: Fn(T) -> U>(self, f: F) -> bool {
        &&& f.requires((self.south_west.x,))
        &&& f.requires((self.south_west.y,))
        &&& f.requires((self.south_east.x,))
        &&& f.requires((self.south_east.y,))
        &&& f.requires((self.north_west.x,))
        &&& f.requires((self.north_west.y,))
        &&& f.requires((self.north_east.x,))
        &&& f.requires((self.north_east.y,))
    }

    /// Every component of `r` is what `f` returned for the same component of
    /// `self`.
    pub open spec fn mapped_by<U, F: Fn(T) -> U>(self, f: F, r: BoundingBox<U>) -> bool {
        &&& f.ensures((self.south_west.x,), r.south_west.x)
        &&& f.ensures((self.south_west.y,), r.south_west.y)
        &&& f.ensures((self.south_east.x,), r.south_east.x)
        &&& f.ensures((self.south_east.y,), r.south_east.y)
        &&& f.ensures((self.north_west.x,), r.north_west.x)
        &&& f.ensures((self.north_west.y,), r.north_west.y)
        &&& f.ensures((self.north_east.x,), r.north_east.x)
        &&& f.ensures((self.north_east.y,), r.north_east.y)
    }

    /// Applies `f` to all four corners, component by component.
    pub fn map<U, F: Fn(T) -> U>(self, f: F) -> (r: BoundingBox<U>)
        requires
            self.admits(f),
        ensures
            self.mapped_by(f, r),
            forall|g: spec_fn(T) -> U| #[trigger] computes(f, g) ==> r == self.spec_map(g),
    {
        let north_west = self.north_west.map(&f);
        let north_east = self.north_east.map(&f);
        let south_east = self.south_east.map(&f);
        let south_west = self.south_west.map(&f);
        BoundingBox { south_west, south_east, north_west, north_east }
    }
}

impl BoundingBox {
    /// The two corners that span the box's rectangle, north-west and
    /// south-east, are in range.
    pub open spec fn in_range(&self) -> bool {
        self.north_west.in_range() && self.south_east.in_range()
    }

    /// Tests [`BoundingBox::in_range`].
    pub fn is_in_range(&self) -> (r: bool)
        ensures
            r == self.in_range(),
    {
        self.north_west.is_in_range() && self.south_east.is_in_range()
    }
}

impl<T> PointBoundingBox<T> {
    /// The box with `f` applied to every component of every corner.
    pub open spec fn spec_map<U>(self, f: spec_fn(T) -> U) -> PointBoundingBox<U> {
        PointBoundingBox {
            south_west: self.south_west.spec_map(f),
            south_east: self.south_east.spec_map(f),
            north_west: self.north_west.spec_map(f),
            north_east: self.north_east.spec_map(f),
        }
    }

    /// `f` may be called on every component of every corner.
    pub open spec fn admits<U, F: Fn(T) -> U>(self, f: F) -> bool {
        &&& f.requires((self.south_west.x,))
        &&& f.requires((self.south_west.y,))
        &&& f.requires((self.south_east.x,))
        &&& f.requires((self.south_east.y,))
        &&& f.requires((self.north_west.x,))
        &&& f.requires((self.north_west.y,))
        &&& f.requires((self.north_east.x,))
        &&& f.requires((self.north_east.y,))
    }

    /// Every component of `r` is what `f` returned for the same component of
    /// `self`.
    pub open spec fn mapped_by<U, F: Fn(T) -> U>(self, f: F, r: PointBoundingBox<U>) -> bool {
        &&& f.ensures((self.south_west.x,), r.south_west.x)
        &&& f.ensures((self.south_west.y,), r.south_west.y)
        &&& f.ensures((self.south_east.x,), r.south_east.x)
        &&& f.ensures((self.south_east.y,), r.south_east.y)
        &&& f.ensures((self.north_west.x,), r.north_west.x)
        &&& f.ensures((self.north_west.y,), r.north_west.y)
        &&& f.ensures((self.north_east.x,), r.north_east.x)
        &&& f.ensures((self.north_east.y,), r.north_east.y)
    }

    /// Applies `f` to all four corners, component by component.
    pub fn map<U, F: Fn(T) -> U>(self, f: F) -> (r: PointBoundingBox<U>)
        requires
            self.admits(f),
        ensures
            self.mapped_by(f, r),
            forall|g: spec_fn(T) -> U| #[trigger] computes(f, g) ==> r == self.spec_map(g),
    {
        let north_west = self.north_west.map(&f);
        let north_east = self.north_east.map(&f);
        let south_west = self.south_west.map(&f);
        let south_east = self.south_east.map(&f);
        PointBoundingBox { south_west, south_east, north_west, north_east }
    }
}

impl<T: Copy> PointBoundingBox<T> {
    /// The four sides of the box.
    pub open spec fn spec_edges(&self) -> Edges<T> {
        Edges {
            north: Edge { start: self.north_west, end: self.north_east },
            east: Edge { start: self.north_east, end: self.south_east },
            south: Edge { start: self.south_west, end: self.south_east },
            west: Edge { start: self.north_west, end: self.south_west },
        }
    }

    /// The four sides of the box, each between the two corners that it is
    /// named after.
    #[verifier::when_used_as_spec(spec_edges)]
    pub fn edges(&self) -> (r: Edges<T>)
        ensures
            r == self.spec_edges(),
    {
        Edges {
            north: Edge { start: self.north_west, end: self.north_east },
            east: Edge { start: self.north_east, end: self.south_east },
            south: Edge { start: self.south_west, end: self.south_east },
            west: Edge { start: self.north_west, end: self.south_west },
        }
    }
}

impl PointBoundingBox {
    /// The two corners that span the box's rectangle, north-west and
    /// south-east, are in range.
    pub open spec fn in_range(&self) -> bool {
        self.north_west.in_range() && self.south_east.in_range()
    }

    /// Tests [`PointBoundingBox::in_range`].
    pub fn is_in_range(&self) -> (r: bool)
        ensures
            r == self.in_range(),
    {
        self.north_west.is_in_range() && self.south_east.is_in_range()
    }

    /// The point lies strictly inside the rectangle between the north-west and
    /// the south-east corner, in whichever order they come. A point on the
    /// boundary is not inside, so a rectangle without interior contains nothing.
    pub open spec fn spec_contains(&self, point: Coordinate) -> bool {
        let lower = lower_corner(self.north_west, self.south_east);
        let upper = upper_corner(self.north_west, self.south_east);
        &&& lower.x < point.x < upper.x
        &&& lower.y < point.y < upper.y
    }

    /// Tests whether the point lies strictly inside the box.
    #[verifier::when_used_as_spec(spec_contains)]
    pub fn contains(&self, point: Coordinate) -> (r: bool)
        ensures
            r == self.spec_contains(point),
    {
        let (min_x, max_x) = if self.north_west.x < self.south_east.x {
            (self.north_west.x, self.south_east.x)
        } else {
            (self.south_east.x, self.north_west.x)
        };
        let (min_y, max_y) = if self.north_west.y < self.south_east.y {
            (self.north_west.y, self.south_east.y)
        } else {
            (self.south_east.y, self.north_west.y)
        };
        point.x > min_x && point.x < max_x && point.y > min_y && point.y < max_y
    }
}

impl<T> From<BoundingBox<T>> for PointBoundingBox<T> {
    /// The same four corners, [`point_box`].
    fn from(b: BoundingBox<T>) -> (r: Self) {
        PointBoundingBox {
            north_east: b.north_east,
            north_west: b.north_west,
            south_east: b.south_east,
            south_west: b.south_west,
        }
    }
}

impl<T> FromSpecImpl<BoundingBox<T>> for PointBoundingBox<T> {
    open spec fn obeys_from_spec() -> bool {
        true
    }

    open spec fn from_spec(b: BoundingBox<T>) -> Self {
        point_box(b)
    }
}

impl<T: Copy> TryFrom<Vec<T>> for BoundingBox<T> {
    type Error = BoundingBoxConversionError<T>;

    /// Reads `[south, north, west, east]` as a box, [`box_of_bounds`]. A
    /// sequence of fewer than four elements is refused and handed back.
    fn try_from(bounding_box: Vec<T>) -> (r: Result<Self, Self::Error>) {
        if bounding_box.len() < 4 {
            return Err(BoundingBoxConversionError { bounding_box });
        }
        let south = bounding_box[0];
        let north = bounding_box[1];
        let west = bounding_box[2];
        let east = bounding_box[3];
        Ok(
            BoundingBox {
                south_west: Coordinate { x: west, y: south },
                south_east: Coordinate { x: east, y: south },
                north_west: Coordinate { x: west, y: north },
                north_east: Coordinate { x: east, y: north },
            },
        )
    }
}

impl<T: Copy> TryFromSpecImpl<Vec<T>> for BoundingBox<T> {
    open spec fn obeys_try_from_spec() -> bool {
        true
    }

    open spec fn try_from_spec(v: Vec<T>) -> Result<Self, Self::Error> {
        if v@.len() < 4 {
            Err(BoundingBoxConversionError { bounding_box: v })
        } else {
            Ok(box_of_bounds(v@))
        }
    }
}

impl<T: Copy> From<BoundingBox<T>> for Vec<Coordinate<T>> {
    /// The closed ring round the box, [`ring_of`].
    fn from(bbox: BoundingBox<T>) -> (r: Self)
        ensures
            r@ == ring_of(bbox),
    {
        let mut ring: Vec<Coordinate<T>> = Vec::new();
        ring.push(bbox.south_west);
        ring.push(bbox.south_east);
        ring.push(bbox.north_east);
        ring.push(bbox.north_west);
        ring.push(bbox.south_west);
        assert(ring@ =~= ring_of(bbox));
        ring
    }
}

/// A vector is known by what it holds, which the conversion itself states;
/// no vector can be named here as the one it returns.
impl<T: Copy> FromSpecImpl<BoundingBox<T>> for Vec<Coordinate<T>> {
    open spec fn obeys_from_spec() -> bool {
        false
    }

    open spec fn from_spec(bbox: BoundingBox<T>) -> Self {
        arbitrary()
    }
}

/// Rounding is idempotent on coordinates and boxes wherever it is on numbers:
/// a map that leaves its own results as they are leaves a mapped coordinate, and
/// a mapped box, as it is.
pub proof fn lemma_map_is_idempotent<T>(
    f: spec_fn(T) -> T,
    coordinate: Coordinate<T>,
    bbox: BoundingBox<T>,
    points: PointBoundingBox<T>,
)
    requires
        forall|v: T| f(#[trigger] f(v)) == f(v),
    ensures
        coordinate.spec_map(f).spec_map(f) == coordinate.spec_map(f),
        bbox.spec_map(f).spec_map(f) == bbox.spec_map(f),
        points.spec_map(f).spec_map(f) == points.spec_map(f),
{
}

} // verus!
