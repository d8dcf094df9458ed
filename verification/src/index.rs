//! The rectangle index: an R*-tree of tagged rectangles, and what it holds.

use vstd::prelude::*;
use vstd::multiset::Multiset;
use rstar::primitives::GeomWithData;
use rstar::primitives::Rectangle;
use rstar::RTree;
use crate::geometry::lower_corner;
use crate::geometry::upper_corner;
use crate::geometry::Coordinate;

verus! {

/// What the index holds of one rectangle: its lower corner, its upper corner
/// (each as longitude and latitude) and its payload.
pub type Entry = ((i64, i64), (i64, i64), Seq<char>);

/// The entry of the rectangle spanned by two opposite corners, in either order.
pub open spec fn entry_of_corners(a: Coordinate, b: Coordinate, data: Seq<char>) -> Entry {
    let lower = lower_corner(a, b);
    let upper = upper_corner(a, b);
    ((lower.x, lower.y), (upper.x, upper.y), data)
}

/// The point lies in the entry's rectangle, the boundary included.
pub open spec fn entry_covers(e: Entry, point: Coordinate) -> bool {
    &&& e.0.0 <= point.x <= e.1.0
    &&& e.0.1 <= point.y <= e.1.1
}

/// A rectangle tagged with a payload.
#[derive(Debug)]
pub struct Place {
    pub lower: Coordinate,
    pub upper: Coordinate,
    pub data: String,
}

impl View for Place {
    type V = Entry;

    open spec fn view(&self) -> Entry {
        ((self.lower.x, self.lower.y), (self.upper.x, self.upper.y), self.data@)
    }
}

impl Place {
    /// The lower corner is nowhere beyond the upper one.
    pub open spec fn wf(&self) -> bool {
        &&& self.lower.x <= self.upper.x
        &&& self.lower.y <= self.upper.y
    }

    /// The rectangle between two opposite corners, tagged with `name`. The
    /// corners may come in any order: an inverted box gives the same rectangle
    /// as the upright one, and equal corners give a single point.
    pub fn new(north_west: Coordinate, south_east: Coordinate, name: String) -> (place: Place)
        ensures
            place@ == entry_of_corners(north_west, south_east, name@),
            place.wf(),
            north_west.in_range() && south_east.in_range() ==> place.lower.in_range()
                && place.upper.in_range(),
    {
        let (min_x, max_x) = if north_west.x < south_east.x {
            (north_west.x, south_east.x)
        } else {
            (south_east.x, north_west.x)
        };
        let (min_y, max_y) = if north_west.y < south_east.y {
            (north_west.y, south_east.y)
        } else {
            (south_east.y, north_west.y)
        };
        Place {
            lower: Coordinate { x: min_x, y: min_y },
            upper: Coordinate { x: max_x, y: max_y },
            data: name,
        }
    }
}

/// The entries of a sequence of places, without their order.
pub open spec fn entries_of(places: Seq<Place>) -> Multiset<Entry> {
    places.map_values(|p: Place| p@).to_multiset()
}

/// An R*-tree of rectangles, each tagged with a string: an `rstar::RTree`.
/// The tree keeps its coordinates as 128-bit integers, so that what it
/// computes on coordinates within [`COORDINATE_LIMIT`] cannot overflow. Nothing
/// inside it is visible to the proofs; [`index_entries`] names what it holds.
///
/// [`COORDINATE_LIMIT`]: crate::geometry::COORDINATE_LIMIT
#[verifier::external_body]
#[derive(Debug)]
pub struct PlaceIndex {
    inner: RTree<GeomWithData<Rectangle<(i128, i128)>, String>>,
}

/// The rectangles that an index holds, each as often as it was inserted and
/// with its corners ordered.
pub uninterp spec fn index_entries(index: PlaceIndex) -> Multiset<Entry>;

impl PlaceIndex {
    /// `rstar::RTree::new`: the tree it makes holds nothing.
    #[verifier::external_body]
    pub(crate) fn new() -> (index: PlaceIndex)
        ensures
            index_entries(index) == Multiset::<Entry>::empty(),
    {
        PlaceIndex { inner: RTree::new() }
    }

    /// `rstar::RTree::insert` of the `Rectangle::from_corners` of the place's
    /// corners with the place's payload: the tree then holds that rectangle
    /// once more and everything it held before. `from_corners` orders the
    /// corners by component. The tree computes areas and squared lengths of what
    /// it holds, which is why the corners must be in range.
    #[verifier::external_body]
    pub(crate) fn insert(&mut self, place: Place)
        requires
            place.lower.in_range(),
            place.upper.in_range(),
        ensures
            index_entries(*final(self)) == index_entries(*old(self)).insert(
                entry_of_corners(place.lower, place.upper, place.data@),
            ),
    {
        let lower = (i128::from(place.lower.x), i128::from(place.lower.y));
        let upper = (i128::from(place.upper.x), i128::from(place.upper.y));
        self.inner.insert(GeomWithData::new(Rectangle::from_corners(lower, upper), place.data));
    }

    /// `rstar::RTree::locate_all_at_point`: every rectangle of the tree that
    /// contains the point, the boundary included, as often as the tree holds
    /// it, and no other. The order in which they come is the tree's own.
    #[verifier::external_body]
    pub(crate) fn locate_all_at_point(&self, point: Coordinate) -> (found: Vec<Place>)
        ensures
            forall|e: Entry| #[trigger]
                entries_of(found@).count(e) == if entry_covers(e, point) {
                    index_entries(*self).count(e)
                } else {
                    0
                },
    {
        self.inner.locate_all_at_point(&(i128::from(point.x), i128::from(point.y))).map(
            |g| {
                let (lower, upper) = (g.geom().lower(), g.geom().upper());
                Place {
                    lower: Coordinate { x: lower.0 as i64, y: lower.1 as i64 },
                    upper: Coordinate { x: upper.0 as i64, y: upper.1 as i64 },
                    data: g.data.clone(),
                }
            },
        ).collect()
    }
}

} // verus!
