//! The cache engine: insertion, lookup and reset over the rectangle index.

use vstd::prelude::*;
use vstd::multiset::Multiset;
use crate::geometry::point_box;
use crate::geometry::BoundingBox;
use crate::geometry::Coordinate;
use crate::geometry::PointBoundingBox;
use crate::index::entries_of;
use crate::index::entry_covers;
use crate::index::entry_of_corners;
use crate::index::index_entries;
use crate::index::Entry;
use crate::index::Place;
use crate::index::PlaceIndex;

verus! {

/// The decimal places of a cache made without a precision of its own.
pub const DEFAULT_PRECISION: u8 = 5;

/// What an insertion reports when the box went in as it came.
#[derive(Debug)]
pub struct SetNotChanged {
    /// The box that was inserted.
    pub bbox: PointBoundingBox,
    /// A reference point was given and does not lie inside the box.
    pub is_missing_reference_point: bool,
}

/// What an insertion reports when a fitted box went in for the given one.
#[derive(Debug)]
pub struct SetTruncated {
    /// The box as it was given.
    pub old_bbox: PointBoundingBox,
    /// The box that was inserted.
    pub new_bbox: PointBoundingBox,
    /// The reference point does not lie inside the box as it was given.
    pub is_missing_reference_point: bool,
}

/// The report of a size-limited insertion.
#[derive(Debug)]
pub enum BoundingBoxSetResult {
    SetNotChanged(SetNotChanged),
    SetTruncated(SetTruncated),
}

/// The answer of the index to a point.
#[derive(Debug)]
pub enum Lookup {
    /// No region contains the point.
    Absent,
    /// One region contains the point: its payload.
    Found(String),
    /// Two or more regions contain the point: all of them, in the order of
    /// the index, for the caller to measure and hand to [`nearest`].
    Ambiguous(Vec<Place>),
}

/// A region together with the length from the centre of its rectangle to the
/// point that was looked up. The length is a number whose order is the order of
/// the lengths.
#[derive(Debug)]
pub struct Measured {
    pub place: Place,
    pub distance: u64,
}

/// The candidate at `i` wins: none is nearer, and every one before it is
/// farther. Among candidates at the same least distance the first one wins.
pub open spec fn is_nearest(candidates: Seq<Measured>, i: int) -> bool {
    &&& 0 <= i < candidates.len()
    &&& forall|j: int|
        0 <= j < candidates.len() ==> candidates[i].distance <= (#[trigger] candidates[j]).distance
    &&& forall|j: int| 0 <= j < i ==> candidates[i].distance < (#[trigger] candidates[j]).distance
}

/// The index of the winning candidate of a sequence that is not empty.
pub open spec fn nearest_index(candidates: Seq<Measured>) -> int {
    choose|i: int| is_nearest(candidates, i)
}

/// No two candidates win: [`is_nearest`] holds of at most one index.
pub proof fn lemma_nearest_is_unique(candidates: Seq<Measured>, i: int, j: int)
    requires
        is_nearest(candidates, i),
        is_nearest(candidates, j),
    ensures
        i == j,
{
    if i < j {
        assert(candidates[j].distance < candidates[i].distance);
    } else if j < i {
        assert(candidates[i].distance < candidates[j].distance);
    }
}

/// Breaks the tie between regions that all contain the point looked up: the
/// payload of the one whose centre is nearest, and of the first such in the
/// order given where several are equally near. `None` exactly when there is no
/// candidate.
pub fn nearest(candidates: &Vec<Measured>) -> (r: Option<String>)
    ensures
        r is None <==> candidates@.len() == 0,
        r matches Some(data) ==> {
            &&& is_nearest(candidates@, nearest_index(candidates@))
            &&& data@ == candidates@[nearest_index(candidates@)].place.data@
        },
{
    if candidates.len() == 0 {
        return None;
    }
    let mut best: usize = 0;
    let mut i: usize = 1;
    while i < candidates.len()
        invariant
            0 <= best < i <= candidates.len(),
            forall|j: int| 0 <= j < i ==> candidates[best as int].distance <= (#[trigger] candidates[j]).distance,
            forall|j: int| 0 <= j < best ==> candidates[best as int].distance < (#[trigger] candidates[j]).distance,
        decreases candidates.len() - i,
    {
        if candidates[i].distance < candidates[best].distance {
            best = i;
        }
        i += 1;
    }
    proof {
        assert(is_nearest(candidates@, best as int));
        lemma_nearest_is_unique(candidates@, best as int, nearest_index(candidates@));
    }
    Some(candidates[best].place.data.clone())
}

/// The entries among `entries` whose rectangle contains the point, the
/// boundary included.
pub open spec fn covering(entries: Multiset<Entry>, point: Coordinate) -> Multiset<Entry> {
    entries.filter(|e: Entry| entry_covers(e, point))
}

/// The payload of the one entry of `hits`.
pub open spec fn sole_payload(hits: Multiset<Entry>) -> Seq<char>
    recommends
        hits.len() == 1,
{
    hits.choose().2
}

/// A cache without regions contains no point.
pub proof fn lemma_empty_cache_covers_nothing(point: Coordinate)
    ensures
        covering(Multiset::<Entry>::empty(), point).len() == 0,
{
    broadcast use vstd::multiset::group_multiset_axioms;

    assert(covering(Multiset::<Entry>::empty(), point) =~= Multiset::<Entry>::empty());
}

/// A region that was inserted answers for every point of its rectangle, the
/// boundary included; where the cache held nothing else, it is the one answer.
pub proof fn lemma_inserted_region_covers(
    entries: Multiset<Entry>,
    a: Coordinate,
    b: Coordinate,
    data: Seq<char>,
    point: Coordinate,
)
    requires
        entry_covers(entry_of_corners(a, b, data), point),
    ensures
        covering(entries.insert(entry_of_corners(a, b, data)), point) == covering(
            entries,
            point,
        ).insert(entry_of_corners(a, b, data)),
        covering(entries.insert(entry_of_corners(a, b, data)), point).len() == covering(
            entries,
            point,
        ).len() + 1,
        entries.len() == 0 ==> {
            &&& covering(entries.insert(entry_of_corners(a, b, data)), point).len() == 1
            &&& sole_payload(covering(entries.insert(entry_of_corners(a, b, data)), point))
                == data
        },
{
    broadcast use vstd::multiset::group_multiset_axioms;

    let e = entry_of_corners(a, b, data);
    let hits = covering(entries.insert(e), point);
    assert(hits =~= covering(entries, point).insert(e));
    if entries.len() == 0 {
        assert(entries =~= Multiset::<Entry>::empty());
        assert(hits =~= Multiset::singleton(e));
        assert(hits.count(hits.choose()) > 0);
    }
}

/// A region that was inserted changes no answer for a point outside its
/// rectangle.
pub proof fn lemma_insert_elsewhere_keeps_answer(
    entries: Multiset<Entry>,
    a: Coordinate,
    b: Coordinate,
    data: Seq<char>,
    point: Coordinate,
)
    requires
        !entry_covers(entry_of_corners(a, b, data), point),
    ensures
        covering(entries.insert(entry_of_corners(a, b, data)), point) == covering(entries, point),
{
    broadcast use vstd::multiset::group_multiset_axioms;

    assert(covering(entries.insert(entry_of_corners(a, b, data)), point) =~= covering(
        entries,
        point,
    ));
}

/// A point strictly inside a box lies in the rectangle that is inserted for
/// the box: a reference point that is not reported missing is found again.
pub proof fn lemma_contained_point_is_covered(
    bbox: PointBoundingBox,
    data: Seq<char>,
    point: Coordinate,
)
    requires
        bbox.contains(point),
    ensures
        entry_covers(entry_of_corners(bbox.north_west, bbox.south_east, data), point),
{
}

/// A cache of tagged regions at a fixed number of decimal places.
#[derive(Debug)]
pub struct CoordinateCache {
    inner: PlaceIndex,
    precision: u8,
}

impl CoordinateCache {
    /// The regions of the cache, each as often as it was inserted.
    pub closed spec fn entries(&self) -> Multiset<Entry> {
        index_entries(self.inner)
    }

    /// The decimal places of the cache's coordinates.
    pub closed spec fn spec_precision(&self) -> u8 {
        self.precision
    }

    /// An empty cache at [`DEFAULT_PRECISION`].
    pub fn new() -> (cache: Self)
        ensures
            cache.entries() == Multiset::<Entry>::empty(),
            cache.precision() == DEFAULT_PRECISION,
    {
        CoordinateCache { inner: PlaceIndex::new(), precision: DEFAULT_PRECISION }
    }

    /// An empty cache at the given number of decimal places.
    pub fn new_with_precision(precision: u8) -> (cache: Self)
        ensures
            cache.entries() == Multiset::<Entry>::empty(),
            cache.precision() == precision,
    {
        CoordinateCache { inner: PlaceIndex::new(), precision }
    }

    /// The decimal places of the cache's coordinates: one step of a
    /// coordinate is `10^-precision` degrees.
    #[verifier::when_used_as_spec(spec_precision)]
    pub fn precision(&self) -> (r: u8)
        ensures
            r == self.precision(),
    {
        self.precision
    }

    /// Forgets every region. The precision stays.
    pub fn clear(&mut self)
        ensures
            final(self).entries() == Multiset::<Entry>::empty(),
            final(self).precision() == old(self).precision(),
    {
        self.inner = PlaceIndex::new();
    }

    /// Inserts the rectangle between the box's north-west and south-east
    /// corners with `data` as its payload. Nothing that the cache held changes
    /// or leaves, and a box that is already there is held once more. The report
    /// says whether a reference point was given that does not lie inside the
    /// box.
    pub fn set(&mut self, data: String, bbox: BoundingBox, reference_point: Option<Coordinate>) -> (r:
        SetNotChanged)
        requires
            bbox.in_range(),
        ensures
            final(self).entries() == old(self).entries().insert(
                entry_of_corners(bbox.north_west, bbox.south_east, data@),
            ),
            final(self).precision() == old(self).precision(),
            r.bbox == point_box(bbox),
            r.is_missing_reference_point == match reference_point {
                Some(c) => !point_box(bbox).contains(c),
                None => false,
            },
    {
        let bbox = PointBoundingBox::from(bbox);
        let is_missing_reference_point = match reference_point {
            Some(c) => !bbox.contains(c),
            None => false,
        };
        let place = Place::new(bbox.north_west, bbox.south_east, data);
        self.inner.insert(place);
        SetNotChanged { bbox, is_missing_reference_point }
    }

    /// Inserts `fitted` where there is one, and the box as it was given
    /// otherwise, with `data` as its payload. `fitted` is the box that the
    /// caller shrank round the reference point because a side of the given box
    /// was longer than allowed (see [`needs_fitting`](crate::fitter::needs_fitting)).
    /// Either way the report says whether the reference point lies outside the
    /// box as it was given.
    pub fn set_with_max_len(
        &mut self,
        data: String,
        bbox: BoundingBox,
        reference_point: Coordinate,
        fitted: Option<PointBoundingBox>,
    ) -> (r: BoundingBoxSetResult)
        requires
            match fitted {
                Some(new_bbox) => new_bbox.in_range(),
                None => bbox.in_range(),
            },
        ensures
            final(self).precision() == old(self).precision(),
            final(self).entries() == old(self).entries().insert(
                match fitted {
                    Some(new_bbox) => entry_of_corners(
                        new_bbox.north_west,
                        new_bbox.south_east,
                        data@,
                    ),
                    None => entry_of_corners(bbox.north_west, bbox.south_east, data@),
                },
            ),
            r == match fitted {
                Some(new_bbox) => BoundingBoxSetResult::SetTruncated(
                    SetTruncated {
                        old_bbox: point_box(bbox),
                        new_bbox,
                        is_missing_reference_point: !point_box(bbox).contains(
                            reference_point,
                        ),
                    },
                ),
                None => BoundingBoxSetResult::SetNotChanged(
                    SetNotChanged {
                        bbox: point_box(bbox),
                        is_missing_reference_point: !point_box(bbox).contains(
                            reference_point,
                        ),
                    },
                ),
            },
    {
        let bbox = PointBoundingBox::from(bbox);
        let is_missing_reference_point = !bbox.contains(reference_point);
        match fitted {
            Some(new_bbox) => {
                let place = Place::new(new_bbox.north_west, new_bbox.south_east, data);
                self.inner.insert(place);
                BoundingBoxSetResult::SetTruncated(
                    SetTruncated { old_bbox: bbox, new_bbox, is_missing_reference_point },
                )
            },
            None => {
                let place = Place::new(bbox.north_west, bbox.south_east, data);
                self.inner.insert(place);
                BoundingBoxSetResult::SetNotChanged(
                    SetNotChanged { bbox, is_missing_reference_point },
                )
            },
        }
    }

    /// Looks the point up. The answer is [`Lookup::Absent`] exactly when no
    /// region contains the point, [`Lookup::Found`] with the payload exactly
    /// when one does, and otherwise [`Lookup::Ambiguous`] with every region that
    /// does.
    pub fn get(&self, coordinate: Coordinate) -> (r: Lookup)
        ensures
            r is Absent <==> covering(self.entries(), coordinate).len() == 0,
            r is Found <==> covering(self.entries(), coordinate).len() == 1,
            r is Ambiguous <==> covering(self.entries(), coordinate).len() >= 2,
            r matches Lookup::Found(data) ==> data@ == sole_payload(
                covering(self.entries(), coordinate),
            ),
            r matches Lookup::Ambiguous(places) ==> entries_of(places@) == covering(
                self.entries(),
                coordinate,
            ),
    {
        broadcast use vstd::multiset::group_multiset_axioms;
        broadcast use vstd::seq_lib::group_to_multiset_ensures;

        let mut found = self.inner.locate_all_at_point(coordinate);
        assert(entries_of(found@) =~= covering(self.entries(), coordinate));
        assert(entries_of(found@).len() == found@.len());
        if found.len() == 0 {
            Lookup::Absent
        } else if found.len() == 1 {
            let ghost only = found@[0];
            let place = found.pop().unwrap();
            proof {
                let hits = covering(self.entries(), coordinate);
                assert(hits.count(hits.choose()) > 0);
                assert(hits.count(only@) > 0);
            }
            Lookup::Found(place.data)
        } else {
            Lookup::Ambiguous(found)
        }
    }
}

impl Default for CoordinateCache {
    fn default() -> (cache: Self)
        ensures
            cache.entries() == Multiset::<Entry>::empty(),
            cache.precision() == DEFAULT_PRECISION,
    {
        CoordinateCache::new()
    }
}

} // verus!
