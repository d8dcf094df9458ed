use rtree_cache::cache::{
    nearest, BoundingBoxSetResult, CoordinateCache, Lookup, Measured, DEFAULT_PRECISION,
};
use rtree_cache::geometry::{BoundingBox, Coordinate, PointBoundingBox, COORDINATE_LIMIT};
use rtree_cache::index::Place;

fn corner(x: i64, y: i64) -> Coordinate {
    Coordinate { x, y }
}

fn square(west: i64, south: i64, side: i64) -> BoundingBox {
    BoundingBox::try_from(vec![south, south + side, west, west + side]).unwrap()
}

fn payloads(answer: Lookup) -> Vec<String> {
    let mut all: Vec<String> = match answer {
        Lookup::Absent => Vec::new(),
        Lookup::Found(data) => vec![data],
        Lookup::Ambiguous(places) => {
            assert!(places.len() >= 2);
            places.into_iter().map(|p| p.data).collect()
        }
    };
    all.sort();
    all
}

fn measured(data: &str, distance: u64) -> Measured {
    Measured { place: Place::new(corner(0, 0), corner(1, 1), data.to_string()), distance }
}

#[test]
fn new_cache_is_empty_at_five_places() {
    let cache = CoordinateCache::new();
    assert_eq!(DEFAULT_PRECISION, 5);
    assert_eq!(cache.precision(), 5);
    assert!(matches!(cache.get(corner(0, 0)), Lookup::Absent));
    let cache = CoordinateCache::default();
    assert_eq!(cache.precision(), 5);
    assert!(matches!(cache.get(corner(0, 0)), Lookup::Absent));
}

#[test]
fn precision_is_kept_as_given() {
    for places in [0u8, 1, 5, 9, 255] {
        let mut cache = CoordinateCache::new_with_precision(places);
        assert_eq!(cache.precision(), places);
        cache.set("a".to_string(), square(0, 0, 10), None);
        assert_eq!(cache.precision(), places);
        cache.clear();
        assert_eq!(cache.precision(), places);
    }
}

#[test]
fn place_orders_its_corners() {
    let place = Place::new(corner(0, 10), corner(20, 0), "upright".to_string());
    assert_eq!(place.lower, corner(0, 0));
    assert_eq!(place.upper, corner(20, 10));
    assert_eq!(place.data, "upright");
    let place = Place::new(corner(20, 0), corner(0, 10), "inverted".to_string());
    assert_eq!(place.lower, corner(0, 0));
    assert_eq!(place.upper, corner(20, 10));
    let place = Place::new(corner(7, 3), corner(7, 3), "point".to_string());
    assert_eq!(place.lower, corner(7, 3));
    assert_eq!(place.upper, corner(7, 3));
}

#[test]
fn lookup_includes_the_boundary() {
    let mut cache = CoordinateCache::new();
    cache.set("box".to_string(), square(0, 0, 10), None);
    for point in [corner(0, 0), corner(10, 10), corner(0, 10), corner(10, 0), corner(5, 0), corner(5, 5)] {
        assert_eq!(payloads(cache.get(point)), vec!["box".to_string()]);
    }
    for point in [corner(-1, 0), corner(11, 10), corner(5, 11), corner(5, -1)] {
        assert!(matches!(cache.get(point), Lookup::Absent));
    }
}

#[test]
fn set_reports_the_box_and_the_missing_reference() {
    let mut cache = CoordinateCache::new();
    let bbox = square(0, 0, 10);
    let report = cache.set("a".to_string(), bbox, Some(corner(5, 5)));
    assert_eq!(report.bbox, PointBoundingBox::from(bbox));
    assert!(!report.is_missing_reference_point);
    let report = cache.set("a".to_string(), bbox, Some(corner(10, 5)));
    assert!(report.is_missing_reference_point);
    let report = cache.set("a".to_string(), bbox, Some(corner(50, 5)));
    assert!(report.is_missing_reference_point);
    let report = cache.set("a".to_string(), bbox, None);
    assert!(!report.is_missing_reference_point);
}

#[test]
fn set_takes_the_rectangle_between_north_west_and_south_east() {
    let mut cache = CoordinateCache::new();
    let bbox = BoundingBox {
        south_west: corner(1000, 1000),
        south_east: corner(20, 0),
        north_west: corner(0, 10),
        north_east: corner(-1000, -1000),
    };
    cache.set("spanned".to_string(), bbox, None);
    assert_eq!(payloads(cache.get(corner(20, 10))), vec!["spanned".to_string()]);
    assert!(matches!(cache.get(corner(1000, 1000)), Lookup::Absent));
    assert!(matches!(cache.get(corner(-1000, -1000)), Lookup::Absent));
}

#[test]
fn inverted_and_degenerate_boxes_are_accepted() {
    let mut cache = CoordinateCache::new();
    cache.set("inverted".to_string(), BoundingBox::try_from(vec![10, 0, 20, 0]).unwrap(), None);
    assert_eq!(payloads(cache.get(corner(10, 5))), vec!["inverted".to_string()]);
    cache.set("point".to_string(), BoundingBox::try_from(vec![50, 50, 70, 70]).unwrap(), None);
    assert_eq!(payloads(cache.get(corner(70, 50))), vec!["point".to_string()]);
    assert!(matches!(cache.get(corner(70, 51)), Lookup::Absent));
}

#[test]
fn equal_boxes_are_all_kept() {
    let mut cache = CoordinateCache::new();
    cache.set("twin".to_string(), square(0, 0, 10), None);
    cache.set("twin".to_string(), square(0, 0, 10), None);
    cache.set("other".to_string(), square(0, 0, 10), None);
    assert_eq!(
        payloads(cache.get(corner(5, 5))),
        vec!["other".to_string(), "twin".to_string(), "twin".to_string()]
    );
}

#[test]
fn ambiguous_answer_holds_every_region_at_the_point() {
    let mut cache = CoordinateCache::new();
    cache.set("a".to_string(), square(0, 0, 10), None);
    cache.set("b".to_string(), square(5, 5, 10), None);
    cache.set("c".to_string(), square(100, 100, 10), None);
    match cache.get(corner(7, 7)) {
        Lookup::Ambiguous(mut places) => {
            places.sort_by(|l, r| l.data.cmp(&r.data));
            assert_eq!(places.len(), 2);
            assert_eq!((places[0].lower, places[0].upper), (corner(0, 0), corner(10, 10)));
            assert_eq!(places[0].data, "a");
            assert_eq!((places[1].lower, places[1].upper), (corner(5, 5), corner(15, 15)));
            assert_eq!(places[1].data, "b");
        }
        other => panic!("unexpected answer: {:?}", other),
    }
    assert_eq!(payloads(cache.get(corner(2, 2))), vec!["a".to_string()]);
    assert_eq!(payloads(cache.get(corner(12, 12))), vec!["b".to_string()]);
    assert_eq!(payloads(cache.get(corner(105, 105))), vec!["c".to_string()]);
    assert!(matches!(cache.get(corner(50, 50)), Lookup::Absent));
}

#[test]
fn many_regions_are_all_found_again() {
    let mut cache = CoordinateCache::new();
    for i in 0..400i64 {
        let west = (i % 20) * 100;
        let south = (i / 20) * 100;
        cache.set(format!("cell {}", i), square(west, south, 50), None);
    }
    cache.set("everything".to_string(), square(-10, -10, 3000), None);
    for i in 0..400i64 {
        let point = corner((i % 20) * 100 + 25, (i / 20) * 100 + 25);
        let mut expected = vec![format!("cell {}", i), "everything".to_string()];
        expected.sort();
        assert_eq!(payloads(cache.get(point)), expected);
        let gap = corner((i % 20) * 100 + 75, (i / 20) * 100 + 75);
        assert_eq!(payloads(cache.get(gap)), vec!["everything".to_string()]);
    }
    cache.clear();
    for i in 0..400i64 {
        let point = corner((i % 20) * 100 + 25, (i / 20) * 100 + 25);
        assert!(matches!(cache.get(point), Lookup::Absent));
    }
}

#[test]
fn regions_at_the_limit_of_the_range_are_indexed() {
    let mut cache = CoordinateCache::new_with_precision(16);
    let limit = COORDINATE_LIMIT;
    let step = limit / 8;
    let mut count = 0;
    for i in -8..8i64 {
        for j in -8..8i64 {
            let bbox = BoundingBox::try_from(vec![j * step, (j + 1) * step, i * step, (i + 1) * step])
                .unwrap();
            assert!(bbox.is_in_range());
            cache.set(format!("{} {}", i, j), bbox, None);
            count += 1;
        }
    }
    assert_eq!(count, 256);
    let whole = BoundingBox::try_from(vec![-limit, limit, -limit, limit]).unwrap();
    cache.set("whole".to_string(), whole, None);
    let corner_point = BoundingBox::try_from(vec![limit, limit, limit, limit]).unwrap();
    cache.set("corner".to_string(), corner_point, None);
    let mut expected = vec!["7 7".to_string(), "corner".to_string(), "whole".to_string()];
    expected.sort();
    assert_eq!(payloads(cache.get(corner(limit, limit))), expected);
    let mut expected = vec!["-8 -8".to_string(), "whole".to_string()];
    expected.sort();
    assert_eq!(payloads(cache.get(corner(-limit, -limit))), expected);
    let mut expected = vec!["0 0".to_string(), "whole".to_string()];
    expected.sort();
    assert_eq!(payloads(cache.get(corner(step / 2, step / 2))), expected);
    assert!(matches!(cache.get(corner(i64::MAX, i64::MAX)), Lookup::Absent));
    assert!(matches!(cache.get(corner(i64::MIN, 0)), Lookup::Absent));
}

#[test]
fn fitted_box_goes_in_for_the_given_one() {
    let mut cache = CoordinateCache::new();
    let bbox = square(0, 0, 1000);
    let fitted = PointBoundingBox::from(square(400, 400, 100));
    let result = cache.set_with_max_len("fitted".to_string(), bbox, corner(450, 450), Some(fitted));
    match result {
        BoundingBoxSetResult::SetTruncated(report) => {
            assert_eq!(report.old_bbox, PointBoundingBox::from(bbox));
            assert_eq!(report.new_bbox, fitted);
            assert!(!report.is_missing_reference_point);
        }
        other => panic!("unexpected report: {:?}", other),
    }
    assert_eq!(payloads(cache.get(corner(450, 450))), vec!["fitted".to_string()]);
    assert!(matches!(cache.get(corner(10, 10)), Lookup::Absent));
}

#[test]
fn missing_reference_is_judged_by_the_given_box() {
    let mut cache = CoordinateCache::new();
    let bbox = square(0, 0, 1000);
    let fitted = PointBoundingBox::from(square(400, 400, 100));
    let result = cache.set_with_max_len("a".to_string(), bbox, corner(10, 10), Some(fitted));
    match result {
        BoundingBoxSetResult::SetTruncated(report) => assert!(!report.is_missing_reference_point),
        other => panic!("unexpected report: {:?}", other),
    }
    let result = cache.set_with_max_len("b".to_string(), bbox, corner(2000, 10), Some(fitted));
    match result {
        BoundingBoxSetResult::SetTruncated(report) => assert!(report.is_missing_reference_point),
        other => panic!("unexpected report: {:?}", other),
    }
}

#[test]
fn unfitted_box_goes_in_as_given() {
    let mut cache = CoordinateCache::new();
    let bbox = square(0, 0, 1000);
    let result = cache.set_with_max_len("whole".to_string(), bbox, corner(1000, 10), None);
    match result {
        BoundingBoxSetResult::SetNotChanged(report) => {
            assert_eq!(report.bbox, PointBoundingBox::from(bbox));
            assert!(report.is_missing_reference_point);
        }
        other => panic!("unexpected report: {:?}", other),
    }
    assert_eq!(payloads(cache.get(corner(10, 10))), vec!["whole".to_string()]);
}

#[test]
fn nearest_of_nothing_is_nothing() {
    assert_eq!(nearest(&Vec::new()), None);
}

#[test]
fn nearest_is_the_least_distance() {
    let candidates = vec![measured("far", 7), measured("near", 3), measured("middle", 5)];
    assert_eq!(nearest(&candidates), Some("near".to_string()));
    assert_eq!(nearest(&vec![measured("only", u64::MAX)]), Some("only".to_string()));
}

#[test]
fn nearest_among_equals_is_the_first() {
    let candidates = vec![measured("far", 7), measured("first", 3), measured("second", 3)];
    assert_eq!(nearest(&candidates), Some("first".to_string()));
    let candidates = vec![measured("first", 3), measured("second", 3), measured("far", 7)];
    assert_eq!(nearest(&candidates), Some("first".to_string()));
    let candidates = vec![measured("a", 0), measured("b", 0)];
    assert_eq!(nearest(&candidates), Some("a".to_string()));
}
