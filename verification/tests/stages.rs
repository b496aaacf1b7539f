//! Tests of the individual pipeline stages: the area measure, the filter
//! variants, the filter chain, target selection, and the geometry
//! normalizer.

use ferrovision::filter_chain::apply_filters;
use ferrovision::geometry::normalize_center;
use ferrovision::modules::ContourArea;
use ferrovision::modules::Filter;
use ferrovision::modules::FilterModule;
use ferrovision::modules::PercentFilled;
use ferrovision::selection::select_targets;
use ferrovision::tracking::OrientedRect;
use ferrovision::tracking::Point;
use ferrovision::tracking::Rect;
use ferrovision::tracking::TrackingData;
use ferrovision::tracking::contour_area2;

fn square_contour(x: i32, y: i32, side: i32) -> Vec<Point> {
    vec![
        Point { x, y },
        Point { x: x + side, y },
        Point { x: x + side, y: y + side },
        Point { x, y: y + side },
    ]
}

fn square_object(x: i32, y: i32, side: i32) -> TrackingData {
    TrackingData {
        cnt: square_contour(x, y, side),
        hull: square_contour(x, y, side),
        rect: OrientedRect {
            center_x_milli: (x as i64) * 1000 + (side as i64) * 500,
            center_y_milli: (y as i64) * 1000 + (side as i64) * 500,
            width_milli: (side as i64) * 1000,
            height_milli: (side as i64) * 1000,
            angle_milli_deg: 0,
        },
        bounding: Rect { x, y, width: side, height: side },
    }
}

#[test]
fn area_of_square() {
    // A 4-by-4 square has area 16, so the doubled area is 32.
    let pts = square_contour(0, 0, 4);
    assert_eq!(contour_area2(&pts), 32);
}

#[test]
fn area_of_triangle() {
    // The right triangle (0,0) (4,0) (0,4) has area 8: doubled area 16,
    // whatever the orientation of the boundary.
    let tri = vec![Point { x: 0, y: 0 }, Point { x: 4, y: 0 }, Point { x: 0, y: 4 }];
    assert_eq!(contour_area2(&tri), 16);
    let tri_cw = vec![Point { x: 0, y: 0 }, Point { x: 0, y: 4 }, Point { x: 4, y: 0 }];
    assert_eq!(contour_area2(&tri_cw), 16);
}

#[test]
fn area_of_empty_and_degenerate() {
    let empty: Vec<Point> = vec![];
    assert_eq!(contour_area2(&empty), 0);
    let line = vec![Point { x: 1, y: 1 }, Point { x: 9, y: 9 }];
    assert_eq!(contour_area2(&line), 0);
}

#[test]
fn contour_area_filter_exact_boundary() {
    // A 40-by-40 hull on a 640-by-480 frame covers 1600 of 307200 pixels:
    // 0.52083...%.  A lower bound of 0.5% lets it pass; 0.6% rejects it.
    let obj = square_object(300, 220, 40);
    let passing = ContourArea::new(500, 20_000, 640, 480);
    assert!(passing.run(&obj));
    let reject_low = ContourArea::new(600, 20_000, 640, 480);
    assert!(!reject_low.run(&obj));
    // The share must lie strictly below the upper bound too.
    let reject_high = ContourArea::new(100, 500, 640, 480);
    assert!(!reject_high.run(&obj));
}

#[test]
fn percent_filled_filter_full_square() {
    // A square contour fills its minimum-area rectangle completely: the
    // share is exactly 100%, strictly between 50% and 110%, but not
    // strictly above a 100% lower bound.
    let obj = square_object(10, 10, 40);
    let passing = PercentFilled::new(50_000, 110_000);
    assert!(passing.run(&obj));
    let reject = PercentFilled::new(100_000, 110_000);
    assert!(!reject.run(&obj));
}

#[test]
fn percent_filled_degenerate_rectangle_rejects() {
    let mut obj = square_object(10, 10, 40);
    obj.rect.width_milli = 0;
    let f = PercentFilled::new(0, 1_000_000);
    assert!(!f.run(&obj));
}

#[test]
fn filter_chain_narrows_in_order() {
    // The 40-square passes both filters; the 4-square fails the area
    // bound; a 300-square fails the upper area bound.
    let objects = vec![square_object(0, 0, 4), square_object(300, 220, 40), square_object(0, 0, 300)];
    let filters = vec![
        Filter::ContourArea(ContourArea::new(100, 20_000, 640, 480)),
        Filter::PercentFilled(PercentFilled::new(50_000, 110_000)),
    ];
    let kept = apply_filters(objects, &filters);
    assert_eq!(kept.len(), 1);
    assert_eq!(kept[0].bounding.x, 300);
    assert_eq!(kept[0].bounding.y, 220);
}

#[test]
fn filter_chain_order_has_no_effect_on_survivors() {
    let make = || {
        vec![
            square_object(0, 0, 4),
            square_object(300, 220, 40),
            square_object(50, 60, 80),
            square_object(0, 0, 300),
        ]
    };
    let a = Filter::ContourArea(ContourArea::new(100, 20_000, 640, 480));
    let b = Filter::PercentFilled(PercentFilled::new(50_000, 110_000));
    let ab = apply_filters(make(), &vec![a, b]);
    let ba = apply_filters(make(), &vec![b, a]);
    assert_eq!(ab.len(), ba.len());
    for (x, y) in ab.iter().zip(ba.iter()) {
        assert_eq!(x.bounding, y.bounding);
    }
}

#[test]
fn empty_chain_keeps_everything() {
    let objects = vec![square_object(0, 0, 4), square_object(5, 5, 8)];
    let kept = apply_filters(objects, &vec![]);
    assert_eq!(kept.len(), 2);
    assert_eq!(kept[0].bounding.x, 0);
    assert_eq!(kept[1].bounding.x, 5);
}

#[test]
fn selection_takes_largest_descending() {
    // Areas: 80-square (6400) > 40-square (1600) > 20-square (400); the
    // input order is scrambled, so an unsorted selection would fail.
    let objects = vec![square_object(1, 2, 20), square_object(3, 4, 80), square_object(5, 6, 40)];
    let (selected, sx, sy) = select_targets(objects, 2);
    assert_eq!(selected.len(), 2);
    assert_eq!(selected[0].bounding, Rect { x: 3, y: 4, width: 80, height: 80 });
    assert_eq!(selected[1].bounding, Rect { x: 5, y: 6, width: 40, height: 40 });
    assert_eq!(sx, 3 + 5);
    assert_eq!(sy, 4 + 6);
}

#[test]
fn selection_with_fewer_candidates_than_n() {
    let objects = vec![square_object(7, 8, 10)];
    let (selected, sx, sy) = select_targets(objects, 5);
    assert_eq!(selected.len(), 1);
    assert_eq!(sx, 7);
    assert_eq!(sy, 8);
}

#[test]
fn selection_of_empty_pool_is_zero() {
    let (selected, sx, sy) = select_targets(vec![], 3);
    assert_eq!(selected.len(), 0);
    assert_eq!(sx, 0);
    assert_eq!(sy, 0);
}

#[test]
fn selection_breaks_ties_arbitrarily_but_counts_right() {
    let objects = vec![square_object(1, 1, 30), square_object(2, 2, 30), square_object(3, 3, 30)];
    let (selected, sx, sy) = select_targets(objects, 2);
    assert_eq!(selected.len(), 2);
    // Whichever two of the equal-area squares were taken, the sums are
    // sums of two distinct corners from {1, 2, 3}.
    assert_eq!(sx, sy);
    assert!(sx == 3 || sx == 4 || sx == 5);
}

#[test]
fn normalizer_center_of_frame_is_zero() {
    // With n = 2 the aggregated center (639/2, 479/2) sits exactly at the
    // half-pixel frame midpoint of a 640-by-480 frame: both normalized
    // device coordinates are exactly zero.
    let (nx, ny) = normalize_center(639, 479, 2, 640, 480);
    assert_eq!(nx.num, 0);
    assert_eq!(ny.num, 0);
    assert_eq!(nx.den, 2 * 640);
    assert_eq!(ny.den, 2 * 480);
}

#[test]
fn normalizer_exact_values() {
    // Center (300, 220) with n = 1 on 640-by-480: the horizontal device
    // coordinate is (2*300 - 639)/640 = -39/640 and the vertical one is
    // (479 - 2*220)/480 = 39/480, the vertical axis flipped.
    let (nx, ny) = normalize_center(300, 220, 1, 640, 480);
    assert_eq!(nx.num, -39);
    assert_eq!(nx.den, 640);
    assert_eq!(ny.num, 39);
    assert_eq!(ny.den, 480);
    // The same values in floating point match the textbook formulas.
    let fx = (2.0 / 640.0) * (300.0 - (320.0 - 0.5));
    assert!((nx.num as f64 / nx.den as f64 - fx).abs() < 1e-12);
}

