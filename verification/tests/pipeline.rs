//! Tests of the pipeline composer and of whole frame cycles: aggregation
//! with the configured divisor, the no-target short-circuit, and the
//! change-suppression emission policy.

use ferrovision::config::ConfigError;
use ferrovision::config::VisionConfig;
use ferrovision::config::compose;
use ferrovision::modules::ColorRange;
use ferrovision::orchestrator::LoopState;
use ferrovision::orchestrator::run_cycle;
use ferrovision::tracking::OrientedRect;
use ferrovision::tracking::Point;
use ferrovision::tracking::Rect;
use ferrovision::tracking::TrackingData;

fn base_config() -> VisionConfig {
    VisionConfig {
        width: 640,
        height: 480,
        fps: 30,
        num_tracked_contours: 1,
        input_name: "picamera".to_owned(),
        threshold_name: "simplecolor".to_owned(),
        filter_names: vec!["contourarea".to_owned(), "percentfilled".to_owned()],
        output_name: "nt".to_owned(),
        threshold_color_l: [20, 100, 100],
        threshold_color_u: [30, 255, 255],
        threshold_ranges: vec![],
        contourarea_min_milli: 100,
        contourarea_max_milli: 50_000,
        percentfilled_min_milli: 50_000,
        percentfilled_max_milli: 110_000,
        output_ip: "10.0.0.2:1735".to_owned(),
    }
}

fn square_object(x: i32, y: i32, side: i32) -> TrackingData {
    let cnt = vec![
        Point { x, y },
        Point { x: x + side, y },
        Point { x: x + side, y: y + side },
        Point { x, y: y + side },
    ];
    TrackingData {
        hull: cnt.clone(),
        cnt,
        rect: OrientedRect {
            center_x_milli: (x as i64) * 1000 + (side as i64) * 500,
            center_y_milli: (y as i64) * 1000 + (side as i64) * 500,
            width_milli: (side as i64) * 1000,
            height_milli: (side as i64) * 1000,
            angle_milli_deg: 0,
        },
        bounding: Rect { x, y, width: side, height: side },
    }
}

#[test]
fn compose_builds_configured_pipeline() {
    let p = compose(base_config()).unwrap();
    assert_eq!(p.width, 640);
    assert_eq!(p.height, 480);
    assert_eq!(p.num_tracked_contours, 1);
    assert_eq!(p.filters.len(), 2);
}

#[test]
fn compose_rejects_unknown_threshold() {
    // An unknown variant name aborts startup before any module exists.
    let mut cfg = base_config();
    cfg.threshold_name = "nonexistent".to_owned();
    match compose(cfg) {
        Err(ConfigError::UnknownThreshold(name)) => assert_eq!(name, "nonexistent"),
        other => panic!("expected an unknown-threshold error, got {:?}", other),
    }
}

#[test]
fn compose_rejects_unknown_input_filter_output() {
    let mut cfg = base_config();
    cfg.input_name = "webcam".to_owned();
    assert!(matches!(compose(cfg), Err(ConfigError::UnknownInput(_))));

    let mut cfg = base_config();
    cfg.filter_names = vec!["contourarea".to_owned(), "sharpness".to_owned()];
    match compose(cfg) {
        Err(ConfigError::UnknownFilter(name)) => assert_eq!(name, "sharpness"),
        other => panic!("expected an unknown-filter error, got {:?}", other),
    }

    let mut cfg = base_config();
    cfg.output_name = "udp".to_owned();
    assert!(matches!(compose(cfg), Err(ConfigError::UnknownOutput(_))));
}

#[test]
fn compose_rejects_out_of_range_tracking_count() {
    let mut cfg = base_config();
    cfg.num_tracked_contours = 0;
    match compose(cfg) {
        Err(ConfigError::ParameterOutOfRange(key)) => {
            assert_eq!(key, "tracking.num_tracked_contours")
        }
        other => panic!("expected an out-of-range error, got {:?}", other),
    }
}

#[test]
fn compose_accepts_complex_color() {
    let mut cfg = base_config();
    cfg.threshold_name = "complexcolor".to_owned();
    cfg.threshold_ranges = vec![
        ColorRange { lower: [0, 80, 80], upper: [10, 255, 255] },
        ColorRange { lower: [170, 80, 80], upper: [179, 255, 255] },
    ];
    assert!(compose(cfg).is_ok());
}

#[test]
fn single_candidate_scenario_emits_once_then_suppresses() {
    // One 40-square at (300, 220) passes both filters with n = 1: the
    // tracked center is (300/1, 220/1) and its normalized device
    // coordinates are (-39/640, 39/480).  The first cycle delivers; a
    // second identical frame is suppressed.
    let p = compose(base_config()).unwrap();
    let mut state = LoopState::new();

    let out = run_cycle(&mut state, vec![square_object(300, 220, 40)], &p);
    assert_eq!(out.center_sum_x, 300);
    assert_eq!(out.center_sum_y, 220);
    assert_eq!(out.selected.len(), 1);
    let data = out.emit.expect("first distinct center must be delivered");
    assert_eq!(data.raw_center_x.num, 300);
    assert_eq!(data.raw_center_x.den, 1);
    assert_eq!(data.raw_center_y.num, 220);
    assert_eq!(data.raw_center_y.den, 1);
    assert_eq!(data.normal_coord_x.num, -39);
    assert_eq!(data.normal_coord_x.den, 640);
    assert_eq!(data.normal_coord_y.num, 39);
    assert_eq!(data.normal_coord_y.den, 480);

    let repeat = run_cycle(&mut state, vec![square_object(300, 220, 40)], &p);
    assert_eq!(repeat.center_sum_x, 300);
    assert!(repeat.emit.is_none(), "an unchanged center must be suppressed");
}

#[test]
fn distinct_centers_each_emit_once() {
    let p = compose(base_config()).unwrap();
    let mut state = LoopState::new();

    assert!(run_cycle(&mut state, vec![square_object(300, 220, 40)], &p).emit.is_some());
    assert!(run_cycle(&mut state, vec![square_object(120, 80, 40)], &p).emit.is_some());
    assert!(run_cycle(&mut state, vec![square_object(120, 80, 40)], &p).emit.is_none());
    // The earlier center counts as distinct again once another one was
    // emitted in between.
    assert!(run_cycle(&mut state, vec![square_object(300, 220, 40)], &p).emit.is_some());
}

#[test]
fn no_candidates_for_five_frames_delivers_nothing() {
    // Candidates that fail every filter leave the tracked center at
    // (0, 0) each frame: no delivery, the loop just carries on.
    let p = compose(base_config()).unwrap();
    let mut state = LoopState::new();
    for _ in 0..5 {
        let out = run_cycle(&mut state, vec![square_object(2, 2, 1)], &p);
        assert_eq!(out.center_sum_x, 0);
        assert_eq!(out.center_sum_y, 0);
        assert!(out.emit.is_none());
    }
    let out = run_cycle(&mut state, vec![], &p);
    assert!(out.emit.is_none());
}

#[test]
fn aggregation_divides_by_configured_n() {
    // With n = 2 the divisor of the aggregated center is the configured 2
    // whatever the number of accepted candidates: zero, one, or more than
    // two candidates in the pool.
    let mut cfg = base_config();
    cfg.num_tracked_contours = 2;
    let p = compose(cfg).unwrap();

    let mut state = LoopState::new();
    let none = run_cycle(&mut state, vec![], &p);
    assert_eq!(none.center_sum_x, 0);
    assert!(none.emit.is_none());

    let one = run_cycle(&mut state, vec![square_object(300, 220, 40)], &p);
    let data = one.emit.expect("a single candidate still emits");
    // One accepted candidate, yet the center is 300/2, biased toward zero.
    assert_eq!(data.raw_center_x.num, 300);
    assert_eq!(data.raw_center_x.den, 2);

    let three = run_cycle(
        &mut state,
        vec![
            square_object(300, 220, 40),
            square_object(100, 60, 60),
            square_object(500, 400, 50),
        ],
        &p,
    );
    let data = three.emit.expect("a changed center emits");
    // The two largest are the 60- and 50-squares: sums (100+500, 60+400).
    assert_eq!(three.selected.len(), 2);
    assert_eq!(data.raw_center_x.num, 600);
    assert_eq!(data.raw_center_x.den, 2);
    assert_eq!(data.raw_center_y.num, 460);
    assert_eq!(data.raw_center_y.den, 2);
}
