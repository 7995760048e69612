use zoomlens::camera::{Camera, ZOOM_MAX, ZOOM_MIN};
use zoomlens::fixed::LIMIT;
use zoomlens::geometry::Point;

#[test]
fn new_camera_is_the_identity() {
    let cam = Camera::new();
    assert_eq!(cam.zoom(), 1_000_000);
    assert_eq!(cam.target(), Point::new(0, 0));
    let p = Point::new(123_456_789, -987_654_321);
    assert_eq!(cam.screen_to_world(p), p);
    assert_eq!(cam.world_to_screen(p), p);
}

#[test]
fn zoom_is_clamped_on_construction() {
    assert_eq!(Camera::with(0, Point::zero()).zoom(), ZOOM_MIN);
    assert_eq!(Camera::with(-5, Point::zero()).zoom(), ZOOM_MIN);
    assert_eq!(Camera::with(i64::MAX, Point::zero()).zoom(), ZOOM_MAX);
    assert_eq!(Camera::with(2_500_000, Point::zero()).zoom(), 2_500_000);
}

#[test]
fn target_is_saturated_on_construction() {
    let cam = Camera::with(1_000_000, Point::new(i64::MAX, i64::MIN));
    assert_eq!(cam.target(), Point::new(LIMIT, -LIMIT));
}

#[test]
fn screen_to_world_divides_by_zoom_and_adds_target() {
    // (100, 50) / 2 + (10, 20) = (60, 45)
    let cam = Camera::with(2_000_000, Point::new(10_000_000, 20_000_000));
    let world = cam.screen_to_world(Point::new(100_000_000, 50_000_000));
    assert_eq!(world, Point::new(60_000_000, 45_000_000));
}

#[test]
fn world_to_screen_subtracts_target_and_multiplies_by_zoom() {
    // ((60, 45) - (10, 20)) * 2 = (100, 50)
    let cam = Camera::with(2_000_000, Point::new(10_000_000, 20_000_000));
    let screen = cam.world_to_screen(Point::new(60_000_000, 45_000_000));
    assert_eq!(screen, Point::new(100_000_000, 50_000_000));
}

#[test]
fn round_trip_is_exact_where_nothing_is_rounded() {
    let cam = Camera::with(2_500_000, Point::new(1_000, -2_000));
    for w in [0i64, 2, 4_000_000, -6_000_000, 123_456_788] {
        let world = Point::new(w + 1_000, w - 2_000);
        assert_eq!(cam.screen_to_world(cam.world_to_screen(world)), world);
    }
}

#[test]
fn round_trip_falls_short_by_at_most_ten_units() {
    for zoom in [ZOOM_MIN, 300_000, 999_999, 1_000_000, 3_333_333, ZOOM_MAX] {
        let cam = Camera::with(zoom, Point::new(17, -23));
        for w in [-1_000_003i64, -5, -1, 0, 1, 7, 10, 7_000_001, 999_999_999_999] {
            let world = Point::new(w, -w);
            let back = cam.screen_to_world(cam.world_to_screen(world));
            assert!(back.x <= world.x && world.x - back.x <= 10);
            assert!(back.y <= world.y && world.y - back.y <= 10);
            if zoom >= 1_000_000 {
                assert!(world.x - back.x <= 1);
                assert!(world.y - back.y <= 1);
            }
        }
    }
}

#[test]
fn round_trip_of_one_unit_at_low_zoom_is_lost() {
    let cam = Camera::with(300_000, Point::zero());
    let back = cam.screen_to_world(cam.world_to_screen(Point::new(1, 7_000_001)));
    assert_eq!(back, Point::new(0, 7_000_000));
}

#[test]
fn screen_round_trip_falls_short_by_at_most_ten_units() {
    for zoom in [ZOOM_MIN, 300_000, 1_000_000, 3_333_333, ZOOM_MAX] {
        let cam = Camera::with(zoom, Point::new(5_000_000, 5_000_000));
        for s in [-999_999i64, -1, 0, 1, 100_000_000, 1_920_000_000] {
            let screen = Point::new(s, s);
            let back = cam.world_to_screen(cam.screen_to_world(screen));
            assert!(back.x <= screen.x && screen.x - back.x <= 10);
            if zoom <= 1_000_000 {
                assert!(screen.x - back.x <= 1);
            }
        }
    }
}

#[test]
fn conversions_saturate_at_the_limit() {
    let cam = Camera::with(ZOOM_MIN, Point::zero());
    assert_eq!(cam.screen_to_world(Point::new(i64::MAX, i64::MIN)), Point::new(LIMIT, -LIMIT));
    let cam = Camera::with(ZOOM_MAX, Point::new(-LIMIT, LIMIT));
    assert_eq!(cam.world_to_screen(Point::new(i64::MAX, i64::MIN)), Point::new(LIMIT, -LIMIT));
}
