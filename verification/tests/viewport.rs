use zoomlens::camera::{ZOOM_MAX, ZOOM_MIN};
use zoomlens::fixed::LIMIT;
use zoomlens::geometry::Point;
use zoomlens::input::FrameInput;
use zoomlens::viewport::{Viewport, SETTLE_SPEED, ZOOM_THRESHOLD};

const FRAME: i64 = 16_667;

fn scroll_at(pointer: Point, scroll: i64) -> FrameInput {
    let mut input = FrameInput::idle(pointer, FRAME, 60);
    input.scroll = scroll;
    input
}

fn drag_by(pointer: Point, delta: Point) -> FrameInput {
    let mut input = FrameInput::idle(pointer, FRAME, 60);
    input.pointer_delta = delta;
    input.primary_down = true;
    input
}

#[test]
fn new_viewport_is_at_rest() {
    let v = Viewport::new();
    assert_eq!(v.camera().zoom(), 1_000_000);
    assert_eq!(v.camera().target(), Point::zero());
    assert_eq!(v.delta_scale(), 0);
    assert_eq!(v.velocity(), Point::zero());
    assert_eq!(v.scale_pivot(), Point::zero());
    assert!(!v.is_moving());
}

#[test]
fn idle_frames_change_nothing() {
    let mut v = Viewport::new();
    for _ in 0..10 {
        v = v.step(&FrameInput::idle(Point::new(5, 5), FRAME, 60));
    }
    assert_eq!(v.camera().zoom(), 1_000_000);
    assert_eq!(v.camera().target(), Point::zero());
    assert_eq!(v.delta_scale(), 0);
}

#[test]
fn scroll_adds_to_momentum_and_moves_pivot() {
    let pointer = Point::new(100_000_000, 100_000_000);
    let v = Viewport::new().absorb_scroll(5_000_000, pointer);
    assert_eq!(v.delta_scale(), 5_000_000);
    assert_eq!(v.scale_pivot(), pointer);
    let v = v.absorb_scroll(-2_000_000, Point::new(1, 2));
    assert_eq!(v.delta_scale(), 3_000_000);
    assert_eq!(v.scale_pivot(), Point::new(1, 2));
}

#[test]
fn momentum_and_pivot_saturate() {
    let v = Viewport::new().absorb_scroll(i64::MAX, Point::new(i64::MAX, i64::MIN));
    assert_eq!(v.delta_scale(), LIMIT);
    assert_eq!(v.scale_pivot(), Point::new(LIMIT, -LIMIT));
}

#[test]
fn first_zoom_frame_has_exact_values() {
    let pointer = Point::new(100_000_000, 100_000_000);
    let v = Viewport::new().absorb_scroll(5_000_000, pointer).integrate_zoom(FRAME);
    // zoom: 1.0 + 5.0 * 0.016667
    assert_eq!(v.camera().zoom(), 1_083_335);
    // target: 100 / 1.0 - 100 / 1.083335
    assert_eq!(v.camera().target(), Point::new(7_692_450, 7_692_450));
    // momentum: 5.0 - 5.0 * 0.016667 * 4
    assert_eq!(v.delta_scale(), 4_666_660);
}

#[test]
fn momentum_at_the_threshold_does_not_zoom() {
    let v = Viewport::new().absorb_scroll(ZOOM_THRESHOLD, Point::new(9, 9)).integrate_zoom(FRAME);
    assert_eq!(v.camera().zoom(), 1_000_000);
    assert_eq!(v.delta_scale(), ZOOM_THRESHOLD);
    let v = Viewport::new().absorb_scroll(-ZOOM_THRESHOLD, Point::new(9, 9)).integrate_zoom(FRAME);
    assert_eq!(v.camera().zoom(), 1_000_000);
    let v = Viewport::new().absorb_scroll(ZOOM_THRESHOLD + 1, Point::new(9, 9)).integrate_zoom(
        FRAME,
    );
    assert_eq!(v.camera().zoom(), 1_008_333);
}

#[test]
fn zoom_stays_in_range_under_any_scrolls() {
    let scrolls: [i64; 12] = [
        5_000_000,
        i64::MAX,
        -1,
        i64::MIN,
        i64::MIN,
        0,
        123_456_789_000,
        -3_000_000,
        i64::MAX,
        i64::MAX,
        -700_000,
        1,
    ];
    let mut v = Viewport::new();
    for round in 0..40 {
        for s in scrolls {
            let mut input = scroll_at(Point::new(960_000_000, 540_000_000), s);
            input.frame_time = FRAME * (round + 1);
            v = v.step(&input);
            let z = v.camera().zoom();
            assert!(ZOOM_MIN <= z && z <= ZOOM_MAX);
        }
    }
}

#[test]
fn zoom_reaches_both_ends_of_its_range() {
    let mut v = Viewport::new();
    for _ in 0..200 {
        v = v.step(&scroll_at(Point::zero(), 50_000_000));
    }
    assert_eq!(v.camera().zoom(), ZOOM_MAX);
    for _ in 0..400 {
        v = v.step(&scroll_at(Point::zero(), -50_000_000));
    }
    assert_eq!(v.camera().zoom(), ZOOM_MIN);
}

#[test]
fn world_point_under_pivot_stays_while_zooming() {
    let pivot = Point::new(640_000_000, 360_000_000);
    let mut v = Viewport::new().absorb_scroll(7_000_000, pivot);
    for _ in 0..120 {
        let before = v.camera().screen_to_world(pivot);
        v = v.integrate_zoom(FRAME);
        assert_eq!(v.camera().screen_to_world(pivot), before);
    }
    let mut v = v.absorb_scroll(-30_000_000, Point::new(-5, 77_000_001));
    for _ in 0..120 {
        let before = v.camera().screen_to_world(v.scale_pivot());
        v = v.integrate_zoom(FRAME);
        assert_eq!(v.camera().screen_to_world(v.scale_pivot()), before);
    }
}

#[test]
fn scroll_up_at_pointer_for_one_second() {
    let pointer = Point::new(100_000_000, 100_000_000);
    let mut v = Viewport::new();
    let before = v.camera().screen_to_world(pointer);
    assert_eq!(before, pointer);
    v = v.step(&scroll_at(pointer, 5_000_000));
    let mut last = 1_000_000;
    assert!(v.camera().zoom() > last);
    last = v.camera().zoom();
    for _ in 1..60 {
        v = v.step(&FrameInput::idle(pointer, FRAME, 60));
        assert!(v.camera().zoom() >= last);
        last = v.camera().zoom();
    }
    assert_eq!(v.camera().zoom(), 2_130_275);
    assert_eq!(v.camera().target(), Point::new(53_057_704, 53_057_704));
    assert_eq!(v.delta_scale(), 478_857);
    assert_eq!(v.camera().screen_to_world(pointer), before);
}

#[test]
fn scroll_with_a_modifier_is_not_a_zoom_gesture() {
    let mut input = scroll_at(Point::new(1, 1), 5_000_000);
    input.shift_held = true;
    let v = Viewport::new().step(&input);
    assert_eq!(v.delta_scale(), 0);
    assert_eq!(v.camera().zoom(), 1_000_000);
    input.shift_held = false;
    input.ctrl_held = true;
    let v = Viewport::new().step(&input);
    assert_eq!(v.delta_scale(), 0);
    assert_eq!(v.scale_pivot(), Point::zero());
}

#[test]
fn drag_moves_the_target_against_the_pointer() {
    let v = Viewport::new().drag(Point::new(200_000_000, 50_000_000), Point::new(-50_000_000, 0), 60);
    assert_eq!(v.camera().target(), Point::new(50_000_000, 0));
    // 50 world units in one frame at 60 frames per second
    assert_eq!(v.velocity(), Point::new(3_000_000_000, 0));
}

#[test]
fn drag_at_double_zoom_moves_half_as_far() {
    let mut v = Viewport::new();
    for _ in 0..200 {
        v = v.step(&scroll_at(Point::zero(), 1_000_000));
        if v.camera().zoom() >= 2_000_000 {
            break;
        }
    }
    let zoom = v.camera().zoom();
    let t0 = v.camera().target();
    let pointer = Point::new(300_000_000, 300_000_000);
    let delta = Point::new(20_000_000, -40_000_000);
    let prev = Point::new(pointer.x - delta.x, pointer.y - delta.y);
    let expected_x = v.camera().screen_to_world(prev).x - v.camera().screen_to_world(pointer).x;
    let expected_y = v.camera().screen_to_world(prev).y - v.camera().screen_to_world(pointer).y;
    let v = v.drag(pointer, delta, 144);
    assert_eq!(v.camera().zoom(), zoom);
    assert_eq!(v.camera().target(), Point::new(t0.x + expected_x, t0.y + expected_y));
    assert_eq!(v.velocity(), Point::new(expected_x * 144, expected_y * 144));
    assert!(expected_x < 0 && expected_x >= -10_000_001);
    assert!(expected_y > 0 && expected_y <= 20_000_001);
}

#[test]
fn drag_velocity_and_target_saturate() {
    let v = Viewport::new().drag(Point::new(i64::MIN, i64::MAX), Point::new(i64::MAX, i64::MIN), u32::MAX);
    assert_eq!(v.camera().target(), Point::new(-LIMIT, LIMIT));
    assert_eq!(v.velocity(), Point::new(-LIMIT, LIMIT));
}

#[test]
fn coast_advances_and_decays() {
    let v = Viewport::new().drag(Point::new(200_000_000, 0), Point::new(-50_000_000, 0), 60);
    assert!(v.is_moving());
    let v = v.coast(FRAME);
    // 50 + 3000 * 0.016667
    assert_eq!(v.camera().target(), Point::new(100_001_000, 0));
    // 3000 - 3000 * 0.016667 * 6
    assert_eq!(v.velocity(), Point::new(2_699_994_000, 0));
}

#[test]
fn velocity_at_settle_speed_is_settled() {
    let v = Viewport::new().drag(Point::new(0, 0), Point::new(-SETTLE_SPEED, 0), 1);
    assert_eq!(v.velocity(), Point::new(SETTLE_SPEED, 0));
    assert!(!v.is_moving());
    let after = v.coast(FRAME);
    assert_eq!(after.velocity(), v.velocity());
    assert_eq!(after.camera().target(), v.camera().target());
    let v = Viewport::new().drag(Point::new(0, 0), Point::new(-SETTLE_SPEED - 1, 0), 1);
    assert!(v.is_moving());
    let v = Viewport::new().drag(Point::new(0, 0), Point::new(-9_000_000, 12_000_000), 1);
    assert_eq!(v.velocity(), Point::new(9_000_000, -12_000_000));
    assert!(!v.is_moving());
    let v = Viewport::new().drag(Point::new(0, 0), Point::new(-9_000_000, 12_000_001), 1);
    assert!(v.is_moving());
}

#[test]
fn drag_left_then_release() {
    let pointer = Point::new(200_000_000, 100_000_000);
    let mut v = Viewport::new().step(&drag_by(pointer, Point::new(-50_000_000, 0)));
    assert!(v.velocity().x > 0);
    assert_eq!(v.velocity(), Point::new(3_000_000_000, 0));
    assert_eq!(v.camera().target().x, 50_000_000);
    let mut last_step = i64::MAX;
    let mut frames = 0;
    while v.is_moving() {
        let before = v.camera().target().x;
        let speed = v.velocity().x;
        v = v.step(&FrameInput::idle(pointer, FRAME, 60));
        let step = v.camera().target().x - before;
        assert!(step > 0);
        assert!(step < last_step);
        assert!(v.velocity().x < speed);
        assert_eq!(v.velocity().y, 0);
        last_step = step;
        frames += 1;
        assert!(frames < 1000);
    }
    assert_eq!(frames, 51);
    assert_eq!(v.camera().target().x, 547_681_043);
    assert_eq!(v.velocity().x, 13_913_622);
    for _ in 0..5 {
        v = v.step(&FrameInput::idle(pointer, FRAME, 60));
    }
    assert_eq!(v.camera().target().x, 547_681_043);
    assert_eq!(v.velocity().x, 13_913_622);
}

#[test]
fn released_velocity_never_grows_up_to_a_third_of_a_second() {
    for dt in [0i64, 1, FRAME, 100_000, 166_666, 166_667, 250_000, 333_333] {
        let mut v = Viewport::new().drag(
            Point::new(0, 0),
            Point::new(-70_000_000, 45_000_001),
            60,
        );
        for _ in 0..50 {
            let before = v.velocity();
            let mut input = FrameInput::idle(Point::zero(), dt, 60);
            input.scroll = 3_000_000;
            v = v.step(&input);
            assert!(v.velocity().x.abs() <= before.x.abs());
            assert!(v.velocity().y.abs() <= before.y.abs());
        }
    }
}

#[test]
fn released_velocity_grows_over_a_frame_of_half_a_second() {
    let v = Viewport::new().drag(Point::new(0, 0), Point::new(-50_000_000, 0), 60);
    let after = v.coast(500_000);
    // 3000 - 3000 * 0.5 * 6 = -6000
    assert_eq!(after.velocity(), Point::new(-6_000_000_000, 0));
}

#[test]
fn drag_velocity_goes_by_the_frame_rate_not_the_frame_time() {
    let mut input = drag_by(Point::new(0, 0), Point::new(-10_000_000, 0));
    input.frame_rate = 60;
    input.frame_time = 20_000;
    let v = Viewport::new().step(&input);
    // 10 units times 60 frames per second, not 10 units in 0.02 seconds
    assert_eq!(v.velocity(), Point::new(600_000_000, 0));
    input.frame_time = 0;
    assert_eq!(Viewport::new().step(&input).velocity(), Point::new(600_000_000, 0));
    input.frame_rate = 0;
    assert_eq!(Viewport::new().step(&input).velocity(), Point::zero());
}

#[test]
fn momentum_decays_toward_zero() {
    for start in [5_000_000i64, -5_000_000, 777_777, -123_456_789] {
        let mut v = Viewport::new().absorb_scroll(start, Point::zero());
        for _ in 0..300 {
            let before = v.delta_scale();
            v = v.integrate_zoom(FRAME);
            assert!(v.delta_scale().abs() <= before.abs());
            assert!(v.delta_scale() == 0 || (v.delta_scale() > 0) == (start > 0));
        }
        assert!(v.delta_scale().abs() <= ZOOM_THRESHOLD);
    }
}
