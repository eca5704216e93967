use constructor::fixed::ONE;
use constructor::render::{
    aspect_ratio, FrameInput, FrameUniforms, Key, MouseButton, FLOOR, HALF_PI,
};
use constructor::rotation::Trig;

const IDENTITY: [[i64; 3]; 3] = [[ONE, 0, 0], [0, ONE, 0], [0, 0, ONE]];

fn level() -> Trig {
    Trig::new(0, ONE, 0, ONE).unwrap()
}

fn px(pixels: i64) -> i64 {
    pixels * ONE
}

#[test]
fn forward_for_half_a_second_moves_a_hundred_units() {
    let mut s = FrameInput::new(800, 600, 0);
    assert_eq!(s.camera_speed, 200 * ONE);
    s.on_key(Key::Forward, true);
    assert_eq!(s.movement_vector(500_000), [0, 0, 100 * ONE]);
    assert_eq!(s.steer(), (0, 0));
    let u = s.update(500_000, level());
    assert_eq!(s.position, [0, ONE, 100 * ONE]);
    assert_eq!(
        u,
        FrameUniforms {
            aspect_ratio: 1_333_333,
            camera_position: [0, ONE, 100 * ONE],
            rotation_matrix: IDENTITY,
            elapsed_time: 500_000,
            frame_delta: 500_000,
        }
    );
    assert_eq!((s.yaw, s.pitch), (0, 0));
}

#[test]
fn forward_from_another_position_adds_a_hundred_units() {
    let mut s = FrameInput::new(800, 600, 1_000);
    s.position = [-7 * ONE, 3 * ONE, 11 * ONE];
    s.on_key(Key::Forward, true);
    s.update(501_000, level());
    assert_eq!(s.position, [-7 * ONE, 3 * ONE, 111 * ONE]);
}

#[test]
fn drag_of_a_quarter_viewport_turns_one_radian() {
    let mut s = FrameInput::new(800, 600, 0);
    s.on_cursor_move(px(400), px(300));
    s.on_mouse_button(MouseButton::Middle, true);
    assert_eq!(s.steer(), (0, 0));
    assert!(!s.drag_just_started);
    assert_eq!(s.drag_anchor_cursor, (px(400), px(300)));
    s.on_cursor_move(px(600), px(300));
    assert_eq!(s.steer(), (1_000_000, 0));
    assert_eq!(s.yaw, 1_000_000);
    assert_eq!(s.pitch, 0);
}

#[test]
fn drag_turns_pitch_by_the_height() {
    let mut s = FrameInput::new(800, 600, 0);
    s.on_cursor_move(px(400), px(300));
    s.on_mouse_button(MouseButton::Left, true);
    s.steer();
    s.on_cursor_move(px(400), px(450));
    assert_eq!(s.steer(), (0, 1_000_000));
    s.on_cursor_move(px(400), px(225));
    assert_eq!(s.steer(), (0, -500_000));
    s.on_cursor_move(px(380), px(300));
    assert_eq!(s.steer(), (-100_000, 0));
}

#[test]
fn drag_rounds_toward_zero() {
    let mut s = FrameInput::new(3, 3, 0);
    s.on_mouse_button(MouseButton::Left, true);
    s.steer();
    s.on_cursor_move(1, -1);
    assert_eq!(s.steer(), (1, -1));
    s.on_cursor_move(2, -2);
    assert_eq!(s.steer(), (2, -2));
    s.on_cursor_move(-2, 2);
    assert_eq!(s.steer(), (-2, 2));
}

#[test]
fn pitch_stops_at_a_quarter_turn() {
    let mut s = FrameInput::new(800, 600, 0);
    s.on_cursor_move(px(400), px(300));
    s.on_mouse_button(MouseButton::Middle, true);
    s.steer();
    s.on_cursor_move(px(400), px(900));
    assert_eq!(s.steer(), (0, HALF_PI));
    s.on_cursor_move(px(400), px(-300));
    assert_eq!(s.steer(), (0, -HALF_PI));
    s.on_cursor_move(px(400), i64::MAX);
    assert_eq!(s.steer(), (0, HALF_PI));
    s.on_cursor_move(px(400), i64::MIN);
    assert_eq!(s.steer(), (0, -HALF_PI));
    assert!(s.is_valid());
}

#[test]
fn pitch_just_inside_the_limit_is_kept() {
    let mut s = FrameInput::new(4, 4, 0);
    s.on_mouse_button(MouseButton::Middle, true);
    s.steer();
    s.on_cursor_move(0, HALF_PI);
    assert_eq!(s.steer(), (0, HALF_PI));
    s.on_cursor_move(0, HALF_PI - 1);
    assert_eq!(s.steer(), (0, HALF_PI - 1));
    s.on_cursor_move(0, HALF_PI + 1);
    assert_eq!(s.steer(), (0, HALF_PI));
    s.on_cursor_move(0, -HALF_PI - 1);
    assert_eq!(s.steer(), (0, -HALF_PI));
}

#[test]
fn yaw_saturates() {
    let mut s = FrameInput::new(1, 1, 0);
    s.on_cursor_move(i64::MAX, 0);
    s.on_mouse_button(MouseButton::Middle, true);
    s.steer();
    s.on_cursor_move(i64::MIN, 0);
    assert_eq!(s.steer(), (i64::MIN, 0));
    let mut s = FrameInput::new(1, 1, 0);
    s.on_cursor_move(i64::MIN, 0);
    s.on_mouse_button(MouseButton::Middle, true);
    s.steer();
    s.on_cursor_move(i64::MAX, 0);
    assert_eq!(s.steer(), (i64::MAX, 0));
}

#[test]
fn steer_without_a_drag_changes_nothing() {
    let mut s = FrameInput::new(800, 600, 0);
    s.yaw = 250_000;
    s.pitch = -125_000;
    s.on_cursor_move(px(10), px(20));
    let before = s;
    assert_eq!(s.steer(), (250_000, -125_000));
    assert_eq!(s, before);
    s.on_cursor_move(px(500), px(500));
    assert_eq!(s.steer(), (250_000, -125_000));
}

#[test]
fn steer_twice_is_steer_once() {
    let mut s = FrameInput::new(800, 600, 0);
    s.on_cursor_move(px(100), px(100));
    s.on_mouse_button(MouseButton::Left, true);
    s.steer();
    s.on_cursor_move(px(333), px(77));
    let first = s.steer();
    let after_first = s;
    assert_eq!(s.steer(), first);
    assert_eq!(s, after_first);
}

#[test]
fn keys_and_frames_without_a_drag_leave_the_orientation() {
    let mut s = FrameInput::new(800, 600, 0);
    s.yaw = 700_000;
    s.pitch = -300_000;
    let t = Trig::new(644_218, 764_842, -295_520, 955_336).unwrap();
    let mut now = 0;
    for key in [Key::Forward, Key::Left, Key::Faster, Key::Backward, Key::Right, Key::Slower] {
        let before = s.position;
        s.on_key(key, true);
        s.on_cursor_move(now as i64, 3 * now as i64);
        now += 16_000;
        s.update(now, t);
        assert_eq!((s.yaw, s.pitch), (700_000, -300_000));
        if key != Key::Faster && key != Key::Slower {
            assert_ne!(s.position, before);
        }
        s.on_key(key, false);
        now += 16_000;
        s.update(now, t);
        assert_eq!((s.yaw, s.pitch), (700_000, -300_000));
    }
}

#[test]
fn looking_down_and_walking_stops_at_the_floor() {
    let mut s = FrameInput::new(800, 600, 0);
    s.on_key(Key::Forward, true);
    // pitch a quarter turn: sine one, cosine zero
    let down = Trig::new(0, ONE, ONE, 0).unwrap();
    let u = s.update(500_000, down);
    assert_eq!(s.position, [0, FLOOR, 0]);
    assert_eq!(u.camera_position, [0, FLOOR, 0]);
    let u = s.update(900_000_000, down);
    assert_eq!(u.camera_position, [0, FLOOR, 0]);
    assert!(s.is_valid());
}

#[test]
fn looking_up_and_walking_back_stops_at_the_floor() {
    let mut s = FrameInput::new(800, 600, 0);
    s.on_key(Key::Backward, true);
    let up = Trig::new(0, ONE, -ONE, 0).unwrap();
    s.update(1_000, up);
    assert_eq!(s.position, [0, 800_000, 0]);
    s.update(5_000, up);
    assert_eq!(s.position, [0, 100_000, 0]);
    s.update(5_001, up);
    assert_eq!(s.position, [0, FLOOR, 0]);
}

#[test]
fn looking_up_and_walking_rises() {
    let mut s = FrameInput::new(800, 600, 0);
    s.on_key(Key::Forward, true);
    let up = Trig::new(0, ONE, -ONE, 0).unwrap();
    s.update(500_000, up);
    assert_eq!(s.position, [0, 101 * ONE, 0]);
}

#[test]
fn update_twice_at_the_same_time() {
    let mut s = FrameInput::new(800, 600, 0);
    s.on_key(Key::Forward, true);
    s.on_key(Key::Right, true);
    s.on_cursor_move(px(100), px(200));
    s.on_mouse_button(MouseButton::Left, true);
    s.steer();
    s.on_cursor_move(px(150), px(190));
    let t = Trig::new(247_404, 968_912, -66_617, 997_779).unwrap();
    let first = s.update(250_000, t);
    let after_first = s;
    let second = s.update(250_000, t);
    assert_eq!(second, FrameUniforms { frame_delta: 0, ..first });
    assert_eq!(first.frame_delta, 250_000);
    assert_eq!(s, after_first);
}

#[test]
fn calculate_data_does_not_record_the_time() {
    let mut s = FrameInput::new(800, 600, 0);
    s.on_key(Key::Forward, true);
    let u = s.calculate_data(500_000, level());
    assert_eq!(s.last_frame, 0);
    assert_eq!(u.frame_delta, 500_000);
    assert_eq!(s.position, [0, ONE, 100 * ONE]);
    let u = s.calculate_data(500_000, level());
    assert_eq!(u.frame_delta, 500_000);
    assert_eq!(s.position, [0, ONE, 200 * ONE]);
    let mut r = FrameInput::new(800, 600, 0);
    r.on_key(Key::Forward, true);
    r.update(500_000, level());
    assert_eq!(r.last_frame, 500_000);
    assert_eq!(FrameInput { last_frame: 0, ..r }, FrameInput { position: [0, ONE, 100 * ONE], ..s });
}

#[test]
fn a_new_drag_starts_from_the_released_orientation() {
    let mut s = FrameInput::new(800, 600, 0);
    // first drag
    s.on_cursor_move(px(400), px(300));
    s.on_mouse_button(MouseButton::Middle, true);
    s.update(10_000, level());
    s.on_cursor_move(px(500), px(360));
    s.update(20_000, level());
    assert_eq!((s.yaw, s.pitch), (500_000, 400_000));
    s.on_mouse_button(MouseButton::Middle, false);
    let released = (s.yaw, s.pitch);
    s.update(30_000, level());
    assert_eq!((s.yaw, s.pitch), released);
    // second drag, from another place
    s.on_cursor_move(px(100), px(100));
    s.update(40_000, level());
    assert_eq!((s.yaw, s.pitch), released);
    s.on_mouse_button(MouseButton::Left, true);
    s.update(50_000, level());
    assert_eq!((s.yaw, s.pitch), released);
    s.on_cursor_move(px(700), px(50));
    s.update(60_000, level());
    assert_eq!((s.yaw, s.pitch), (3_500_000, 66_667));
    s.on_cursor_move(px(100), px(100));
    s.update(70_000, level());
    assert_eq!((s.yaw, s.pitch), released);
}

#[test]
fn the_anchor_is_the_cursor_at_the_first_frame_of_the_drag() {
    let mut s = FrameInput::new(800, 600, 0);
    s.on_cursor_move(px(10), px(10));
    s.on_mouse_button(MouseButton::Left, true);
    s.on_cursor_move(px(210), px(10));
    assert_eq!(s.steer(), (0, 0));
    assert_eq!(s.drag_anchor_cursor, (px(210), px(10)));
    s.on_cursor_move(px(10), px(10));
    assert_eq!(s.steer(), (-1_000_000, 0));
}

#[test]
fn a_second_press_takes_new_anchors() {
    let mut s = FrameInput::new(800, 600, 0);
    s.on_mouse_button(MouseButton::Middle, true);
    s.steer();
    s.on_cursor_move(px(200), 0);
    assert_eq!(s.steer(), (1_000_000, 0));
    s.on_mouse_button(MouseButton::Left, true);
    assert_eq!(s.steer(), (1_000_000, 0));
    assert_eq!(s.drag_anchor_yaw, 1_000_000);
    s.on_cursor_move(px(400), 0);
    assert_eq!(s.steer(), (2_000_000, 0));
}

#[test]
fn no_time_no_movement() {
    let mut s = FrameInput::new(800, 600, 77);
    s.on_key(Key::Forward, true);
    s.on_key(Key::Left, true);
    assert_eq!(s.movement_vector(0), [0, 0, 0]);
    let t = Trig::new(600_000, 800_000, 280_000, 960_000).unwrap();
    let u = s.update(77, t);
    assert_eq!(u.frame_delta, 0);
    assert_eq!(u.elapsed_time, 0);
    assert_eq!(s.position, [0, ONE, 0]);
}

#[test]
fn opposite_keys_cancel() {
    let mut s = FrameInput::new(800, 600, 0);
    s.on_key(Key::Forward, true);
    s.on_key(Key::Backward, true);
    assert_eq!(s.movement_vector(500_000), [0, 0, 0]);
    s.on_key(Key::Left, true);
    assert_eq!(s.movement_vector(500_000), [-100 * ONE, 0, 0]);
    s.on_key(Key::Right, true);
    assert_eq!(s.movement_vector(500_000), [0, 0, 0]);
    s.update(500_000, level());
    assert_eq!(s.position, [0, ONE, 0]);
}

#[test]
fn each_key_moves_along_its_axis() {
    let mut s = FrameInput::new(800, 600, 0);
    s.camera_speed = 3 * ONE;
    s.on_key(Key::Right, true);
    assert_eq!(s.movement_vector(2_000_000), [6 * ONE, 0, 0]);
    s.on_key(Key::Right, false);
    s.on_key(Key::Left, true);
    assert_eq!(s.movement_vector(2_000_000), [-6 * ONE, 0, 0]);
    s.on_key(Key::Left, false);
    s.on_key(Key::Backward, true);
    assert_eq!(s.movement_vector(2_000_000), [0, 0, -6 * ONE]);
    s.on_key(Key::Right, true);
    assert_eq!(s.movement_vector(1), [3, 0, -3]);
    assert_eq!(s.movement_vector(0), [0, 0, 0]);
}

#[test]
fn movement_uses_no_negative_speed() {
    let mut s = FrameInput::new(800, 600, 0);
    s.camera_speed = -50 * ONE;
    s.on_key(Key::Forward, true);
    assert_eq!(s.movement_vector(1_000_000), [0, 0, 0]);
}

#[test]
fn movement_saturates() {
    let mut s = FrameInput::new(800, 600, 0);
    s.camera_speed = i64::MAX;
    s.on_key(Key::Forward, true);
    s.on_key(Key::Left, true);
    assert_eq!(s.movement_vector(u64::MAX), [i64::MIN, 0, i64::MAX]);
    assert_eq!(s.movement_vector(1_000_000), [-i64::MAX, 0, i64::MAX]);
    let u = s.update(u64::MAX, level());
    assert_eq!(u.camera_position, [i64::MIN, ONE, i64::MAX]);
}

#[test]
fn position_saturates() {
    let mut s = FrameInput::new(800, 600, 0);
    s.position = [i64::MAX - 5, i64::MAX, i64::MIN + 5];
    s.on_key(Key::Right, true);
    s.on_key(Key::Backward, true);
    s.update(1_000_000, level());
    assert_eq!(s.position, [i64::MAX, i64::MAX, i64::MIN]);
}

#[test]
fn walking_with_yaw_turns_the_path() {
    let mut s = FrameInput::new(800, 600, 0);
    s.on_key(Key::Forward, true);
    // yaw with sine 0.6 and cosine 0.8
    let t = Trig::new(600_000, 800_000, 0, ONE).unwrap();
    s.update(500_000, t);
    assert_eq!(s.position, [60 * ONE, ONE, 80 * ONE]);
    s.on_key(Key::Forward, false);
    s.on_key(Key::Right, true);
    s.update(1_000_000, t);
    assert_eq!(s.position, [140 * ONE, ONE, 20 * ONE]);
}

#[test]
fn walking_with_yaw_and_pitch() {
    let mut s = FrameInput::new(800, 600, 0);
    s.camera_speed = 10 * ONE;
    s.on_key(Key::Forward, true);
    s.on_key(Key::Right, true);
    let t = Trig::new(600_000, 800_000, -280_000, 960_000).unwrap();
    let u = s.update(1_000_000, t);
    // R · (10, 0, 10) with the third column (0.576, 0.28, 0.768) and the first (0.8, 0, -0.6)
    assert_eq!(u.camera_position, [13_760_000, 3_800_000, 1_680_000]);
    assert_eq!(
        u.rotation_matrix,
        [[800_000, -168_000, 576_000], [0, 960_000, 280_000], [-600_000, -224_000, 768_000]]
    );
}

#[test]
fn the_clock_running_backwards_counts_as_no_time() {
    let mut s = FrameInput::new(800, 600, 1_000_000);
    s.on_key(Key::Forward, true);
    s.update(2_000_000, level());
    assert_eq!(s.position, [0, ONE, 200 * ONE]);
    let u = s.update(1_500_000, level());
    assert_eq!(u.frame_delta, 0);
    assert_eq!(u.elapsed_time, 500_000);
    assert_eq!(s.position, [0, ONE, 200 * ONE]);
    assert_eq!(s.last_frame, 1_500_000);
    let u = s.update(999_999, level());
    assert_eq!(u.frame_delta, 0);
    assert_eq!(u.elapsed_time, 0);
    assert_eq!(s.last_frame, 999_999);
}

#[test]
fn elapsed_time_counts_from_creation() {
    let mut s = FrameInput::new(800, 600, 5_000_000);
    let u = s.update(5_016_000, level());
    assert_eq!((u.elapsed_time, u.frame_delta), (16_000, 16_000));
    let u = s.update(5_033_000, level());
    assert_eq!((u.elapsed_time, u.frame_delta), (33_000, 17_000));
    assert_eq!(s.clock_start, 5_000_000);
}

#[test]
fn aspect_ratio_is_width_over_height() {
    assert_eq!(aspect_ratio(800, 600), 1_333_333);
    assert_eq!(aspect_ratio(600, 800), 750_000);
    assert_eq!(aspect_ratio(1920, 1080), 1_777_777);
    assert_eq!(aspect_ratio(1, 1), ONE);
    assert_eq!(aspect_ratio(0, 7), 0);
    assert_eq!(aspect_ratio(u32::MAX, 1), u32::MAX as i64 * ONE);
    assert_eq!(aspect_ratio(1, u32::MAX), 0);
}

#[test]
fn uniforms_follow_a_resize() {
    let mut s = FrameInput::new(800, 600, 0);
    s.on_resize(1000, 500);
    let u = s.update(1, level());
    assert_eq!(u.aspect_ratio, 2 * ONE);
}

#[test]
fn a_frame_raises_a_negative_speed_to_zero() {
    let mut s = FrameInput::new(800, 600, 0);
    s.camera_speed = -1;
    s.update(10, level());
    assert_eq!(s.camera_speed, 0);
    s.camera_speed = i64::MIN;
    s.calculate_data(20, level());
    assert_eq!(s.camera_speed, 0);
    s.camera_speed = 17;
    s.update(30, level());
    assert_eq!(s.camera_speed, 17);
}

#[test]
fn update_steers_as_steer_does() {
    let mut a = FrameInput::new(800, 600, 0);
    a.on_cursor_move(px(400), px(300));
    a.on_mouse_button(MouseButton::Middle, true);
    a.on_cursor_move(px(420), px(330));
    let mut b = a;
    a.steer();
    a.update(16_000, level());
    b.update(16_000, level());
    assert_eq!(a, b);
    a.on_cursor_move(px(440), px(270));
    b.on_cursor_move(px(440), px(270));
    let o = a.steer();
    b.update(32_000, level());
    assert_eq!(o, (b.yaw, b.pitch));
    assert_eq!(o, (100_000, -400_000));
}

#[test]
fn a_frame_tracks_the_floating_point_formulas() {
    let fixed = |x: f64| (x * 1_000_000.0).round() as i64;
    let float = |x: i64| x as f64 / 1_000_000.0;
    let (width, height) = (1024u32, 768u32);
    let (ax, ay) = (512.25f64, 384.5f64);
    let (cx, cy) = (700.75f64, 300.125f64);
    let speed = 12.5f64;
    let delta = 0.016_667f64;

    let mut s = FrameInput::new(width, height, 0);
    s.camera_speed = fixed(speed);
    s.on_key(Key::Forward, true);
    s.on_key(Key::Right, true);
    s.on_cursor_move(fixed(ax), fixed(ay));
    s.on_mouse_button(MouseButton::Middle, true);
    s.steer();
    s.on_cursor_move(fixed(cx), fixed(cy));
    let (yaw, pitch) = s.steer();

    let yaw_f = 0.0 - ((ax - cx) / width as f64) * 4.0;
    let pitch_f = (0.0 - ((ay - cy) / height as f64) * 4.0)
        .clamp(-std::f64::consts::FRAC_PI_2, std::f64::consts::FRAC_PI_2);
    assert!((float(yaw) - yaw_f).abs() < 2e-6);
    assert!((float(pitch) - pitch_f).abs() < 2e-6);

    let t = Trig::new(
        fixed(yaw_f.sin()),
        fixed(yaw_f.cos()),
        fixed(pitch_f.sin()),
        fixed(pitch_f.cos()),
    )
    .unwrap();
    let u = s.update(fixed(delta) as u64, t);

    let r = [
        [yaw_f.cos(), pitch_f.sin() * yaw_f.sin(), pitch_f.cos() * yaw_f.sin()],
        [0.0, pitch_f.cos(), -pitch_f.sin()],
        [-yaw_f.sin(), pitch_f.sin() * yaw_f.cos(), pitch_f.cos() * yaw_f.cos()],
    ];
    let mv = [speed * delta, 0.0, speed * delta];
    let start = [0.0, 1.0, 0.0];
    for i in 0..3 {
        let world = r[i][0] * mv[0] + r[i][1] * mv[1] + r[i][2] * mv[2];
        let mut expected: f64 = start[i] + world;
        if i == 1 {
            expected = expected.max(0.1);
        }
        assert!((float(u.camera_position[i]) - expected).abs() < 5e-6);
        for j in 0..3 {
            assert!((float(u.rotation_matrix[i][j]) - r[i][j]).abs() < 3e-6);
        }
    }
    assert!((float(u.aspect_ratio) - width as f64 / height as f64).abs() < 1e-6);
    assert_eq!(u.frame_delta, 16_667);
    assert_eq!(u.elapsed_time, 16_667);
}

#[test]
fn stepping_sideways_keeps_the_height() {
    let mut s = FrameInput::new(800, 600, 0);
    s.on_key(Key::Right, true);
    let t = Trig::new(600_000, 800_000, -280_000, 960_000).unwrap();
    s.update(500_000, t);
    assert_eq!(s.position, [80 * ONE, ONE, -60 * ONE]);
    s.on_key(Key::Right, false);
    s.on_key(Key::Left, true);
    s.update(750_000, t);
    assert_eq!(s.position, [40 * ONE, ONE, -30 * ONE]);
}

#[test]
fn walking_with_a_level_gaze_keeps_the_height() {
    let mut s = FrameInput::new(800, 600, 0);
    s.position = [0, 7 * ONE, 0];
    s.on_key(Key::Forward, true);
    s.on_key(Key::Left, true);
    let t = Trig::new(-600_000, 800_000, 0, ONE).unwrap();
    s.update(10_000, t);
    // two units along each local axis
    assert_eq!(s.position, [-2_800_000, 7 * ONE, 400_000]);
}
