use freelook::basis::{orthogonalize, SPAN};
use freelook::camera::Camera;
use freelook::input::{FrameInput, Sign};
use freelook::plan::plan_update;
use freelook::rate::{evaluate, Motion, Speeds};
use freelook::step::{Amount, Measure, Step};
use freelook::vector::{Vector3, REACH};

fn v(x: i128, y: i128, z: i128) -> Vector3 {
    Vector3::new(x, y, z)
}

fn dot(a: Vector3, b: Vector3) -> i128 {
    a.x * b.x + a.y * b.y + a.z * b.z
}

#[test]
fn new_keeps_its_arguments() {
    let camera = Camera::new(v(1, 2, 3), v(4, 6, 8), 50_000_000);
    assert_eq!(camera.position, v(1, 2, 3));
    assert_eq!(camera.target, v(4, 6, 8));
    assert_eq!(camera.fov, 50_000_000);
}

#[test]
fn forward_is_target_less_position() {
    let camera = Camera::new(v(1, 2, 3), v(4, 6, 8), 0);
    assert_eq!(camera.get_forward(), v(3, 4, 5));
}

#[test]
fn right_is_forward_cross_world_up() {
    let camera = Camera::new(v(1, 2, 3), v(4, 6, 8), 0);
    assert_eq!(camera.get_right(), v(-5, 0, 3));
}

#[test]
fn up_is_right_cross_forward() {
    let camera = Camera::new(v(1, 2, 3), v(4, 6, 8), 0);
    assert_eq!(camera.get_up(), v(-12, 34, -20));
}

#[test]
fn derived_basis_is_orthogonal() {
    let camera = Camera::new(v(-7, 11, 2), v(40, -6, 13), 0);
    let (f, r, u) = (camera.get_forward(), camera.get_right(), camera.get_up());
    assert_eq!(dot(r, f), 0);
    assert_eq!(dot(u, f), 0);
    assert_eq!(dot(u, r), 0);
    assert_eq!(r.y, 0);
    assert_eq!(u.y, f.x * f.x + f.z * f.z);
}

#[test]
fn forward_along_world_up_has_no_basis() {
    let camera = Camera::new(v(3, 0, 3), v(3, 5, 3), 0);
    assert_eq!(camera.get_right(), v(0, 0, 0));
    assert_eq!(camera.get_up(), v(0, 0, 0));
}

#[test]
fn basis_at_the_edge_of_reach_does_not_overflow() {
    let camera = Camera::new(v(-REACH, -REACH, -REACH), v(REACH, REACH, REACH), 0);
    assert_eq!(camera.get_forward(), v(2 * REACH, 2 * REACH, 2 * REACH));
    assert_eq!(camera.get_right(), v(-2 * REACH, 0, 2 * REACH));
    let up = camera.get_up();
    assert_eq!(up.y, 8 * REACH * REACH);
    assert_eq!(up.x, -4 * REACH * REACH);
}

#[test]
fn translate_moves_eye_and_target_alike() {
    let mut camera = Camera::new(v(1, 2, 3), v(4, 6, 8), 7);
    let forward = camera.get_forward();
    assert!(camera.translate(&v(10, -2, 7)));
    assert_eq!(camera.position, v(11, 0, 10));
    assert_eq!(camera.target, v(14, 4, 15));
    assert_eq!(camera.get_forward(), forward);
    assert_eq!(camera.fov, 7);
}

#[test]
fn translate_out_of_reach_leaves_the_camera() {
    let mut camera = Camera::new(v(REACH, 0, 0), v(0, 0, 0), 7);
    let before = camera;
    assert!(!camera.translate(&v(1, 0, 0)));
    assert_eq!(camera, before);
    assert!(!camera.translate(&v(i128::MAX, i128::MIN, 0)));
    assert_eq!(camera, before);
    assert!(camera.translate(&v(-1, 0, 0)));
    assert_eq!(camera.position, v(REACH - 1, 0, 0));
}

#[test]
fn aim_around_the_eye_moves_the_target() {
    let mut camera = Camera::new(v(1, 2, 3), v(4, 6, 8), 0);
    assert!(camera.aim(&v(0, 0, 9), false));
    assert_eq!(camera.position, v(1, 2, 3));
    assert_eq!(camera.target, v(1, 2, 12));
    assert_eq!(camera.get_forward(), v(0, 0, 9));
}

#[test]
fn aim_around_the_target_moves_the_eye() {
    let mut camera = Camera::new(v(1, 2, 3), v(4, 6, 8), 0);
    assert!(camera.aim(&v(0, 0, 9), true));
    assert_eq!(camera.target, v(4, 6, 8));
    assert_eq!(camera.position, v(4, 6, -1));
    assert_eq!(camera.get_forward(), v(0, 0, 9));
}

#[test]
fn aim_out_of_reach_leaves_the_camera() {
    let mut camera = Camera::new(v(REACH, 0, 0), v(0, 0, 0), 0);
    let before = camera;
    assert!(!camera.aim(&v(1, 0, 0), false));
    assert!(!camera.aim(&v(i128::MIN, 0, 0), true));
    assert_eq!(camera, before);
}

#[test]
fn vector_arithmetic_is_exact() {
    assert_eq!(v(1, 2, 3).plus(&v(10, 20, 30)), v(11, 22, 33));
    assert_eq!(v(1, 2, 3).minus(&v(10, 20, 30)), v(-9, -18, -27));
    assert_eq!(v(1, 0, 0).cross(&v(0, 1, 0)), v(0, 0, 1));
    assert_eq!(v(1, 2, 3).cross(&v(4, 5, 6)), v(-3, 6, -3));
    assert_eq!(v(4, 5, 6).cross(&v(1, 2, 3)), v(3, -6, 3));
}

#[test]
fn reach_is_two_to_the_sixtieth() {
    assert_eq!(REACH, 1i128 << 60);
    assert!(v(REACH, -REACH, 0).in_reach());
    assert!(!v(REACH + 1, 0, 0).in_reach());
    assert!(!v(0, 0, -REACH - 1).in_reach());
    assert!(v(5, -5, 0).fits(5));
    assert!(!v(5, -6, 0).fits(5));
}

#[test]
fn orthogonalize_keeps_an_orthogonal_basis() {
    let basis = orthogonalize(&v(0, 1, 0), &v(0, 0, 1));
    assert_eq!(basis.forward, v(0, 0, 1));
    assert_eq!(basis.right, v(1, 0, 0));
    assert_eq!(basis.up, v(0, 1, 0));
}

#[test]
fn orthogonalize_straightens_a_skewed_up() {
    let basis = orthogonalize(&v(1, 2, 3), &v(2, 0, 1));
    assert_eq!(basis.right, v(2, 5, -4));
    assert_eq!(basis.up, v(-5, 10, 10));
    assert_eq!(dot(basis.right, basis.forward), 0);
    assert_eq!(dot(basis.up, basis.forward), 0);
    assert_eq!(dot(basis.up, basis.right), 0);
}

#[test]
fn orthogonalize_twice_only_stretches() {
    let forward = v(2, 0, 1);
    let once = orthogonalize(&v(1, 2, 3), &forward);
    let twice = orthogonalize(&once.up, &forward);
    let n = dot(forward, forward);
    assert_eq!(n, 5);
    assert_eq!(twice.right, v(once.right.x * n, once.right.y * n, once.right.z * n));
    assert_eq!(twice.up, v(once.up.x * n, once.up.y * n, once.up.z * n));
    assert_eq!(twice.right, v(10, 25, -20));
    assert_eq!(twice.up, v(-25, 50, 50));
}

#[test]
fn orthogonalize_at_full_span_does_not_overflow() {
    assert_eq!(SPAN, 1i128 << 40);
    let basis = orthogonalize(&v(SPAN, SPAN, SPAN), &v(SPAN, -SPAN, SPAN));
    assert_eq!(basis.right, v(2 * SPAN * SPAN, 0, -2 * SPAN * SPAN));
    assert_eq!(dot(v(1, -1, 1), v(2, 0, -2)), 0);
    assert_eq!(basis.up.y, 4 * SPAN * SPAN * SPAN);
}

#[test]
fn standard_speeds() {
    let speeds = Speeds::default();
    assert_eq!(
        speeds,
        Speeds { travel: 5_400_000, turn: 30_000, pan: 200_000, look: 600_000_000 }
    );
}

#[test]
fn amounts_of_a_frame_of_one_second() {
    let speeds = Speeds::default();
    let motion = Motion { frame_micros: 1_000_000, mouse_dx: 10, mouse_dy: -3 };
    assert_eq!(evaluate(Amount::plus(Measure::Travel), &speeds, &motion), 5_400_000_000_000);
    assert_eq!(evaluate(Amount::plus(Measure::Turn), &speeds, &motion), 30_000_000_000);
    assert_eq!(evaluate(Amount::plus(Measure::Pan), &speeds, &motion), 200_000_000_000);
    assert_eq!(evaluate(Amount::plus(Measure::MouseX), &speeds, &motion), 6_000_000_000);
    assert_eq!(evaluate(Amount::plus(Measure::MouseY), &speeds, &motion), -1_800_000_000);
    assert_eq!(evaluate(Amount::minus(Measure::Travel), &speeds, &motion), -5_400_000_000_000);
    assert_eq!(evaluate(Amount::minus(Measure::MouseX), &speeds, &motion), -6_000_000_000);
    assert_eq!(evaluate(Amount::minus(Measure::MouseY), &speeds, &motion), 1_800_000_000);
}

#[test]
fn speed_driven_amounts_are_proportional_to_frame_time() {
    let speeds = Speeds::default();
    let frame = |frame_micros: u64| Motion { frame_micros, mouse_dx: 4, mouse_dy: 4 };
    for measure in [Measure::Pan, Measure::Turn, Measure::Travel] {
        let one = evaluate(Amount::plus(measure), &speeds, &frame(16_667));
        assert_eq!(evaluate(Amount::plus(measure), &speeds, &frame(0)), 0);
        assert_eq!(evaluate(Amount::plus(measure), &speeds, &frame(2 * 16_667)), 2 * one);
        assert_eq!(
            evaluate(Amount::plus(measure), &speeds, &frame(1_000_000 * 16_667)),
            1_000_000 * one
        );
    }
    assert_eq!(
        evaluate(Amount::plus(Measure::Travel), &speeds, &frame(u64::MAX)),
        5_400_000 * (u64::MAX as i128)
    );
}

#[test]
fn mouse_amounts_ignore_frame_time() {
    let speeds = Speeds::default();
    for frame_micros in [0u64, 1, 16_667, u64::MAX] {
        let motion = Motion { frame_micros, mouse_dx: -7, mouse_dy: 2 };
        assert_eq!(evaluate(Amount::plus(Measure::MouseX), &speeds, &motion), -4_200_000_000);
        assert_eq!(evaluate(Amount::plus(Measure::MouseY), &speeds, &motion), 1_200_000_000);
    }
}

#[test]
fn extreme_amounts_do_not_overflow() {
    let speeds = Speeds { travel: u32::MAX, turn: u32::MAX, pan: u32::MAX, look: u32::MAX };
    let motion = Motion { frame_micros: u64::MAX, mouse_dx: i32::MIN, mouse_dy: i32::MAX };
    assert_eq!(
        evaluate(Amount::minus(Measure::Pan), &speeds, &motion),
        -((u32::MAX as i128) * (u64::MAX as i128))
    );
    assert_eq!(
        evaluate(Amount::minus(Measure::MouseX), &speeds, &motion),
        (u32::MAX as i128) << 31
    );
    assert_eq!(
        evaluate(Amount::plus(Measure::MouseY), &speeds, &motion),
        (u32::MAX as i128) * (i32::MAX as i128)
    );
}

#[test]
fn panning_right_translates_without_turning() {
    let input = FrameInput { pan: true, mouse_x: Sign::Positive, ..FrameInput::idle() };
    let speeds = Speeds::default();
    let motion = Motion { frame_micros: 16_667, mouse_dx: 12, mouse_dy: 0 };
    let unit: i128 = 1_000_000_000_000;
    let mut camera = Camera::new(v(0, 0, 0), v(0, 0, unit), 0);
    let forward = camera.get_forward();
    for step in plan_update(&input) {
        match step {
            Step::MoveRight(amount) => {
                let distance = evaluate(amount, &speeds, &motion);
                assert_eq!(distance, 3_333_400_000);
                let right = camera.get_right();
                assert_eq!(right, v(-unit, 0, 0));
                let by = v(right.x / unit * distance, 0, 0);
                assert!(camera.translate(&by));
            }
            Step::Orthonormalize => {}
            other => panic!("unexpected step {:?}", other),
        }
    }
    assert_eq!(camera.position, v(-3_333_400_000, 0, 0));
    assert_eq!(camera.target, v(-3_333_400_000, 0, unit));
    assert_eq!(camera.get_forward(), forward);
}
