use freelook::input::{FrameInput, Sign};
use freelook::plan::plan_update;
use freelook::rate::{input_for, Motion};
use freelook::step::{Amount, Measure, Step};

fn all_signs() -> [Sign; 3] {
    [Sign::Negative, Sign::Zero, Sign::Positive]
}

fn input_from_bits(bits: u32, mouse_x: Sign, mouse_y: Sign) -> FrameInput {
    FrameInput {
        mouse_x,
        mouse_y,
        pan: bits & 1 != 0,
        pitch_down: bits & 2 != 0,
        pitch_up: bits & 4 != 0,
        yaw_right: bits & 8 != 0,
        yaw_left: bits & 16 != 0,
        forward: bits & 32 != 0,
        back: bits & 64 != 0,
        right: bits & 128 != 0,
        left: bits & 256 != 0,
        up: bits & 512 != 0,
        down: bits & 1024 != 0,
    }
}

#[test]
fn idle_frame_looks_then_orthonormalizes() {
    let steps = plan_update(&FrameInput::idle());
    assert_eq!(
        steps,
        vec![
            Step::Yaw(Amount::minus(Measure::MouseX)),
            Step::Pitch(Amount::minus(Measure::MouseY)),
            Step::Orthonormalize,
        ]
    );
}

#[test]
fn idle_input_holds_nothing() {
    let input = FrameInput::idle();
    assert_eq!(input, input_from_bits(0, Sign::Zero, Sign::Zero));
}

#[test]
fn pan_with_mouse_right_only_moves_right() {
    let input = FrameInput { pan: true, mouse_x: Sign::Positive, ..FrameInput::idle() };
    let steps = plan_update(&input);
    assert_eq!(
        steps,
        vec![Step::MoveRight(Amount::plus(Measure::Pan)), Step::Orthonormalize]
    );
    assert!(steps.iter().all(|s| !s.is_rotation()));
}

#[test]
fn pan_with_mouse_left_moves_left() {
    let input = FrameInput { pan: true, mouse_x: Sign::Negative, ..FrameInput::idle() };
    assert_eq!(
        plan_update(&input),
        vec![Step::MoveRight(Amount::minus(Measure::Pan)), Step::Orthonormalize]
    );
}

#[test]
fn pan_with_mouse_down_moves_down() {
    let input = FrameInput { pan: true, mouse_y: Sign::Positive, ..FrameInput::idle() };
    assert_eq!(
        plan_update(&input),
        vec![Step::MoveUp(Amount::minus(Measure::Pan)), Step::Orthonormalize]
    );
}

#[test]
fn pan_with_mouse_up_moves_up() {
    let input = FrameInput { pan: true, mouse_y: Sign::Negative, ..FrameInput::idle() };
    assert_eq!(
        plan_update(&input),
        vec![Step::MoveUp(Amount::plus(Measure::Pan)), Step::Orthonormalize]
    );
}

#[test]
fn pan_on_both_axes_moves_right_then_up() {
    let input = FrameInput {
        pan: true,
        mouse_x: Sign::Positive,
        mouse_y: Sign::Negative,
        ..FrameInput::idle()
    };
    assert_eq!(
        plan_update(&input),
        vec![
            Step::MoveRight(Amount::plus(Measure::Pan)),
            Step::MoveUp(Amount::plus(Measure::Pan)),
            Step::Orthonormalize,
        ]
    );
}

#[test]
fn pan_with_resting_mouse_only_orthonormalizes() {
    let input = FrameInput { pan: true, ..FrameInput::idle() };
    assert_eq!(plan_update(&input), vec![Step::Orthonormalize]);
}

#[test]
fn every_key_held_gives_thirteen_steps_in_order() {
    let input = input_from_bits(0b111_1111_1110, Sign::Positive, Sign::Negative);
    assert_eq!(
        plan_update(&input),
        vec![
            Step::Yaw(Amount::minus(Measure::MouseX)),
            Step::Pitch(Amount::minus(Measure::MouseY)),
            Step::Pitch(Amount::minus(Measure::Turn)),
            Step::Pitch(Amount::plus(Measure::Turn)),
            Step::Yaw(Amount::minus(Measure::Turn)),
            Step::Yaw(Amount::plus(Measure::Turn)),
            Step::MoveForward(Amount::plus(Measure::Travel)),
            Step::MoveForward(Amount::minus(Measure::Travel)),
            Step::MoveRight(Amount::plus(Measure::Travel)),
            Step::MoveRight(Amount::minus(Measure::Travel)),
            Step::MoveUp(Amount::plus(Measure::Travel)),
            Step::MoveUp(Amount::minus(Measure::Travel)),
            Step::Orthonormalize,
        ]
    );
}

#[test]
fn pan_keeps_the_rotation_keys() {
    let input = FrameInput {
        pan: true,
        mouse_x: Sign::Negative,
        yaw_left: true,
        forward: true,
        ..FrameInput::idle()
    };
    assert_eq!(
        plan_update(&input),
        vec![
            Step::MoveRight(Amount::minus(Measure::Pan)),
            Step::Yaw(Amount::plus(Measure::Turn)),
            Step::MoveForward(Amount::plus(Measure::Travel)),
            Step::Orthonormalize,
        ]
    );
}

#[test]
fn every_frame_orthonormalizes_once_at_the_end() {
    for bits in 0u32..2048 {
        for mx in all_signs() {
            for my in all_signs() {
                let steps = plan_update(&input_from_bits(bits, mx, my));
                assert!(!steps.is_empty() && steps.len() <= 13);
                assert_eq!(steps[steps.len() - 1], Step::Orthonormalize);
                let count = steps.iter().filter(|s| **s == Step::Orthonormalize).count();
                assert_eq!(count, 1);
            }
        }
    }
}

#[test]
fn pan_never_takes_an_amount_from_the_mouse() {
    for bits in 0u32..2048 {
        for mx in all_signs() {
            for my in all_signs() {
                let input = input_from_bits(bits | 1, mx, my);
                for step in plan_update(&input) {
                    let from_mouse = match step {
                        Step::MoveForward(a)
                        | Step::MoveRight(a)
                        | Step::MoveUp(a)
                        | Step::Yaw(a)
                        | Step::Pitch(a) => !a.measure.is_frame_scaled(),
                        Step::Orthonormalize => false,
                    };
                    assert!(!from_mouse);
                }
            }
        }
    }
}

#[test]
fn pan_without_rotation_keys_only_translates() {
    for bits in 0u32..2048 {
        if bits & 0b11110 != 0 {
            continue;
        }
        for mx in all_signs() {
            for my in all_signs() {
                let steps = plan_update(&input_from_bits(bits | 1, mx, my));
                let body = &steps[..steps.len() - 1];
                assert!(body.iter().all(|s| s.is_translation()));
            }
        }
    }
}

#[test]
fn no_rotation_follows_a_travel_step() {
    for bits in 0u32..2048 {
        let steps = plan_update(&input_from_bits(bits, Sign::Positive, Sign::Positive));
        let mut travelled = false;
        for step in steps {
            if travelled {
                assert!(!step.is_rotation());
            }
            if let Step::MoveForward(a) | Step::MoveRight(a) | Step::MoveUp(a) = step {
                if a.measure == Measure::Travel {
                    travelled = true;
                }
            }
        }
    }
}

#[test]
fn mouse_measures_are_not_frame_scaled() {
    assert!(Measure::Pan.is_frame_scaled());
    assert!(Measure::Turn.is_frame_scaled());
    assert!(Measure::Travel.is_frame_scaled());
    assert!(!Measure::MouseX.is_frame_scaled());
    assert!(!Measure::MouseY.is_frame_scaled());
}

#[test]
fn amounts_carry_their_sign() {
    assert_eq!(Amount::plus(Measure::Pan), Amount { measure: Measure::Pan, negated: false });
    assert_eq!(Amount::minus(Measure::Turn), Amount { measure: Measure::Turn, negated: true });
}

#[test]
fn steps_know_their_kind() {
    let a = Amount::plus(Measure::Travel);
    assert!(Step::Yaw(a).is_rotation() && Step::Pitch(a).is_rotation());
    assert!(!Step::MoveUp(a).is_rotation() && !Step::Orthonormalize.is_rotation());
    assert!(Step::MoveForward(a).is_translation());
    assert!(Step::MoveRight(a).is_translation() && Step::MoveUp(a).is_translation());
    assert!(!Step::Yaw(a).is_translation() && !Step::Orthonormalize.is_translation());
}

#[test]
fn sign_of_a_delta() {
    assert_eq!(Sign::from_delta(3), Sign::Positive);
    assert_eq!(Sign::from_delta(-3), Sign::Negative);
    assert_eq!(Sign::from_delta(0), Sign::Zero);
    assert_eq!(Sign::from_delta(i32::MIN), Sign::Negative);
    assert_eq!(Sign::from_delta(i32::MAX), Sign::Positive);
}

#[test]
fn input_takes_its_signs_from_the_motion() {
    let keys = input_from_bits(0b101_0101_0101, Sign::Positive, Sign::Positive);
    let motion = Motion { frame_micros: 16_667, mouse_dx: -4, mouse_dy: 0 };
    let input = input_for(&keys, &motion);
    assert_eq!(input, input_from_bits(0b101_0101_0101, Sign::Negative, Sign::Zero));
    assert_eq!(plan_update(&input)[0], Step::MoveRight(Amount::minus(Measure::Pan)));
}
