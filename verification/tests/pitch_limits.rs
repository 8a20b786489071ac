use freelook::pitch::{limit_pitch, EPSILON};

const MICRO: i128 = 1_000_000;
const QUARTER_TURN: i128 = 1_570_796 * MICRO;
const HALF_TURN: i128 = 3_141_593 * MICRO;

#[test]
fn margin_is_a_thousandth_of_a_radian() {
    assert_eq!(EPSILON, 1_000 * MICRO);
}

#[test]
fn request_within_limits_is_kept() {
    assert_eq!(limit_pitch(500 * MICRO, QUARTER_TURN, HALF_TURN - QUARTER_TURN), 500 * MICRO);
    assert_eq!(limit_pitch(-30_000 * MICRO, QUARTER_TURN, HALF_TURN - QUARTER_TURN), -30_000 * MICRO);
    assert_eq!(limit_pitch(0, QUARTER_TURN, HALF_TURN - QUARTER_TURN), 0);
}

#[test]
fn request_above_ceiling_is_held_to_it() {
    assert_eq!(limit_pitch(2_000_000 * MICRO, QUARTER_TURN, HALF_TURN - QUARTER_TURN), 1_569_796 * MICRO);
    assert_eq!(limit_pitch(1_569_797 * MICRO, QUARTER_TURN, HALF_TURN - QUARTER_TURN), 1_569_796 * MICRO);
    assert_eq!(limit_pitch(1_569_796 * MICRO, QUARTER_TURN, HALF_TURN - QUARTER_TURN), 1_569_796 * MICRO);
}

#[test]
fn request_below_floor_is_held_to_it() {
    assert_eq!(limit_pitch(-2_000_000 * MICRO, QUARTER_TURN, HALF_TURN - QUARTER_TURN), -1_569_797 * MICRO);
    assert_eq!(limit_pitch(-1_569_798 * MICRO, QUARTER_TURN, HALF_TURN - QUARTER_TURN), -1_569_797 * MICRO);
}

#[test]
fn forward_on_the_up_axis_is_pushed_off_it() {
    assert_eq!(limit_pitch(0, 0, HALF_TURN), -1_000 * MICRO);
    assert_eq!(limit_pitch(700 * MICRO, 0, HALF_TURN), -1_000 * MICRO);
    assert_eq!(limit_pitch(0, HALF_TURN, 0), 1_000 * MICRO);
}

#[test]
fn floor_wins_where_the_limits_cross() {
    assert_eq!(limit_pitch(5 * MICRO, 300 * MICRO, 400 * MICRO), 600 * MICRO);
    assert_eq!(limit_pitch(-5_000 * MICRO, 300 * MICRO, 400 * MICRO), 600 * MICRO);
}

#[test]
fn extreme_requests_do_not_overflow() {
    assert_eq!(limit_pitch(i128::MAX, i128::MAX, i128::MAX), i128::MAX - EPSILON);
    assert_eq!(limit_pitch(i128::MIN, i128::MAX, i128::MAX), EPSILON - i128::MAX);
    assert_eq!(limit_pitch(i128::MIN, 0, 0), EPSILON);
}

#[test]
fn repeated_pitches_stay_clear_of_both_poles() {
    let requests: [i128; 8] = [900_000, 900_000, 900_000, -4_000_000, -1, 3_141_593, 12, -700_000];
    let mut to_up: i128 = QUARTER_TURN;
    let mut to_down: i128 = HALF_TURN - QUARTER_TURN;
    for request in requests.map(|r| r * MICRO) {
        let applied = limit_pitch(request, to_up, to_down);
        to_up -= applied;
        to_down += applied;
        assert!(to_up >= EPSILON);
        assert!(to_down >= EPSILON);
        assert_eq!(to_up + to_down, HALF_TURN);
        assert_eq!(limit_pitch(applied, to_up + applied, to_down - applied), applied);
    }
    assert_eq!(to_up, (1_000 + 700_000) * MICRO);
}
