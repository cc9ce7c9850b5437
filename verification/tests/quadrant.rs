use complex::quadrant::{arg_correction, ArgCorrection};

#[test]
fn third_quadrant_gets_half_turn() {
    // both components negative: the raw arctangent registers a
    // first-quadrant angle and half a turn carries it into the third
    assert_eq!(arg_correction(true, true, false), ArgCorrection::AddHalfTurn);
}

#[test]
fn second_quadrant_gets_half_turn() {
    // real negative, imaginary non-negative: the raw arctangent registers
    // a fourth-quadrant angle and half a turn carries it into the second
    assert_eq!(arg_correction(true, false, true), ArgCorrection::AddHalfTurn);
}

#[test]
fn fourth_quadrant_gets_full_turn() {
    // real non-negative, raw arctangent negative: a full turn carries the
    // angle into the fourth quadrant's range
    assert_eq!(arg_correction(false, true, true), ArgCorrection::AddFullTurn);
    assert_eq!(arg_correction(false, false, true), ArgCorrection::AddFullTurn);
}

#[test]
fn first_quadrant_is_kept() {
    assert_eq!(arg_correction(false, false, false), ArgCorrection::Keep);
    assert_eq!(arg_correction(false, true, false), ArgCorrection::Keep);
}

#[test]
fn decision_ignores_the_imaginary_sign() {
    let signs = [false, true];
    for &real_negative in &signs {
        for &raw_negative in &signs {
            assert_eq!(
                arg_correction(real_negative, true, raw_negative),
                arg_correction(real_negative, false, raw_negative),
            );
        }
    }
}
