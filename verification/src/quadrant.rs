//! Quadrant resolution for the argument of a rectangular complex number.
//!
//! The argument is computed from the arctangent of the ratio of the
//! imaginary component over the real one, and an arctangent alone only
//! reaches the two quadrants around the positive real axis.  The rule here
//! decides, from the sign bits of the real component, of the imaginary
//! component and of the raw arctangent value, which correction moves the
//! angle into its true quadrant within `[0, 2*pi)`: nothing, half a turn,
//! or a full turn.

use vstd::prelude::*;

verus! {

/// Correction added to a raw arctangent value so that the argument of a
/// rectangular complex number lands in its true quadrant within
/// `[0, 2*pi)` rather than in the arctangent's native range
/// `(-pi/2, pi/2)`.
#[derive(Clone, Copy, Debug, PartialEq, Eq, Structural)]
pub enum ArgCorrection {
    /// The raw arctangent value is kept as the argument.
    Keep,
    /// Half a turn (`pi` radians) is added.
    AddHalfTurn,
    /// A full turn (`2*pi` radians) is added.
    AddFullTurn,
}

/// The quadrant-resolution rule.
///
/// A point with a negative real component lies in the second or third
/// quadrant while its arctangent registers in the fourth or first: half a
/// turn moves the raw value from `(-pi/2, pi/2)` into `(pi/2, 3*pi/2)`,
/// the true range of those two quadrants.  With a non-negative real
/// component, a negative raw value belongs to the fourth quadrant and a
/// full turn moves it into `(3*pi/2, 2*pi)`; a non-negative raw value
/// already lies in the first quadrant and is kept.
pub open spec fn spec_arg_correction(
    real_negative: bool,
    imag_negative: bool,
    raw_negative: bool,
) -> ArgCorrection {
    if real_negative {
        ArgCorrection::AddHalfTurn
    } else if raw_negative {
        ArgCorrection::AddFullTurn
    } else {
        ArgCorrection::Keep
    }
}

/// Decides the correction for one rectangular value.
///
/// The three inputs are sign bits: of the real component, of the imaginary
/// component, and of the raw arctangent of the imaginary component over
/// the real one.  Each is taken from the IEEE sign bit, so a negative zero
/// counts as negative.  On the real axis' zero, where the ratio blows up
/// and the arctangent degenerates to a quarter turn of either sign, the
/// rule still lands right: a non-negative zero real component with a
/// negative imaginary one gives a negative raw quarter turn, and the full
/// turn carries it to three quarters.
pub fn arg_correction(
    real_negative: bool,
    imag_negative: bool,
    raw_negative: bool,
) -> (c: ArgCorrection)
    ensures
        c == spec_arg_correction(real_negative, imag_negative, raw_negative),
{
    if real_negative {
        // the arctangent registers in the fourth or first quadrant; the
        // point lies in the second or third
        ArgCorrection::AddHalfTurn
    } else if raw_negative {
        // the arctangent registers just below zero; the point lies in the
        // fourth quadrant
        ArgCorrection::AddFullTurn
    } else {
        ArgCorrection::Keep
    }
}

/// How the sign bits fix the correction: the half-turn correction applies
/// exactly when the real component is negative; the full-turn correction
/// exactly when the real component is non-negative and the raw arctangent
/// is negative; the raw value is kept exactly when neither is negative.
/// The sign of the imaginary component never changes the decision: the
/// raw arctangent's sign already carries it.
pub proof fn lemma_arg_correction_cases(
    real_negative: bool,
    imag_negative: bool,
    raw_negative: bool,
)
    ensures
        (spec_arg_correction(real_negative, imag_negative, raw_negative)
            == ArgCorrection::AddHalfTurn) <==> real_negative,
        (spec_arg_correction(real_negative, imag_negative, raw_negative)
            == ArgCorrection::AddFullTurn) <==> (!real_negative && raw_negative),
        (spec_arg_correction(real_negative, imag_negative, raw_negative)
            == ArgCorrection::Keep) <==> (!real_negative && !raw_negative),
        spec_arg_correction(real_negative, imag_negative, raw_negative)
            == spec_arg_correction(real_negative, !imag_negative, raw_negative),
{
}

} // verus!
