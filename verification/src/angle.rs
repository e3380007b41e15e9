//! Angles in radians, as fixed-point numbers, and turning by the shorter arc.
//!
//! The three constants are the turns rounded to a raw step, so twice the
//! half turn is one step more than the full turn.

use vstd::prelude::*;
use vstd::arithmetic::div_mod::lemma_fundamental_div_mod;
use vstd::arithmetic::div_mod::lemma_fundamental_div_mod_converse;
use vstd::arithmetic::div_mod::lemma_mod_bound;
use crate::fixed::Fixed;
use crate::fixed::SCALE;
use crate::fixed::lemma_trunc_div_exact;

verus! {

/// A quarter turn: a right angle.
pub const QUARTER_TURN: i64 = 1_570_796;

/// Half a turn.
pub const HALF_TURN: i64 = 3_141_593;

/// A full turn.
pub const FULL_TURN: i64 = 6_283_185;

/// The angle that differs from `raw` by whole turns and is at least minus
/// half a turn and less than a full turn more than that.
pub open spec fn wrap_angle(raw: int) -> int {
    (raw + HALF_TURN) % (FULL_TURN as int) - HALF_TURN
}

/// The heading reached from `current` after the part `fraction` of the
/// shorter arc to `desired`.
pub open spec fn spec_turn_toward(current: Fixed, desired: Fixed, fraction: Fixed) -> Fixed {
    current.spec_add(Fixed::of(wrap_angle(desired@ - current@)).spec_mul(fraction))
}

/// A wrapped angle lies on the shorter arc, and differs from the angle it was
/// made of by a whole number of turns.
pub proof fn lemma_wrap_angle_range(raw: int)
    ensures
        -HALF_TURN <= wrap_angle(raw) < FULL_TURN - HALF_TURN,
        (raw - wrap_angle(raw)) % (FULL_TURN as int) == 0,
        -HALF_TURN <= raw < FULL_TURN - HALF_TURN ==> wrap_angle(raw) == raw,
{
    let full = FULL_TURN as int;
    let shifted = raw + HALF_TURN;
    lemma_mod_bound(shifted, full);
    lemma_fundamental_div_mod(shifted, full);
    let turns = shifted / full;
    assert(raw - wrap_angle(raw) == full * turns);
    lemma_fundamental_div_mod_converse(full * turns, full, turns, 0);
    if 0 <= shifted < full {
        lemma_fundamental_div_mod_converse(shifted, full, 0, shifted);
    }
}

/// With fraction one a turn arrives at the desired heading up to whole
/// turns, as long as the sum stays in the representable range.
pub proof fn lemma_whole_turn_arrives(current: Fixed, desired: Fixed)
    requires
        i64::MIN <= current@ + wrap_angle(desired@ - current@) <= i64::MAX,
    ensures
        (desired@ - spec_turn_toward(current, desired, Fixed { raw: SCALE })@) % (FULL_TURN
            as int) == 0,
{
    let arc = wrap_angle(desired@ - current@);
    lemma_wrap_angle_range(desired@ - current@);
    lemma_trunc_div_exact(arc, SCALE as int);
    assert(Fixed::of(arc)@ == arc);
    assert(Fixed::of(arc).spec_mul(Fixed { raw: SCALE })@ == arc);
}

/// The signed angle of the shorter arc from `from` to `to`.
pub fn shortest_turn(from: Fixed, to: Fixed) -> (r: Fixed)
    ensures
        r@ == wrap_angle(to@ - from@),
        -HALF_TURN <= r@ < FULL_TURN - HALF_TURN,
{
    let full: i128 = 6_283_185;
    let half: i128 = 3_141_593;
    let shifted: i128 = to.raw as i128 - from.raw as i128 + half;
    let rest: i128 = shifted % full;
    let wrapped: i128 = if rest < 0 {
        rest + full
    } else {
        rest
    };
    proof {
        lemma_mod_bound(shifted as int, full as int);
        if shifted < 0 {
            let back = -(shifted as int);
            lemma_fundamental_div_mod(back, full as int);
            lemma_mod_bound(back, full as int);
            let turns = back / (full as int);
            if rest < 0 {
                assert(shifted == (-turns - 1) * full + wrapped) by (nonlinear_arith)
                    requires
                        -shifted == full * turns - rest,
                        wrapped == rest + full,
                ;
                lemma_fundamental_div_mod_converse(
                    shifted as int,
                    full as int,
                    -turns - 1,
                    wrapped as int,
                );
            } else {
                assert(shifted == (-turns) * full + wrapped) by (nonlinear_arith)
                    requires
                        -shifted == full * turns,
                        wrapped == 0,
                ;
                lemma_fundamental_div_mod_converse(
                    shifted as int,
                    full as int,
                    -turns,
                    wrapped as int,
                );
            }
        }
        assert(wrapped == (shifted as int) % (full as int));
    }
    Fixed { raw: (wrapped - half) as i64 }
}

/// Turns the heading `current` toward `desired` by the part `fraction` of
/// the shorter arc between them. With fraction zero the heading stays; with
/// fraction one it arrives, up to whole turns.
pub fn turn_toward(current: Fixed, desired: Fixed, fraction: Fixed) -> (r: Fixed)
    ensures
        r == spec_turn_toward(current, desired, fraction),
        fraction@ == 0 ==> r == current,
{
    let arc = shortest_turn(current, desired);
    proof {
        if fraction@ == 0 {
            assert(arc@ * 0 == 0);
        }
    }
    current.saturating_add(arc.saturating_mul(fraction))
}

} // verus!
