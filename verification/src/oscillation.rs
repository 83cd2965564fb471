use vstd::prelude::*;

verus! {

/// The drift offset `t`, rounded to hundredths, at which the direction
/// turns: `t` travels between `-1.0` and `1.0`, that is between these
/// numbers of hundredths.
pub const TURN_HUNDREDTHS: i64 = 100;

/// The direction after observing the offset: it turns to decreasing at the
/// upper bound, to increasing at the lower bound, and stays as it was
/// anywhere else.
pub open spec fn spec_next_increase(hundredths: int, increase: bool) -> bool {
    if hundredths == TURN_HUNDREDTHS {
        false
    } else if hundredths == -TURN_HUNDREDTHS {
        true
    } else {
        increase
    }
}

/// Decides whether the offset should grow on the next frame, given the
/// offset rounded to the nearest hundredth (`round(t * 100)`) and the
/// current direction.
pub fn next_increase(hundredths: i64, increase: bool) -> (r: bool)
    ensures
        r == spec_next_increase(hundredths as int, increase),
        hundredths == TURN_HUNDREDTHS ==> !r,
        hundredths == -TURN_HUNDREDTHS ==> r,
        hundredths != TURN_HUNDREDTHS && hundredths != -TURN_HUNDREDTHS ==> r == increase,
{
    if hundredths == TURN_HUNDREDTHS {
        false
    } else if hundredths == -TURN_HUNDREDTHS {
        true
    } else {
        increase
    }
}

/// Observing the same offset again does not flip the direction back: the
/// offset stays at a bound for many frames while it creeps past it, and the
/// direction chosen at the bound holds for all of them.
pub proof fn lemma_repeat_observation(hundredths: int, increase: bool)
    ensures
        spec_next_increase(hundredths, spec_next_increase(hundredths, increase))
            == spec_next_increase(hundredths, increase),
{
}

/// At a bound the direction always points back into the band, whatever it
/// was before.
pub proof fn lemma_bounds_point_inward(increase: bool)
    ensures
        !spec_next_increase(TURN_HUNDREDTHS as int, increase),
        spec_next_increase(-TURN_HUNDREDTHS as int, increase),
{
}

/// Only the two turning values change the direction: at every other
/// offset, inside the band or past it, the direction is kept as it was.
pub proof fn lemma_direction_kept_off_the_bounds(hundredths: int, increase: bool)
    requires
        hundredths != TURN_HUNDREDTHS,
        hundredths != -TURN_HUNDREDTHS,
    ensures
        spec_next_increase(hundredths, increase) == increase,
{
}

/// The direction never depends on what it was before at a turning value,
/// and always does elsewhere: two calls that differ only in the current
/// direction agree exactly at the turning values.
pub proof fn lemma_turning_values_decide(hundredths: int)
    ensures
        (spec_next_increase(hundredths, true) == spec_next_increase(hundredths, false))
            <==> (hundredths == TURN_HUNDREDTHS || hundredths == -TURN_HUNDREDTHS),
{
}

} // verus!
