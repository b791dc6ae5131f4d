use vstd::prelude::*;

verus! {

/// The value of a frame counter one tick later: one less, and never below zero.
pub open spec fn spec_countdown(val: u8) -> u8 {
    if val > 0 {
        (val - 1) as u8
    } else {
        0
    }
}

/// Steps a frame counter down by one tick, stopping at zero.
#[verifier::when_used_as_spec(spec_countdown)]
pub fn countdown(val: u8) -> (next: u8)
    ensures
        next == spec_countdown(val),
{
    if val > 0 {
        val - 1
    } else {
        0
    }
}

/// Whether the direction `motion`, in numpad notation, leans forward.
pub open spec fn spec_x_positive(motion: u8) -> bool {
    motion == 6 || motion == 3 || motion == 9
}

/// Whether the direction `motion` leans upward.
pub open spec fn spec_y_positive(motion: u8) -> bool {
    motion == 7 || motion == 8 || motion == 9
}

/// Whether the direction `motion` leans backward.
pub open spec fn spec_x_negative(motion: u8) -> bool {
    motion == 4 || motion == 1 || motion == 7
}

/// Whether the direction `motion` leans downward.
pub open spec fn spec_y_negative(motion: u8) -> bool {
    motion == 1 || motion == 2 || motion == 3
}

/// Tells whether the direction `motion` leans forward.
#[verifier::when_used_as_spec(spec_x_positive)]
pub fn x_positive(motion: u8) -> (leans: bool)
    ensures
        leans == spec_x_positive(motion),
{
    match motion {
        6 | 3 | 9 => true,
        _ => false,
    }
}

/// Tells whether the direction `motion` leans upward.
#[verifier::when_used_as_spec(spec_y_positive)]
pub fn y_positive(motion: u8) -> (leans: bool)
    ensures
        leans == spec_y_positive(motion),
{
    match motion {
        7 | 8 | 9 => true,
        _ => false,
    }
}

/// Tells whether the direction `motion` leans backward.
#[verifier::when_used_as_spec(spec_x_negative)]
pub fn x_negative(motion: u8) -> (leans: bool)
    ensures
        leans == spec_x_negative(motion),
{
    match motion {
        4 | 1 | 7 => true,
        _ => false,
    }
}

/// Tells whether the direction `motion` leans downward.
#[verifier::when_used_as_spec(spec_y_negative)]
pub fn y_negative(motion: u8) -> (leans: bool)
    ensures
        leans == spec_y_negative(motion),
{
    match motion {
        1 | 2 | 3 => true,
        _ => false,
    }
}

} // verus!
