use vstd::prelude::*;

verus! {

/// What a MEOS "always"/"ever" comparison answers: `-1` for an error (no
/// answer), `1` for true and any other number for false.
pub open spec fn bool_answer(result: i32) -> Option<bool> {
    if result != -1 {
        Some(result == 1)
    } else {
        None
    }
}

/// Decodes the answer of a MEOS "always"/"ever" comparison.
pub fn bool_from_meos(result: i32) -> (r: Option<bool>)
    ensures
        r == bool_answer(result),
{
    if result != -1 {
        Some(result == 1)
    } else {
        None
    }
}

/// The order that a MEOS comparison result stands for: `-1`, `0` and `1`
/// are less, equal and greater; any other number stands for none.
pub open spec fn order_answer(c: i32) -> Option<core::cmp::Ordering> {
    if c == -1 {
        Some(core::cmp::Ordering::Less)
    } else if c == 0 {
        Some(core::cmp::Ordering::Equal)
    } else if c == 1 {
        Some(core::cmp::Ordering::Greater)
    } else {
        None
    }
}

/// Decodes the result of a MEOS comparison of two values.
pub fn ordering_from_meos(c: i32) -> (r: Option<core::cmp::Ordering>)
    ensures
        r == order_answer(c),
{
    match c {
        -1 => Some(core::cmp::Ordering::Less),
        0 => Some(core::cmp::Ordering::Equal),
        1 => Some(core::cmp::Ordering::Greater),
        _ => None,
    }
}

/// Decodes the result of a MEOS comparison of two values of the same type,
/// which is always `-1`, `0` or `1`.
pub fn total_ordering_from_meos(c: i32) -> (r: core::cmp::Ordering)
    requires
        -1 <= c <= 1,
    ensures
        Some(r) == order_answer(c),
{
    match ordering_from_meos(c) {
        Some(o) => o,
        None => core::cmp::Ordering::Equal,
    }
}

/// A comparison result `c` and its negation `d` decode to reverse orders, so that
/// comparing two values one way and the other way agree.
pub proof fn law_order_reverses(c: i32, d: i32)
    requires
        -1 <= c <= 1,
        d == -c,
    ensures
        order_answer(c) is Some,
        order_answer(d) is Some,
        order_answer(c) == Some(core::cmp::Ordering::Less) <==> order_answer(d) == Some(
            core::cmp::Ordering::Greater,
        ),
        order_answer(c) == Some(core::cmp::Ordering::Equal) <==> order_answer(d) == Some(
            core::cmp::Ordering::Equal,
        ),
{
}

/// An "always"/"ever" answer is missing exactly for `-1`, and true exactly
/// for `1`.
pub proof fn law_bool_answer(result: i32)
    ensures
        bool_answer(result) is None <==> result == -1,
        bool_answer(result) == Some(true) <==> result == 1,
        bool_answer(result) == Some(false) <==> (result != 1 && result != -1),
{
}

} // verus!
