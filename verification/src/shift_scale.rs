use vstd::prelude::*;

verus! {

/// The arguments that MEOS takes for shifting and scaling: the shift and the
/// new width, each with a flag that says whether it is given (a value that
/// is not given is passed as zero).
#[derive(Clone, Copy, Debug, PartialEq)]
pub struct ShiftScale<T> {
    pub delta: T,
    pub width: T,
    pub has_delta: bool,
    pub has_width: bool,
}

/// The packed arguments for an optional shift and width, with `zero` in
/// place of a missing one.
pub open spec fn packed<T>(delta: Option<T>, width: Option<T>, zero: T) -> ShiftScale<T> {
    ShiftScale {
        delta: match delta {
            Some(d) => d,
            None => zero,
        },
        width: match width {
            Some(w) => w,
            None => zero,
        },
        has_delta: delta is Some,
        has_width: width is Some,
    }
}

/// Packs an optional shift and an optional width for MEOS; `zero` is the
/// zero of the value type, passed where a part is missing.
pub fn shift_scale_args<T: Copy>(delta: Option<T>, width: Option<T>, zero: T) -> (r: ShiftScale<T>)
    ensures
        r == packed(delta, width, zero),
        r.has_delta == (delta is Some),
        r.has_width == (width is Some),
        delta is Some ==> r.delta == delta->0,
        width is Some ==> r.width == width->0,
        delta is None ==> r.delta == zero,
        width is None ==> r.width == zero,
{
    ShiftScale {
        delta: match delta {
            Some(d) => d,
            None => zero,
        },
        width: match width {
            Some(w) => w,
            None => zero,
        },
        has_delta: delta.is_some(),
        has_width: width.is_some(),
    }
}

/// Whether a number of days fits the 32-bit day count that MEOS takes.
pub open spec fn fits_days(days: Option<i64>) -> bool {
    match days {
        Some(d) => i32::MIN <= d <= i32::MAX,
        None => true,
    }
}

/// The 32-bit form of an optional number of days.
pub open spec fn narrow_days(days: Option<i64>) -> Option<i32> {
    match days {
        Some(d) => Some(d as i32),
        None => None,
    }
}

/// Packs an optional shift and an optional width, given in whole days, for
/// a MEOS date span; each must fit in 32 bits.
pub fn day_shift_scale_args(delta_days: Option<i64>, width_days: Option<i64>) -> (r: ShiftScale<
    i32,
>)
    requires
        fits_days(delta_days),
        fits_days(width_days),
    ensures
        r == packed(narrow_days(delta_days), narrow_days(width_days), 0i32),
{
    let delta = match delta_days {
        Some(d) => Some(d as i32),
        None => None,
    };
    let width = match width_days {
        Some(w) => Some(w as i32),
        None => None,
    };
    shift_scale_args(delta, width, 0i32)
}

/// Packs the shift and width in days, or `None` where one of them does not
/// fit in 32 bits.
pub fn checked_day_shift_scale_args(delta_days: Option<i64>, width_days: Option<i64>) -> (r:
    Option<ShiftScale<i32>>)
    ensures
        r == (if fits_days(delta_days) && fits_days(width_days) {
            Some(packed(narrow_days(delta_days), narrow_days(width_days), 0i32))
        } else {
            None
        }),
        (r is Some) <==> ((delta_days is None || i32::MIN <= delta_days->0 <= i32::MAX) && (
        width_days is None || i32::MIN <= width_days->0 <= i32::MAX)),
        r is Some ==> r->0.has_delta == (delta_days is Some) && r->0.has_width == (
        width_days is Some),
        r is Some && delta_days is Some ==> r->0.delta == delta_days->0,
        r is Some && width_days is Some ==> r->0.width == width_days->0,
{
    let fits_delta = match delta_days {
        Some(d) => i32::MIN as i64 <= d && d <= i32::MAX as i64,
        None => true,
    };
    let fits_width = match width_days {
        Some(w) => i32::MIN as i64 <= w && w <= i32::MAX as i64,
        None => true,
    };
    if fits_delta && fits_width {
        Some(day_shift_scale_args(delta_days, width_days))
    } else {
        None
    }
}

/// A shift alone leaves the width unset, and a scale alone leaves the shift
/// unset: `shift` and `scale` are `shift_scale` with the other part
/// missing.
pub proof fn law_shift_and_scale_alone<T>(delta: T, width: T, zero: T)
    ensures
        packed(Some(delta), None, zero) == (ShiftScale {
            delta: delta,
            width: zero,
            has_delta: true,
            has_width: false,
        }),
        packed(None, Some(width), zero) == (ShiftScale {
            delta: zero,
            width: width,
            has_delta: false,
            has_width: true,
        }),
{
}

/// Packing days that fit in 32 bits keeps their values: the packed shift
/// and width are the given numbers of days.
pub proof fn law_days_kept(delta_days: i64, width_days: i64)
    requires
        i32::MIN <= delta_days <= i32::MAX,
        i32::MIN <= width_days <= i32::MAX,
    ensures
        packed(narrow_days(Some(delta_days)), narrow_days(Some(width_days)), 0i32).delta
            == delta_days,
        packed(narrow_days(Some(delta_days)), narrow_days(Some(width_days)), 0i32).width
            == width_days,
{
}

/// A shift and a width given together are both kept and both flagged, for
/// every value type.
pub proof fn law_shift_and_scale_together<T>(delta: T, width: T, zero: T)
    ensures
        packed(Some(delta), Some(width), zero) == (ShiftScale {
            delta: delta,
            width: width,
            has_delta: true,
            has_width: true,
        }),
        packed(None::<T>, None::<T>, zero) == (ShiftScale {
            delta: zero,
            width: zero,
            has_delta: false,
            has_width: false,
        }),
{
}

/// A number of days fits exactly when it lies in the range of `i32`,
/// negative numbers included; no number of days is missing.
pub proof fn law_fits_days_is_i32_range(days: i64)
    ensures
        fits_days(Some(days)) <==> i32::MIN <= days <= i32::MAX,
        fits_days(None),
{
}

/// Checked packing of whole days succeeds on every shift and width that fit
/// in `i32`, negative ones included, and keeps them; it fails as soon as one
/// of them does not fit.
pub proof fn law_checked_days_packing(delta_days: Option<i64>, width_days: Option<i64>)
    ensures
        ({
            let fits = |x: Option<i64>|
                match x {
                    Some(d) => i32::MIN <= d <= i32::MAX,
                    None => true,
                };
            let r = if fits_days(delta_days) && fits_days(width_days) {
                Some(packed(narrow_days(delta_days), narrow_days(width_days), 0i32))
            } else {
                None
            };
            &&& (r is Some) <==> (fits(delta_days) && fits(width_days))
            &&& r is Some ==> {
                let p = r->0;
                &&& p.has_delta == (delta_days is Some)
                &&& p.has_width == (width_days is Some)
                &&& p.delta == (match delta_days {
                    Some(d) => d,
                    None => 0,
                })
                &&& p.width == (match width_days {
                    Some(w) => w,
                    None => 0,
                })
            }
        }),
{
}

} // verus!
