use meos::json::JSONCVariant;
use meos::shift_scale::{
    checked_day_shift_scale_args, day_shift_scale_args, shift_scale_args, ShiftScale,
};
use meos::status::{bool_from_meos, ordering_from_meos, total_ordering_from_meos};
use meos::time::{
    checked_date_from_meos, checked_date_to_meos, checked_from_meos_timestamp, create_interval,
    date_from_meos, date_to_meos, from_meos_timestamp, interval_days, to_meos_timestamp, Interval,
    DAYS_UNTIL_2000, MAX_CE_DAY, MAX_UTC_MICROS, MICROSECONDS_UNTIL_2000, MIN_CE_DAY,
    MIN_UTC_MICROS, UNIX_EPOCH_CE_DAY,
};
use std::cmp::Ordering;

#[test]
fn epoch_constants() {
    assert_eq!(MICROSECONDS_UNTIL_2000, 946_684_800_000_000);
    assert_eq!(DAYS_UNTIL_2000, 730_120);
}

#[test]
fn timestamps_shift_by_the_2000_epoch() {
    assert_eq!(to_meos_timestamp(946_684_800_000_000), 0);
    assert_eq!(to_meos_timestamp(0), -946_684_800_000_000);
    assert_eq!(from_meos_timestamp(0), 946_684_800_000_000);
    assert_eq!(from_meos_timestamp(to_meos_timestamp(1_589_544_000_000_000)), 1_589_544_000_000_000);
}

#[test]
fn checked_timestamps() {
    assert_eq!(checked_from_meos_timestamp(0), Some(946_684_800_000_000));
    assert_eq!(checked_from_meos_timestamp(i64::MAX), None);
    assert_eq!(checked_from_meos_timestamp(i64::MAX - 946_684_800_000_000), None);
}

#[test]
fn chrono_range_edges() {
    assert_eq!(UNIX_EPOCH_CE_DAY, 719_163);
    let max = MAX_UTC_MICROS - MICROSECONDS_UNTIL_2000;
    let min = MIN_UTC_MICROS - MICROSECONDS_UNTIL_2000;
    assert_eq!(checked_from_meos_timestamp(max), Some(MAX_UTC_MICROS));
    assert_eq!(checked_from_meos_timestamp(max + 1), None);
    assert_eq!(checked_from_meos_timestamp(min), Some(MIN_UTC_MICROS));
    assert_eq!(checked_from_meos_timestamp(min - 1), None);
    // 2023-01-01 00:00 UTC
    assert_eq!(checked_from_meos_timestamp(725_846_400_000_000), Some(1_672_531_200_000_000));
    // 2023-01-01
    assert_eq!(checked_date_to_meos(738_521), Some(8_401));
    assert_eq!(checked_date_from_meos(8_401), Some(738_521));
    assert_eq!(checked_date_to_meos(MAX_CE_DAY + DAYS_UNTIL_2000), Some(MAX_CE_DAY));
    assert_eq!(checked_date_to_meos(MAX_CE_DAY + DAYS_UNTIL_2000 + 1), None);
    assert_eq!(checked_date_to_meos(MIN_CE_DAY + DAYS_UNTIL_2000), Some(MIN_CE_DAY));
    assert_eq!(checked_date_to_meos(MIN_CE_DAY + DAYS_UNTIL_2000 - 1), None);
    assert_eq!(checked_date_from_meos(MAX_CE_DAY - DAYS_UNTIL_2000), Some(MAX_CE_DAY));
    assert_eq!(checked_date_from_meos(MAX_CE_DAY - DAYS_UNTIL_2000 + 1), None);
    assert_eq!(checked_date_from_meos(MIN_CE_DAY), Some(MIN_CE_DAY + DAYS_UNTIL_2000));
    // Both the MEOS day and its day of the common era must be dates.
    assert_eq!(checked_date_from_meos(MIN_CE_DAY - DAYS_UNTIL_2000), None);
    assert_eq!(checked_date_from_meos(MIN_CE_DAY + DAYS_UNTIL_2000), Some(MIN_CE_DAY + 2 * DAYS_UNTIL_2000));
}

#[test]
fn dates_shift_by_the_2000_epoch() {
    assert_eq!(date_from_meos(0), 730_120);
    assert_eq!(date_to_meos(730_120), 0);
    assert_eq!(date_to_meos(date_from_meos(-365)), -365);
    assert_eq!(checked_date_from_meos(8766), Some(738_886));
    assert_eq!(checked_date_from_meos(i32::MAX), None);
    assert_eq!(checked_date_from_meos(400_000_000), None);
    assert_eq!(checked_date_to_meos(738_886), Some(8766));
    assert_eq!(checked_date_to_meos(i32::MIN), None);
    assert_eq!(checked_date_to_meos(-400_000_000), None);
}

#[test]
fn intervals_from_durations() {
    let one_day = 86_400_000_000i64;
    assert_eq!(
        create_interval(Some(one_day), 1),
        Interval { time: one_day, day: 1, month: 0 }
    );
    assert_eq!(create_interval(None, 3), Interval { time: 0, day: 3, month: 0 });
    assert_eq!(create_interval(Some(5), 0), Interval { time: 5, day: 0, month: 0 });
    assert_eq!(create_interval(None, (1i64 << 32) + 7).day, 7);
    // A whole day is counted once in the microseconds and once in the days.
    let iv = create_interval(Some(one_day), 1);
    assert_eq!(iv.time + interval_days(&iv) * one_day, 2 * one_day);
}

#[test]
fn interval_days_count_months_as_thirty_days() {
    assert_eq!(interval_days(&Interval { time: 0, day: 2, month: 1 }), 32);
    assert_eq!(interval_days(&Interval { time: 9, day: -1, month: 0 }), -1);
}

#[test]
fn shift_scale_packing() {
    assert_eq!(
        shift_scale_args(Some(3), None, 0),
        ShiftScale { delta: 3, width: 0, has_delta: true, has_width: false }
    );
    assert_eq!(
        shift_scale_args(None, Some(4), 0),
        ShiftScale { delta: 0, width: 4, has_delta: false, has_width: true }
    );
    assert_eq!(
        day_shift_scale_args(Some(5), Some(10)),
        ShiftScale { delta: 5, width: 10, has_delta: true, has_width: true }
    );
    assert_eq!(checked_day_shift_scale_args(Some(1i64 << 40), None), None);
    assert_eq!(
        checked_day_shift_scale_args(None, None),
        Some(ShiftScale { delta: 0, width: 0, has_delta: false, has_width: false })
    );
}

#[test]
fn shift_scale_packing_of_floats() {
    assert_eq!(
        shift_scale_args(Some(2.5f64), None, 0.0),
        ShiftScale { delta: 2.5, width: 0.0, has_delta: true, has_width: false }
    );
}

#[test]
fn meos_answers() {
    assert_eq!(bool_from_meos(1), Some(true));
    assert_eq!(bool_from_meos(0), Some(false));
    assert_eq!(bool_from_meos(2), Some(false));
    assert_eq!(bool_from_meos(-1), None);
    assert_eq!(ordering_from_meos(-1), Some(Ordering::Less));
    assert_eq!(ordering_from_meos(0), Some(Ordering::Equal));
    assert_eq!(ordering_from_meos(1), Some(Ordering::Greater));
    assert_eq!(ordering_from_meos(2), None);
    assert_eq!(total_ordering_from_meos(1), Ordering::Greater);
    for c in -1..=1 {
        assert_eq!(ordering_from_meos(c).map(Ordering::reverse), ordering_from_meos(-c));
    }
}

#[test]
fn json_codes() {
    assert_eq!(JSONCVariant::Plain.code(), 0);
    assert_eq!(JSONCVariant::Spaced.code(), 1);
    assert_eq!(JSONCVariant::Pretty.code(), 2);
}
