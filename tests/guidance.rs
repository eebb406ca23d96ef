use antithesis_sdk::guidance::{Diff, Distance, Guard};

fn as_f64(d: Distance) -> f64 {
    if d.negative {
        -(d.magnitude as f64)
    } else {
        d.magnitude as f64
    }
}

#[test]
fn diff_signed_byte_extremes() {
    let up = 127i8.diff(-128);
    let down = (-128i8).diff(127);
    assert_eq!(up, Distance { negative: false, magnitude: 255 });
    assert_eq!(down, Distance { negative: true, magnitude: 255 });
    assert_eq!(as_f64(up), 255.0);
    assert_eq!(as_f64(down), -255.0);
}

#[test]
fn diff_wide_extremes() {
    assert_eq!(i128::MAX.diff(i128::MIN), Distance { negative: false, magnitude: u128::MAX });
    assert_eq!(i128::MIN.diff(i128::MAX), Distance { negative: true, magnitude: u128::MAX });
    assert_eq!(i64::MIN.diff(i64::MAX), Distance { negative: true, magnitude: u64::MAX as u128 });
    assert_eq!(isize::MAX.diff(isize::MIN), Distance { negative: false, magnitude: usize::MAX as u128 });
    assert_eq!(i16::MIN.diff(i16::MAX), Distance { negative: true, magnitude: 65535 });
    assert_eq!(i32::MAX.diff(i32::MIN), Distance { negative: false, magnitude: u32::MAX as u128 });
}

#[test]
fn diff_unsigned() {
    assert_eq!(3u8.diff(10), Distance { negative: true, magnitude: 7 });
    assert_eq!(10u16.diff(3), Distance { negative: false, magnitude: 7 });
    assert_eq!(0u32.diff(u32::MAX), Distance { negative: true, magnitude: u32::MAX as u128 });
    assert_eq!(u64::MAX.diff(0), Distance { negative: false, magnitude: u64::MAX as u128 });
    assert_eq!(0u128.diff(u128::MAX), Distance { negative: true, magnitude: u128::MAX });
    assert_eq!(5usize.diff(5), Distance { negative: false, magnitude: 0 });
}

#[test]
fn diff_of_small_values() {
    assert_eq!((-3i32).diff(0), Distance { negative: true, magnitude: 3 });
    assert_eq!(5i64.diff(-2), Distance { negative: false, magnitude: 7 });
    assert_eq!((-7isize).diff(-7), Distance { negative: false, magnitude: 0 });
}

#[test]
fn distance_order() {
    let neg = Distance { negative: true, magnitude: 4 };
    let pos = Distance { negative: false, magnitude: 2 };
    let zero_neg = Distance { negative: true, magnitude: 0 };
    let zero = Distance { negative: false, magnitude: 0 };
    assert!(neg.is_at_most(&pos));
    assert!(!pos.is_at_most(&neg));
    assert!(zero_neg.is_at_most(&zero));
    assert!(zero.is_at_most(&zero_neg));
}

#[test]
fn max_guard_emits_on_prefix_maxima() {
    let mut guard = Guard::<true, i64>::init();
    let values = [3, 1, 3, 5, 2, 5, -9, 6];
    let emitted: Vec<bool> = values.iter().map(|v| guard.should_emit(*v)).collect();
    assert_eq!(emitted, vec![true, false, true, true, false, true, false, true]);
}

#[test]
fn min_guard_emits_on_prefix_minima() {
    let mut guard = Guard::<false, u64>::init();
    let values = [7, 9, 7, 2, 3, 0, 0, 1];
    let emitted: Vec<bool> = values.iter().map(|v| guard.should_emit(*v)).collect();
    assert_eq!(emitted, vec![true, false, true, true, false, true, true, false]);
}

#[test]
fn guard_first_value_always_emits() {
    let mut max_guard = Guard::<true, i64>::init();
    assert!(max_guard.should_emit(i64::MIN));
    let mut min_guard = Guard::<false, i64>::init();
    assert!(min_guard.should_emit(i64::MAX));
    let mut lowest = Guard::<true, Distance>::init();
    assert!(lowest.should_emit(Distance { negative: true, magnitude: u128::MAX }));
}

#[test]
fn distance_guard_minimizes_margins() {
    let mut guard = Guard::<false, Distance>::init();
    let xs = [5i64, -3, -7, 2];
    let emitted: Vec<bool> = xs.iter().map(|x| guard.should_emit(x.diff(0))).collect();
    assert_eq!(emitted, vec![true, true, true, false]);
}
