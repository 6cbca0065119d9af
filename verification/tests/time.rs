use instant::{Duration, Instant};
use rhai::dynamic::Dynamic;
use rhai::error::{make_arithmetic_err, EvalAltResult, Position};
use rhai::packages::time_basic;
use rhai::packages::time_basic::{elapsed_result, moved_or_overflow, MAX_INT, NANOS_PER_SEC};

fn arithmetic(text: &str) -> Box<EvalAltResult> {
    Box::new(EvalAltResult::ErrorArithmetic(text.to_string(), Position::none()))
}

#[test]
fn constants() {
    assert_eq!(MAX_INT, i64::MAX);
    assert_eq!(NANOS_PER_SEC, 1_000_000_000);
    assert_eq!(*make_arithmetic_err("oops".to_string()), *arithmetic("oops"));
}

#[test]
fn timestamp_moves_on() {
    let first = time_basic::timestamp();
    let second = time_basic::timestamp();
    assert!(time_basic::lte(first, second));
    assert!(time_basic::gte(second, first));
}

#[test]
fn elapsed_counts_whole_seconds() {
    let now = time_basic::timestamp();
    assert_eq!(time_basic::elapsed(now), Ok(Dynamic::from_int(0)));
    let earlier = now.checked_sub(Duration::from_millis(5500)).unwrap();
    assert_eq!(time_basic::elapsed(earlier), Ok(Dynamic::from_int(5)));
}

#[test]
fn elapsed_refuses_the_future() {
    let later = time_basic::timestamp() + Duration::from_secs(1000);
    assert_eq!(time_basic::elapsed(later), Err(arithmetic("Time-stamp is later than now")));
}

#[test]
fn elapsed_result_by_cases() {
    assert_eq!(elapsed_result(0, false), Ok(Dynamic::from_int(0)));
    assert_eq!(elapsed_result(77, false), Ok(Dynamic::from_int(77)));
    assert_eq!(elapsed_result(i64::MAX as u64, false), Ok(Dynamic::from_int(i64::MAX)));
    assert_eq!(elapsed_result(77, true), Err(arithmetic("Time-stamp is later than now")));
    assert_eq!(
        elapsed_result(i64::MAX as u64 + 1, false),
        Err(arithmetic("Integer overflow for timestamp.elapsed: 9223372036854775808"))
    );
    assert_eq!(
        elapsed_result(u64::MAX, true),
        Err(arithmetic("Integer overflow for timestamp.elapsed: 18446744073709551615"))
    );
}

#[test]
fn time_diff_has_a_sign() {
    let start = Instant::now();
    let later = start + Duration::from_millis(7900);
    assert_eq!(time_basic::time_diff(later, start), Ok(Dynamic::from_int(7)));
    assert_eq!(time_basic::time_diff(start, later), Ok(Dynamic::from_int(-7)));
    assert_eq!(time_basic::time_diff(start, start), Ok(Dynamic::from_int(0)));
    let close = start + Duration::from_millis(999);
    assert_eq!(time_basic::time_diff(close, start), Ok(Dynamic::from_int(0)));
    assert_eq!(time_basic::time_diff(start, close), Ok(Dynamic::from_int(0)));
}

#[test]
fn add_and_subtract_move_by_seconds() {
    let start = Instant::now();
    let later = time_basic::add(start, 90).unwrap();
    assert_eq!(later, start + Duration::from_secs(90));
    assert_eq!(time_basic::time_diff(later, start), Ok(Dynamic::from_int(90)));
    assert_eq!(time_basic::add(later, -90), Ok(start));
    assert_eq!(time_basic::subtract(later, 90), Ok(start));
    assert_eq!(time_basic::subtract(start, -90), Ok(later));
    assert_eq!(time_basic::add(start, 0), Ok(start));
    assert_eq!(time_basic::subtract(start, 0), Ok(start));
}

#[test]
fn add_assign_and_subtract_assign() {
    let start = Instant::now();
    let mut t = start;
    assert_eq!(time_basic::add_assign(&mut t, 10), Ok(()));
    assert_eq!(t, start + Duration::from_secs(10));
    assert_eq!(time_basic::subtract_assign(&mut t, 4), Ok(()));
    assert_eq!(t, start + Duration::from_secs(6));
    assert_eq!(time_basic::subtract_assign(&mut t, -4), Ok(()));
    assert_eq!(time_basic::add_assign(&mut t, -10), Ok(()));
    assert_eq!(t, start);
}

#[test]
fn overflow_names_the_seconds() {
    let start = Instant::now();
    let message = "Timestamp overflow when adding 9223372036854775807 second(s)";
    assert_eq!(time_basic::add(start, i64::MAX), Err(arithmetic(message)));
    assert_eq!(time_basic::subtract(start, -i64::MAX), Err(arithmetic(message)));
    let mut t = start;
    assert_eq!(time_basic::add_assign(&mut t, i64::MAX), Err(arithmetic(message)));
    assert_eq!(t, start);
    assert_eq!(time_basic::subtract_assign(&mut t, -i64::MAX), Err(arithmetic(message)));
    assert_eq!(t, start);
}

#[test]
fn far_back_is_the_clock_s_business() {
    // Whether the clock can hold an instant that far back depends on the
    // machine: either the instant lies that far back, or the error names
    // the seconds.
    let start = Instant::now();
    let message = "Timestamp overflow when adding 9223372036854775807 second(s)";
    for res in [time_basic::subtract(start, i64::MAX), time_basic::add(start, -i64::MAX)] {
        match res {
            Ok(t) => {
                assert!(time_basic::lt(t, start));
                assert_eq!(time_basic::time_diff(start, t), Ok(Dynamic::from_int(i64::MAX)));
                assert_eq!(time_basic::time_diff(t, start), Ok(Dynamic::from_int(-i64::MAX)));
            }
            Err(e) => assert_eq!(e, arithmetic(message)),
        }
    }
}

#[test]
fn moved_or_overflow_by_cases() {
    let start = Instant::now();
    assert_eq!(moved_or_overflow(Some(start), 5), Ok(start));
    assert_eq!(
        moved_or_overflow(None, 5),
        Err(arithmetic("Timestamp overflow when adding 5 second(s)"))
    );
    assert_eq!(
        moved_or_overflow(None, 0),
        Err(arithmetic("Timestamp overflow when adding 0 second(s)"))
    );
}

#[test]
fn comparisons() {
    let a = Instant::now();
    let b = a + Duration::from_nanos(1);
    assert!(time_basic::eq(a, a));
    assert!(!time_basic::eq(a, b));
    assert!(time_basic::ne(a, b));
    assert!(!time_basic::ne(b, b));
    assert!(time_basic::lt(a, b));
    assert!(!time_basic::lt(b, a));
    assert!(!time_basic::lt(a, a));
    assert!(time_basic::lte(a, b));
    assert!(time_basic::lte(a, a));
    assert!(!time_basic::lte(b, a));
    assert!(time_basic::gt(b, a));
    assert!(!time_basic::gt(a, b));
    assert!(!time_basic::gt(a, a));
    assert!(time_basic::gte(b, a));
    assert!(time_basic::gte(a, a));
    assert!(!time_basic::gte(a, b));
}

#[test]
fn elapsed_of_the_near_future_is_refused_not_counted() {
    let soon = time_basic::add(time_basic::timestamp(), 10).unwrap();
    assert_eq!(time_basic::elapsed(soon), Err(arithmetic("Time-stamp is later than now")));
    // The distance to it is counted with a minus sign, in whole seconds.
    let now = time_basic::timestamp();
    let diff = time_basic::time_diff(now, soon).unwrap().as_int().unwrap();
    assert!(diff == -9 || diff == -10);
}
