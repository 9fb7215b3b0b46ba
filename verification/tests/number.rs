use rustaid::number::negative_from;
use rustaid::number::positive_from;
use rustaid::number::some_negative_number;
use rustaid::number::some_number;
use rustaid::number::some_number_between;
use rustaid::number::some_number_greater_than;
use rustaid::number::some_number_less_than;
use rustaid::number::some_positive_number;
use rustaid::number::some_positive_number_to;
use rustaid::number::try_number_between;
use rustaid::number::try_number_greater_than;
use rustaid::number::try_positive_number_to;
use rustaid::number::Number;
use rustaid::number::SampleError;

#[test]
fn can_generate_random_signed_integers() {
    let _ = some_number::<i8>();
    let _ = some_number::<i16>();
    let _ = some_number::<i32>();
    let _ = some_number::<i64>();
    let _ = some_number::<i128>();
    let _ = some_number::<isize>();
}

#[test]
fn can_generate_random_unsigned_integers() {
    let _ = some_number::<u8>();
    let _ = some_number::<u16>();
    let _ = some_number::<u32>();
    let _ = some_number::<u64>();
    let _ = some_number::<u128>();
    let _ = some_number::<usize>();
}

#[test]
fn can_generate_random_signed_floats() {
    let _ = some_number::<f32>();
    let _ = some_number::<f64>();
}

#[test]
fn can_generate_1000_positive_usize() {
    for _ in 0..1000 {
        let actual = some_positive_number::<usize>();
        assert!(actual > 0);
    }
}

#[test]
fn can_generate_signed_integer_between() {
    let from = -1000;
    let to = 1000;
    let actual = some_number_between(from, to);
    assert!(actual >= from);
    assert!(actual < to);
}

#[test]
fn can_generate_unsigned_integer_between() {
    let from: u32 = 0;
    let to: u32 = 1000;
    let actual = some_number_between(from, to);
    assert!(actual >= from);
    assert!(actual < to);
}

#[test]
fn can_generate_signed_number_less_than() {
    let to: u32 = 1000;
    let actual = some_number_less_than(to);
    assert!(actual < to);
}

#[test]
fn can_generate_signed_number_greater_than() {
    let from: u32 = 1000;
    let actual = some_number_greater_than(from);
    assert!(actual > from);
}

#[test]
fn number_can_generate_random_signed_integers() -> Result<(), String> {
    let _ = some_number::<i8>();
    let _ = some_number::<i16>();
    let _ = some_number::<i32>();
    let _ = some_number::<i64>();
    let _ = some_number::<i128>();
    let _ = some_number::<isize>();
    Ok(())
}

#[test]
fn number_can_generate_random_unsigned_integers() -> Result<(), String> {
    let _ = some_number::<u8>();
    let _ = some_number::<u16>();
    let _ = some_number::<u32>();
    let _ = some_number::<u64>();
    let _ = some_number::<u128>();
    let _ = some_number::<usize>();
    Ok(())
}

#[test]
fn number_can_generate_random_signed_floats() -> Result<(), String> {
    let _ = some_number::<f32>();
    let _ = some_number::<f64>();
    Ok(())
}

#[test]
fn number_can_generate_1000_positive_usize() -> Result<(), String> {
    for _ in 0..1000 {
        let actual = some_positive_number::<usize>();
        assert!(actual > 0);
    }
    Ok(())
}

#[test]
fn number_can_generate_signed_integer_between() -> Result<(), String> {
    let from = -1000;
    let to = 1000;
    let actual = some_number_between(from, to);
    assert!(actual >= from);
    assert!(actual < to);
    Ok(())
}

#[test]
fn number_can_generate_unsigned_integer_between() -> Result<(), String> {
    let from: u32 = 0;
    let to: u32 = 1000;
    let actual = some_number_between(from, to);
    assert!(actual >= from);
    assert!(actual < to);
    Ok(())
}

#[test]
fn between_five_and_ten_stays_in_the_range() {
    let mut seen = [false; 5];
    for _ in 0..10_000 {
        let actual: i32 = some_number_between(5, 10);
        assert!(actual >= 5);
        assert!(actual < 10);
        assert_ne!(actual, 10);
        seen[(actual - 5) as usize] = true;
    }
    assert_eq!(seen, [true; 5]);
}

#[test]
fn between_equal_bounds_is_the_bound() {
    assert_eq!(some_number_between(7u8, 7u8), 7);
    assert_eq!(some_number_between(-3i16, -3i16), -3);
    assert_eq!(some_number_between(0u32, 0u32), 0);
    assert_eq!(some_number_between(i64::MIN, i64::MIN), i64::MIN);
    assert_eq!(some_number_between(u128::MAX, u128::MAX), u128::MAX);
    assert_eq!(some_number_between(isize::MAX, isize::MAX), isize::MAX);
}

#[test]
fn between_neighbours_is_the_lower_one() {
    for _ in 0..100 {
        assert_eq!(some_number_between(41u64, 42u64), 41);
        assert_eq!(some_number_between(-1i8, 0i8), -1);
        assert_eq!(some_number_between(i128::MAX - 1, i128::MAX), i128::MAX - 1);
    }
}

fn draws_stay_in_range_and_differ<T: Number + PartialOrd + std::fmt::Debug>(from: T, to: T) {
    let first = some_number_between(from, to);
    let mut differs = false;
    for _ in 0..1000 {
        let actual = some_number_between(from, to);
        assert!(actual >= from, "{:?} is below {:?}", actual, from);
        assert!(actual < to, "{:?} is not below {:?}", actual, to);
        differs = differs || actual != first;
    }
    assert!(differs, "a thousand draws gave {:?} each time", first);
}

#[test]
fn between_draws_from_the_range_of_u8() {
    draws_stay_in_range_and_differ(10u8, 250u8);
}

#[test]
fn between_draws_from_the_range_of_u16() {
    draws_stay_in_range_and_differ(1000u16, 60_000u16);
}

#[test]
fn between_draws_from_the_range_of_u32() {
    draws_stay_in_range_and_differ(7u32, 4_000_000_000u32);
}

#[test]
fn between_draws_from_the_range_of_u64() {
    draws_stay_in_range_and_differ(1u64 << 40, u64::MAX);
}

#[test]
fn between_draws_from_the_range_of_u128() {
    draws_stay_in_range_and_differ(1u128 << 100, u128::MAX);
}

#[test]
fn between_draws_from_the_range_of_usize() {
    draws_stay_in_range_and_differ(1usize, 1024usize);
}

#[test]
fn between_draws_from_the_range_of_i8() {
    draws_stay_in_range_and_differ(-100i8, 100i8);
}

#[test]
fn between_draws_from_the_range_of_i16() {
    draws_stay_in_range_and_differ(-30_000i16, 30_000i16);
}

#[test]
fn between_draws_from_the_range_of_i32() {
    draws_stay_in_range_and_differ(i32::MIN, i32::MAX);
}

#[test]
fn between_draws_from_the_range_of_i64() {
    draws_stay_in_range_and_differ(1i64, 32_503_683_600_000i64);
}

#[test]
fn between_draws_from_the_range_of_i128() {
    draws_stay_in_range_and_differ(i128::MIN, -(1i128 << 100));
}

#[test]
fn between_draws_from_the_range_of_isize() {
    draws_stay_in_range_and_differ(-1000isize, 1000isize);
}

#[test]
fn positive_from_keeps_a_positive_draw() {
    assert_eq!(positive_from(1i8), 1);
    assert_eq!(positive_from(127i8), 127);
    assert_eq!(positive_from(200u8), 200);
    assert_eq!(positive_from(u64::MAX), u64::MAX);
}

#[test]
fn positive_from_adds_the_maximum_to_any_other_draw() {
    assert_eq!(positive_from(0u8), 255);
    assert_eq!(positive_from(0usize), usize::MAX);
    assert_eq!(positive_from(0i8), 127);
    assert_eq!(positive_from(-1i8), 126);
    assert_eq!(positive_from(-126i8), 1);
    assert_eq!(positive_from(-5i32), i32::MAX - 5);
}

#[test]
fn positive_from_is_not_positive_for_the_two_lowest_draws() {
    assert_eq!(positive_from(-127i8), 0);
    assert_eq!(positive_from(-128i8), -1);
    assert_eq!(positive_from(i64::MIN), -1);
    assert_eq!(positive_from(i64::MIN + 1), 0);
}

#[test]
fn positive_number_is_positive_for_every_unsigned_type() {
    for _ in 0..1000 {
        assert!(some_positive_number::<u8>() > 0);
        assert!(some_positive_number::<u16>() > 0);
        assert!(some_positive_number::<u32>() > 0);
        assert!(some_positive_number::<u64>() > 0);
        assert!(some_positive_number::<u128>() > 0);
    }
}

#[test]
fn positive_number_of_a_signed_type_is_at_least_minus_one() {
    for _ in 0..1000 {
        assert!(some_positive_number::<i8>() >= -1);
        assert!(some_positive_number::<i16>() >= -1);
        assert!(some_positive_number::<i32>() >= -1);
        assert!(some_positive_number::<i64>() >= -1);
        assert!(some_positive_number::<i128>() >= -1);
        assert!(some_positive_number::<isize>() >= -1);
    }
}

#[test]
fn negative_from_keeps_a_negative_draw() {
    assert_eq!(negative_from(-1i8), -1);
    assert_eq!(negative_from(-128i8), -128);
    assert_eq!(negative_from(i128::MIN), i128::MIN);
}

#[test]
fn negative_from_turns_any_other_draw_round() {
    assert_eq!(negative_from(5i8), -5);
    assert_eq!(negative_from(127i8), -127);
    assert_eq!(negative_from(i32::MAX), -i32::MAX);
    assert_eq!(negative_from(0i16), 0);
}

#[test]
fn negative_number_is_never_above_zero() {
    for _ in 0..1000 {
        assert!(some_negative_number::<i8>() <= 0);
        assert!(some_negative_number::<i16>() <= 0);
        assert!(some_negative_number::<i32>() <= 0);
        assert!(some_negative_number::<i64>() <= 0);
        assert!(some_negative_number::<i128>() <= 0);
        assert!(some_negative_number::<isize>() <= 0);
    }
}

#[test]
fn greater_than_is_above_the_bound() {
    for _ in 0..1000 {
        assert!(some_number_greater_than(0u8) > 0);
        assert!(some_number_greater_than(9i32) > 9);
        assert!(some_number_greater_than(1000u32) > 1000);
        assert!(some_number_greater_than(0i64) > 0);
    }
}

#[test]
fn greater_than_reaches_the_maximum_only_from_just_below_it() {
    for _ in 0..100 {
        assert_eq!(some_number_greater_than(254u8), 255);
        assert_eq!(some_number_greater_than(253u8), 254);
        assert_eq!(some_number_greater_than(i16::MAX - 1), i16::MAX);
    }
}

#[test]
fn less_than_is_below_the_bound() {
    for _ in 0..1000 {
        assert!(some_number_less_than(9i32) < 9);
        assert!(some_number_less_than(-9i32) < -9);
        assert!(some_number_less_than(1u8) < 1);
        assert!(some_number_less_than(52usize) < 52);
    }
}

#[test]
fn less_than_the_minimum_is_the_minimum() {
    assert_eq!(some_number_less_than(0u32), 0);
    assert_eq!(some_number_less_than(0usize), 0);
    assert_eq!(some_number_less_than(i8::MIN), i8::MIN);
}

#[test]
fn positive_number_to_is_from_zero_to_below_the_bound() {
    for _ in 0..1000 {
        let actual = some_positive_number_to(10i32);
        assert!(actual >= 0);
        assert!(actual < 10);
    }
    assert_eq!(some_positive_number_to(1u8), 0);
}

#[test]
fn try_number_between_turns_down_a_range_the_wrong_way_round() {
    assert_eq!(try_number_between(10, 5), Err(SampleError::InvalidRange));
    assert_eq!(try_number_between(1u8, 0u8), Err(SampleError::InvalidRange));
    assert_eq!(try_number_between(i64::MAX, i64::MIN), Err(SampleError::InvalidRange));
}

#[test]
fn try_number_between_draws_from_any_other_range() {
    assert_eq!(try_number_between(5u8, 5u8), Ok(5));
    assert_eq!(try_number_between(5u8, 6u8), Ok(5));
    for _ in 0..1000 {
        let actual: i32 = try_number_between(-1000, 1000).unwrap();
        assert!(actual >= -1000);
        assert!(actual < 1000);
    }
}

#[test]
fn try_number_greater_than_turns_down_a_negative_bound() {
    assert_eq!(try_number_greater_than(-1), Err(SampleError::InvalidBound));
    assert_eq!(try_number_greater_than(i8::MIN), Err(SampleError::InvalidBound));
}

#[test]
fn try_number_greater_than_turns_down_the_maximum() {
    assert_eq!(try_number_greater_than(u8::MAX), Err(SampleError::InvalidRange));
    assert_eq!(try_number_greater_than(i32::MAX), Err(SampleError::InvalidRange));
}

#[test]
fn try_number_greater_than_draws_above_any_other_bound() {
    assert_eq!(try_number_greater_than(254u8), Ok(255));
    for _ in 0..1000 {
        let actual: u32 = try_number_greater_than(1000u32).unwrap();
        assert!(actual > 1000);
        let actual: i16 = try_number_greater_than(0i16).unwrap();
        assert!(actual > 0);
    }
}

#[test]
fn try_positive_number_to_turns_down_a_bound_that_is_not_positive() {
    assert_eq!(try_positive_number_to(0u8), Err(SampleError::InvalidBound));
    assert_eq!(try_positive_number_to(0i32), Err(SampleError::InvalidBound));
    assert_eq!(try_positive_number_to(-7i32), Err(SampleError::InvalidBound));
}

#[test]
fn try_positive_number_to_draws_below_a_positive_bound() {
    assert_eq!(try_positive_number_to(1i64), Ok(0));
    for _ in 0..1000 {
        let actual: usize = try_positive_number_to(62usize).unwrap();
        assert!(actual < 62);
    }
}

#[test]
fn errors_have_their_messages() {
    assert_eq!(SampleError::InvalidBound.message(), "Cannot handle negative value");
    assert_eq!(SampleError::InvalidRange.message(), "cannot sample empty range");
}

#[test]
fn numbers_know_their_bounds() {
    assert_eq!(<u8 as Number>::min_value(), 0);
    assert_eq!(<u8 as Number>::max_value(), 255);
    assert_eq!(<i8 as Number>::min_value(), -128);
    assert_eq!(<i8 as Number>::max_value(), 127);
    assert_eq!(<u128 as Number>::max_value(), u128::MAX);
    assert_eq!(<isize as Number>::min_value(), isize::MIN);
}

#[test]
fn numbers_come_from_small_literals_where_they_fit() {
    assert_eq!(<u8 as Number>::from_i8(0), Some(0));
    assert_eq!(<u8 as Number>::from_i8(127), Some(127));
    assert_eq!(<u8 as Number>::from_i8(-1), None);
    assert_eq!(<usize as Number>::from_i8(-128), None);
    assert_eq!(<i8 as Number>::from_i8(-128), Some(-128));
    assert_eq!(<i64 as Number>::from_i8(-1), Some(-1));
    assert_eq!(<i128 as Number>::from_i8(1), Some(1));
}
