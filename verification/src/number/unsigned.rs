//! [`Number`] for the unsigned integer types, each with its draw from a range.
use vstd::prelude::*;
use rand::Rng;
use crate::number::some_number;
use crate::number::Number;

verus! {

/// A random `u8` from `low` up to, but not including, `high`.
///
/// This is `Rng::gen_range` of rand, called with the range `low..high` on the generator of the
/// current thread. For a range that holds a value rand returns one of its values; an empty
/// range makes it panic, so the range may not be empty. What [`some_number`] says of the
/// seeding of the generator holds here too.
#[verifier::external_body]
fn uniform_u8(low: u8, high: u8) -> (r: u8)
    requires
        low < high,
    ensures
        low <= r < high,
{
    rand::thread_rng().gen_range(low..high)
}

impl Number for u8 {
    open spec fn value(self) -> int {
        self as int
    }

    open spec fn lowest() -> int {
        u8::MIN as int
    }

    open spec fn highest() -> int {
        u8::MAX as int
    }

    proof fn value_is_bounded(self) {
    }

    proof fn bounds_hold_zero_and_one() {
    }

    proof fn value_is_injective(self, other: Self) {
    }

    fn min_value() -> (r: Self) {
        u8::MIN
    }

    fn max_value() -> (r: Self) {
        u8::MAX
    }

    fn from_i8(n: i8) -> (r: Option<Self>) {
        if n >= 0 {
            Some(n as u8)
        } else {
            None
        }
    }

    fn less_than(self, other: Self) -> (b: bool) {
        self < other
    }

    fn plus(self, other: Self) -> (r: Self) {
        self + other
    }

    fn sample() -> Self {
        some_number::<u8>()
    }

    fn sample_range(low: Self, high: Self) -> (r: Self) {
        uniform_u8(low, high)
    }
}

/// A random `u16` from `low` up to, but not including, `high`.
///
/// This is `Rng::gen_range` of rand, called with the range `low..high` on the generator of the
/// current thread. For a range that holds a value rand returns one of its values; an empty
/// range makes it panic, so the range may not be empty. What [`some_number`] says of the
/// seeding of the generator holds here too.
#[verifier::external_body]
fn uniform_u16(low: u16, high: u16) -> (r: u16)
    requires
        low < high,
    ensures
        low <= r < high,
{
    rand::thread_rng().gen_range(low..high)
}

impl Number for u16 {
    open spec fn value(self) -> int {
        self as int
    }

    open spec fn lowest() -> int {
        u16::MIN as int
    }

    open spec fn highest() -> int {
        u16::MAX as int
    }

    proof fn value_is_bounded(self) {
    }

    proof fn bounds_hold_zero_and_one() {
    }

    proof fn value_is_injective(self, other: Self) {
    }

    fn min_value() -> (r: Self) {
        u16::MIN
    }

    fn max_value() -> (r: Self) {
        u16::MAX
    }

    fn from_i8(n: i8) -> (r: Option<Self>) {
        if n >= 0 {
            Some(n as u16)
        } else {
            None
        }
    }

    fn less_than(self, other: Self) -> (b: bool) {
        self < other
    }

    fn plus(self, other: Self) -> (r: Self) {
        self + other
    }

    fn sample() -> Self {
        some_number::<u16>()
    }

    fn sample_range(low: Self, high: Self) -> (r: Self) {
        uniform_u16(low, high)
    }
}

/// A random `u32` from `low` up to, but not including, `high`.
///
/// This is `Rng::gen_range` of rand, called with the range `low..high` on the generator of the
/// current thread. For a range that holds a value rand returns one of its values; an empty
/// range makes it panic, so the range may not be empty. What [`some_number`] says of the
/// seeding of the generator holds here too.
#[verifier::external_body]
fn uniform_u32(low: u32, high: u32) -> (r: u32)
    requires
        low < high,
    ensures
        low <= r < high,
{
    rand::thread_rng().gen_range(low..high)
}

impl Number for u32 {
    open spec fn value(self) -> int {
        self as int
    }

    open spec fn lowest() -> int {
        u32::MIN as int
    }

    open spec fn highest() -> int {
        u32::MAX as int
    }

    proof fn value_is_bounded(self) {
    }

    proof fn bounds_hold_zero_and_one() {
    }

    proof fn value_is_injective(self, other: Self) {
    }

    fn min_value() -> (r: Self) {
        u32::MIN
    }

    fn max_value() -> (r: Self) {
        u32::MAX
    }

    fn from_i8(n: i8) -> (r: Option<Self>) {
        if n >= 0 {
            Some(n as u32)
        } else {
            None
        }
    }

    fn less_than(self, other: Self) -> (b: bool) {
        self < other
    }

    fn plus(self, other: Self) -> (r: Self) {
        self + other
    }

    fn sample() -> Self {
        some_number::<u32>()
    }

    fn sample_range(low: Self, high: Self) -> (r: Self) {
        uniform_u32(low, high)
    }
}

/// A random `u64` from `low` up to, but not including, `high`.
///
/// This is `Rng::gen_range` of rand, called with the range `low..high` on the generator of the
/// current thread. For a range that holds a value rand returns one of its values; an empty
/// range makes it panic, so the range may not be empty. What [`some_number`] says of the
/// seeding of the generator holds here too.
#[verifier::external_body]
fn uniform_u64(low: u64, high: u64) -> (r: u64)
    requires
        low < high,
    ensures
        low <= r < high,
{
    rand::thread_rng().gen_range(low..high)
}

impl Number for u64 {
    open spec fn value(self) -> int {
        self as int
    }

    open spec fn lowest() -> int {
        u64::MIN as int
    }

    open spec fn highest() -> int {
        u64::MAX as int
    }

    proof fn value_is_bounded(self) {
    }

    proof fn bounds_hold_zero_and_one() {
    }

    proof fn value_is_injective(self, other: Self) {
    }

    fn min_value() -> (r: Self) {
        u64::MIN
    }

    fn max_value() -> (r: Self) {
        u64::MAX
    }

    fn from_i8(n: i8) -> (r: Option<Self>) {
        if n >= 0 {
            Some(n as u64)
        } else {
            None
        }
    }

    fn less_than(self, other: Self) -> (b: bool) {
        self < other
    }

    fn plus(self, other: Self) -> (r: Self) {
        self + other
    }

    fn sample() -> Self {
        some_number::<u64>()
    }

    fn sample_range(low: Self, high: Self) -> (r: Self) {
        uniform_u64(low, high)
    }
}

/// A random `u128` from `low` up to, but not including, `high`.
///
/// This is `Rng::gen_range` of rand, called with the range `low..high` on the generator of the
/// current thread. For a range that holds a value rand returns one of its values; an empty
/// range makes it panic, so the range may not be empty. What [`some_number`] says of the
/// seeding of the generator holds here too.
#[verifier::external_body]
fn uniform_u128(low: u128, high: u128) -> (r: u128)
    requires
        low < high,
    ensures
        low <= r < high,
{
    rand::thread_rng().gen_range(low..high)
}

impl Number for u128 {
    open spec fn value(self) -> int {
        self as int
    }

    open spec fn lowest() -> int {
        u128::MIN as int
    }

    open spec fn highest() -> int {
        u128::MAX as int
    }

    proof fn value_is_bounded(self) {
    }

    proof fn bounds_hold_zero_and_one() {
    }

    proof fn value_is_injective(self, other: Self) {
    }

    fn min_value() -> (r: Self) {
        u128::MIN
    }

    fn max_value() -> (r: Self) {
        u128::MAX
    }

    fn from_i8(n: i8) -> (r: Option<Self>) {
        if n >= 0 {
            Some(n as u128)
        } else {
            None
        }
    }

    fn less_than(self, other: Self) -> (b: bool) {
        self < other
    }

    fn plus(self, other: Self) -> (r: Self) {
        self + other
    }

    fn sample() -> Self {
        some_number::<u128>()
    }

    fn sample_range(low: Self, high: Self) -> (r: Self) {
        uniform_u128(low, high)
    }
}

/// A random `usize` from `low` up to, but not including, `high`.
///
/// This is `Rng::gen_range` of rand, called with the range `low..high` on the generator of the
/// current thread. For a range that holds a value rand returns one of its values; an empty
/// range makes it panic, so the range may not be empty. What [`some_number`] says of the
/// seeding of the generator holds here too.
#[verifier::external_body]
fn uniform_usize(low: usize, high: usize) -> (r: usize)
    requires
        low < high,
    ensures
        low <= r < high,
{
    rand::thread_rng().gen_range(low..high)
}

impl Number for usize {
    open spec fn value(self) -> int {
        self as int
    }

    open spec fn lowest() -> int {
        usize::MIN as int
    }

    open spec fn highest() -> int {
        usize::MAX as int
    }

    proof fn value_is_bounded(self) {
    }

    proof fn bounds_hold_zero_and_one() {
    }

    proof fn value_is_injective(self, other: Self) {
    }

    fn min_value() -> (r: Self) {
        usize::MIN
    }

    fn max_value() -> (r: Self) {
        usize::MAX
    }

    fn from_i8(n: i8) -> (r: Option<Self>) {
        if n >= 0 {
            Some(n as usize)
        } else {
            None
        }
    }

    fn less_than(self, other: Self) -> (b: bool) {
        self < other
    }

    fn plus(self, other: Self) -> (r: Self) {
        self + other
    }

    fn sample() -> Self {
        some_number::<usize>()
    }

    fn sample_range(low: Self, high: Self) -> (r: Self) {
        uniform_usize(low, high)
    }
}

} // verus!
