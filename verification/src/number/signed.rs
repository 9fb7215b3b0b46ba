//! [`Number`] for the signed integer types, each with its draw from a range.
use vstd::prelude::*;
use rand::Rng;
use crate::number::some_number;
use crate::number::Number;
use crate::number::SignedNumber;

verus! {

/// A random `i8` from `low` up to, but not including, `high`.
///
/// This is `Rng::gen_range` of rand, called with the range `low..high` on the generator of the
/// current thread. For a range that holds a value rand returns one of its values; an empty
/// range makes it panic, so the range may not be empty. What [`some_number`] says of the
/// seeding of the generator holds here too.
#[verifier::external_body]
fn uniform_i8(low: i8, high: i8) -> (r: i8)
    requires
        low < high,
    ensures
        low <= r < high,
{
    rand::thread_rng().gen_range(low..high)
}

impl Number for i8 {
    open spec fn value(self) -> int {
        self as int
    }

    open spec fn lowest() -> int {
        i8::MIN as int
    }

    open spec fn highest() -> int {
        i8::MAX as int
    }

    proof fn value_is_bounded(self) {
    }

    proof fn bounds_hold_zero_and_one() {
    }

    proof fn value_is_injective(self, other: Self) {
    }

    fn min_value() -> (r: Self) {
        i8::MIN
    }

    fn max_value() -> (r: Self) {
        i8::MAX
    }

    fn from_i8(n: i8) -> (r: Option<Self>) {
        Some(n)
    }

    fn less_than(self, other: Self) -> (b: bool) {
        self < other
    }

    fn plus(self, other: Self) -> (r: Self) {
        self + other
    }

    fn sample() -> Self {
        some_number::<i8>()
    }

    fn sample_range(low: Self, high: Self) -> (r: Self) {
        uniform_i8(low, high)
    }
}

impl SignedNumber for i8 {
    proof fn lowest_is_opposite_or_below() {
    }

    fn negated(self) -> (r: Self) {
        -self
    }
}

/// A random `i16` from `low` up to, but not including, `high`.
///
/// This is `Rng::gen_range` of rand, called with the range `low..high` on the generator of the
/// current thread. For a range that holds a value rand returns one of its values; an empty
/// range makes it panic, so the range may not be empty. What [`some_number`] says of the
/// seeding of the generator holds here too.
#[verifier::external_body]
fn uniform_i16(low: i16, high: i16) -> (r: i16)
    requires
        low < high,
    ensures
        low <= r < high,
{
    rand::thread_rng().gen_range(low..high)
}

impl Number for i16 {
    open spec fn value(self) -> int {
        self as int
    }

    open spec fn lowest() -> int {
        i16::MIN as int
    }

    open spec fn highest() -> int {
        i16::MAX as int
    }

    proof fn value_is_bounded(self) {
    }

    proof fn bounds_hold_zero_and_one() {
    }

    proof fn value_is_injective(self, other: Self) {
    }

    fn min_value() -> (r: Self) {
        i16::MIN
    }

    fn max_value() -> (r: Self) {
        i16::MAX
    }

    fn from_i8(n: i8) -> (r: Option<Self>) {
        Some(n as i16)
    }

    fn less_than(self, other: Self) -> (b: bool) {
        self < other
    }

    fn plus(self, other: Self) -> (r: Self) {
        self + other
    }

    fn sample() -> Self {
        some_number::<i16>()
    }

    fn sample_range(low: Self, high: Self) -> (r: Self) {
        uniform_i16(low, high)
    }
}

impl SignedNumber for i16 {
    proof fn lowest_is_opposite_or_below() {
    }

    fn negated(self) -> (r: Self) {
        -self
    }
}

/// A random `i32` from `low` up to, but not including, `high`.
///
/// This is `Rng::gen_range` of rand, called with the range `low..high` on the generator of the
/// current thread. For a range that holds a value rand returns one of its values; an empty
/// range makes it panic, so the range may not be empty. What [`some_number`] says of the
/// seeding of the generator holds here too.
#[verifier::external_body]
fn uniform_i32(low: i32, high: i32) -> (r: i32)
    requires
        low < high,
    ensures
        low <= r < high,
{
    rand::thread_rng().gen_range(low..high)
}

impl Number for i32 {
    open spec fn value(self) -> int {
        self as int
    }

    open spec fn lowest() -> int {
        i32::MIN as int
    }

    open spec fn highest() -> int {
        i32::MAX as int
    }

    proof fn value_is_bounded(self) {
    }

    proof fn bounds_hold_zero_and_one() {
    }

    proof fn value_is_injective(self, other: Self) {
    }

    fn min_value() -> (r: Self) {
        i32::MIN
    }

    fn max_value() -> (r: Self) {
        i32::MAX
    }

    fn from_i8(n: i8) -> (r: Option<Self>) {
        Some(n as i32)
    }

    fn less_than(self, other: Self) -> (b: bool) {
        self < other
    }

    fn plus(self, other: Self) -> (r: Self) {
        self + other
    }

    fn sample() -> Self {
        some_number::<i32>()
    }

    fn sample_range(low: Self, high: Self) -> (r: Self) {
        uniform_i32(low, high)
    }
}

impl SignedNumber for i32 {
    proof fn lowest_is_opposite_or_below() {
    }

    fn negated(self) -> (r: Self) {
        -self
    }
}

/// A random `i64` from `low` up to, but not including, `high`.
///
/// This is `Rng::gen_range` of rand, called with the range `low..high` on the generator of the
/// current thread. For a range that holds a value rand returns one of its values; an empty
/// range makes it panic, so the range may not be empty. What [`some_number`] says of the
/// seeding of the generator holds here too.
#[verifier::external_body]
fn uniform_i64(low: i64, high: i64) -> (r: i64)
    requires
        low < high,
    ensures
        low <= r < high,
{
    rand::thread_rng().gen_range(low..high)
}

impl Number for i64 {
    open spec fn value(self) -> int {
        self as int
    }

    open spec fn lowest() -> int {
        i64::MIN as int
    }

    open spec fn highest() -> int {
        i64::MAX as int
    }

    proof fn value_is_bounded(self) {
    }

    proof fn bounds_hold_zero_and_one() {
    }

    proof fn value_is_injective(self, other: Self) {
    }

    fn min_value() -> (r: Self) {
        i64::MIN
    }

    fn max_value() -> (r: Self) {
        i64::MAX
    }

    fn from_i8(n: i8) -> (r: Option<Self>) {
        Some(n as i64)
    }

    fn less_than(self, other: Self) -> (b: bool) {
        self < other
    }

    fn plus(self, other: Self) -> (r: Self) {
        self + other
    }

    fn sample() -> Self {
        some_number::<i64>()
    }

    fn sample_range(low: Self, high: Self) -> (r: Self) {
        uniform_i64(low, high)
    }
}

impl SignedNumber for i64 {
    proof fn lowest_is_opposite_or_below() {
    }

    fn negated(self) -> (r: Self) {
        -self
    }
}

/// A random `i128` from `low` up to, but not including, `high`.
///
/// This is `Rng::gen_range` of rand, called with the range `low..high` on the generator of the
/// current thread. For a range that holds a value rand returns one of its values; an empty
/// range makes it panic, so the range may not be empty. What [`some_number`] says of the
/// seeding of the generator holds here too.
#[verifier::external_body]
fn uniform_i128(low: i128, high: i128) -> (r: i128)
    requires
        low < high,
    ensures
        low <= r < high,
{
    rand::thread_rng().gen_range(low..high)
}

impl Number for i128 {
    open spec fn value(self) -> int {
        self as int
    }

    open spec fn lowest() -> int {
        i128::MIN as int
    }

    open spec fn highest() -> int {
        i128::MAX as int
    }

    proof fn value_is_bounded(self) {
    }

    proof fn bounds_hold_zero_and_one() {
    }

    proof fn value_is_injective(self, other: Self) {
    }

    fn min_value() -> (r: Self) {
        i128::MIN
    }

    fn max_value() -> (r: Self) {
        i128::MAX
    }

    fn from_i8(n: i8) -> (r: Option<Self>) {
        Some(n as i128)
    }

    fn less_than(self, other: Self) -> (b: bool) {
        self < other
    }

    fn plus(self, other: Self) -> (r: Self) {
        self + other
    }

    fn sample() -> Self {
        some_number::<i128>()
    }

    fn sample_range(low: Self, high: Self) -> (r: Self) {
        uniform_i128(low, high)
    }
}

impl SignedNumber for i128 {
    proof fn lowest_is_opposite_or_below() {
    }

    fn negated(self) -> (r: Self) {
        -self
    }
}

/// A random `isize` from `low` up to, but not including, `high`.
///
/// This is `Rng::gen_range` of rand, called with the range `low..high` on the generator of the
/// current thread. For a range that holds a value rand returns one of its values; an empty
/// range makes it panic, so the range may not be empty. What [`some_number`] says of the
/// seeding of the generator holds here too.
#[verifier::external_body]
fn uniform_isize(low: isize, high: isize) -> (r: isize)
    requires
        low < high,
    ensures
        low <= r < high,
{
    rand::thread_rng().gen_range(low..high)
}

impl Number for isize {
    open spec fn value(self) -> int {
        self as int
    }

    open spec fn lowest() -> int {
        isize::MIN as int
    }

    open spec fn highest() -> int {
        isize::MAX as int
    }

    proof fn value_is_bounded(self) {
    }

    proof fn bounds_hold_zero_and_one() {
    }

    proof fn value_is_injective(self, other: Self) {
    }

    fn min_value() -> (r: Self) {
        isize::MIN
    }

    fn max_value() -> (r: Self) {
        isize::MAX
    }

    fn from_i8(n: i8) -> (r: Option<Self>) {
        Some(n as isize)
    }

    fn less_than(self, other: Self) -> (b: bool) {
        self < other
    }

    fn plus(self, other: Self) -> (r: Self) {
        self + other
    }

    fn sample() -> Self {
        some_number::<isize>()
    }

    fn sample_range(low: Self, high: Self) -> (r: Self) {
        uniform_isize(low, high)
    }
}

impl SignedNumber for isize {
    proof fn lowest_is_opposite_or_below() {
    }

    fn negated(self) -> (r: Self) {
        -self
    }
}

} // verus!
