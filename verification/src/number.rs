//! Random numbers of every fixed-width integer type: over the whole type, of one sign, or
//! inside a range.
//!
//! The random values themselves come from the `rand` crate. Everything here that decides
//! which range to draw from, and what to do with a drawn value, is verified: each function
//! says in its contract which results it can give, whatever the generator hands back.
use vstd::prelude::*;
use rand::Rng;

mod signed;
mod unsigned;

verus! {

/// A fixed-width integer type that random values can be drawn from.
///
/// The trait holds what the samplers need of a type: its two bounds, the conversion of a small
/// literal, the comparison and the addition that the remapping of a draw uses, and the two
/// draws themselves. Every primitive integer type implements it.
pub trait Number: Copy + Sized {
    /// The integer that `self` stands for.
    spec fn value(self) -> int;

    /// The least integer of the type.
    spec fn lowest() -> int;

    /// The greatest integer of the type.
    spec fn highest() -> int;

    /// Every value lies between the two bounds.
    proof fn value_is_bounded(self)
        ensures
            Self::lowest() <= self.value() <= Self::highest(),
    ;

    /// The type holds both zero and one.
    proof fn bounds_hold_zero_and_one()
        ensures
            Self::lowest() <= 0,
            1 <= Self::highest(),
    ;

    /// Two values that stand for the same integer are the same value.
    proof fn value_is_injective(self, other: Self)
        ensures
            self.value() == other.value() ==> self == other,
    ;

    /// The least value of the type.
    fn min_value() -> (r: Self)
        ensures
            r.value() == Self::lowest(),
    ;

    /// The greatest value of the type.
    fn max_value() -> (r: Self)
        ensures
            r.value() == Self::highest(),
    ;

    /// The value that stands for `n`, if the type has one.
    fn from_i8(n: i8) -> (r: Option<Self>)
        ensures
            r is Some <==> Self::lowest() <= n <= Self::highest(),
            r matches Some(v) ==> v.value() == n,
    ;

    /// Whether `self` is strictly below `other`.
    fn less_than(self, other: Self) -> (b: bool)
        ensures
            b == (self.value() < other.value()),
    ;

    /// The sum of two values whose sum the type can hold.
    fn plus(self, other: Self) -> (r: Self)
        requires
            Self::lowest() <= self.value() + other.value() <= Self::highest(),
        ensures
            r.value() == self.value() + other.value(),
    ;

    /// A random value out of the whole type: any from the least to the greatest.
    fn sample() -> (r: Self)
        ensures
            Self::lowest() <= r.value() <= Self::highest(),
    ;

    /// A random value out of the half-open range from `low` to `high`.
    fn sample_range(low: Self, high: Self) -> (r: Self)
        requires
            low.value() < high.value(),
        ensures
            low.value() <= r.value() < high.value(),
    ;
}

/// A [`Number`] with values below zero, as many of them as above it or more.
pub trait SignedNumber: Number {
    /// Every value from zero upwards has its opposite in the type.
    proof fn lowest_is_opposite_or_below()
        ensures
            Self::lowest() <= -Self::highest(),
    ;

    /// The opposite of a value whose opposite the type can hold.
    fn negated(self) -> (r: Self)
        requires
            Self::lowest() <= -self.value() <= Self::highest(),
        ensures
            r.value() == -self.value(),
    ;
}

/// Why a sampler turned its arguments down.
#[derive(Clone, Copy, Debug, PartialEq, Eq, Structural)]
pub enum SampleError {
    /// The bound is negative, or zero where only a positive one will do.
    InvalidBound,
    /// The range has nothing in it: its start lies above its end.
    InvalidRange,
}

impl SampleError {
    /// The text of the error, as a view.
    pub open spec fn message_text(self) -> Seq<char> {
        match self {
            SampleError::InvalidBound => "Cannot handle negative value"@,
            SampleError::InvalidRange => "cannot sample empty range"@,
        }
    }

    /// The text that describes the error.
    pub fn message(&self) -> (text: &'static str)
        ensures
            text@ == self.message_text(),
    {
        match self {
            SampleError::InvalidBound => "Cannot handle negative value",
            SampleError::InvalidRange => "cannot sample empty range",
        }
    }
}

/// Whether `v` is a result that a draw between `from` and `to` may give: `from` itself where the
/// two are equal, else any integer from `from` up to, but not including, `to`.
pub open spec fn in_sampled_range(from: int, to: int, v: int) -> bool {
    if from == to {
        v == from
    } else {
        from <= v < to
    }
}

/// What a draw `number` becomes when a positive number is asked for: a draw above zero stays,
/// any other is moved up by `highest`.
pub open spec fn positive_remap(number: int, highest: int) -> int {
    if number <= 0 {
        number + highest
    } else {
        number
    }
}

/// What a draw `number` becomes when a negative number is asked for: a draw below zero stays,
/// any other is replaced by its opposite.
pub open spec fn negative_remap(number: int) -> int {
    if number >= 0 {
        -number
    } else {
        number
    }
}

/// A remapped draw is above zero exactly when the draw was above the opposite of `highest`.
///
/// So for a type without negative values every draw gives a positive number, and for a
/// two's-complement type all draws but the two lowest do.
pub proof fn positive_remap_is_positive(number: int, highest: int)
    requires
        1 <= highest,
        number <= highest,
    ensures
        positive_remap(number, highest) > 0 <==> number > -highest,
        positive_remap(number, highest) <= highest,
{
}

/// A remapped draw is never above zero, and is below zero for every draw but zero.
pub proof fn negative_remap_is_negative(number: int)
    ensures
        negative_remap(number) <= 0,
        negative_remap(number) < 0 <==> number != 0,
{
}

/// A result between two different bounds is never the upper one, and never below the lower;
/// between two equal bounds it is that bound.
pub proof fn sampled_range_is_half_open(from: int, to: int, v: int)
    requires
        in_sampled_range(from, to, v),
        from <= to,
    ensures
        from <= v <= to,
        from < to ==> v != to,
        from == to ==> v == from,
{
}

/// A random value out of the whole of `TYPE`.
///
/// This is `Rng::gen` of rand, called on the generator of the current thread. It gives a value
/// that rand's `Standard` distribution draws; nothing is claimed of which one. rand seeds the
/// generator from the system on first use and panics if the system has nothing to seed it
/// with: no argument decides that, so no contract can rule it out.
#[verifier::external_body]
pub fn some_number<TYPE>() -> TYPE where
    TYPE: num::Bounded,
    rand::distributions::Standard: rand::distributions::Distribution<TYPE>,
{
    rand::thread_rng().gen()
}

/// The zero of `T`.
fn zero<T: Number>() -> (r: T)
    ensures
        r.value() == 0,
{
    proof {
        T::bounds_hold_zero_and_one();
    }
    T::from_i8(0).unwrap()
}

/// The one of `T`.
fn one<T: Number>() -> (r: T)
    ensures
        r.value() == 1,
{
    proof {
        T::bounds_hold_zero_and_one();
    }
    T::from_i8(1).unwrap()
}

/// Turns a draw into the positive number it stands for: a draw above zero is returned as it
/// is, any other with the greatest value of the type added to it.
pub fn positive_from<T: Number>(number: T) -> (r: T)
    ensures
        r.value() == positive_remap(number.value(), T::highest()),
{
    proof {
        number.value_is_bounded();
        T::bounds_hold_zero_and_one();
    }
    if zero::<T>().less_than(number) {
        number
    } else {
        number.plus(T::max_value())
    }
}

/// Turns a draw into the negative number it stands for: a draw below zero is returned as it
/// is, any other as its opposite.
pub fn negative_from<T: SignedNumber>(number: T) -> (r: T)
    ensures
        r.value() == negative_remap(number.value()),
{
    proof {
        number.value_is_bounded();
        T::lowest_is_opposite_or_below();
    }
    if number.less_than(zero::<T>()) {
        number
    } else {
        number.negated()
    }
}

/// A random positive number: a draw out of the whole type, remapped by [`positive_remap`].
///
/// For a type without negative values the result is above zero. For a type that has them the
/// remapping can land on zero or below, never lower than the sum of the two bounds.
pub fn some_positive_number<T: Number>() -> (r: T)
    ensures
        exists|number: int|
            T::lowest() <= number <= T::highest() && r.value() == #[trigger] positive_remap(
                number,
                T::highest(),
            ),
        r.value() >= 1 || r.value() >= T::lowest() + T::highest(),
        r.value() <= T::highest(),
        T::lowest() == 0 ==> r.value() > 0,
{
    let number: T = T::sample();
    proof {
        T::bounds_hold_zero_and_one();
    }
    positive_from(number)
}

/// A random number that is not above zero: a draw out of the whole type, remapped by
/// [`negative_remap`]. Only a draw of zero gives zero.
pub fn some_negative_number<T: SignedNumber>() -> (r: T)
    ensures
        exists|number: int|
            T::lowest() <= number <= T::highest() && r.value() == #[trigger] negative_remap(number),
        T::lowest() <= r.value() <= 0,
{
    let number: T = T::sample();
    let r = negative_from(number);
    proof {
        r.value_is_bounded();
    }
    r
}

/// A random number from `from` up to, but not including, `to`; `from` itself where the two are
/// equal.
pub fn some_number_between<T: Number>(from: T, to: T) -> (r: T)
    requires
        from.value() <= to.value(),
    ensures
        in_sampled_range(from.value(), to.value(), r.value()),
        from.value() < to.value() ==> from.value() <= r.value() < to.value(),
        from.value() == to.value() ==> r == from,
{
    if from.less_than(to) {
        T::sample_range(from, to)
    } else {
        from
    }
}

/// A random number above `bound`, which must not be negative nor the greatest of its type.
///
/// The number is drawn between `bound + 1` and the greatest value of the type, so that value
/// itself is the result only where `bound` is the one just below it.
pub fn some_number_greater_than<T: Number>(bound: T) -> (r: T)
    requires
        0 <= bound.value() < T::highest(),
    ensures
        in_sampled_range(bound.value() + 1, T::highest(), r.value()),
        bound.value() < r.value() <= T::highest(),
{
    proof {
        T::bounds_hold_zero_and_one();
    }
    let from: T = bound.plus(one::<T>());
    some_number_between(from, T::max_value())
}

/// A random number below `bound`, drawn between the least value of the type and `bound`.
///
/// Where `bound` is that least value there is nothing below it, and the result is `bound`.
pub fn some_number_less_than<T: Number>(bound: T) -> (r: T)
    ensures
        in_sampled_range(T::lowest(), bound.value(), r.value()),
        T::lowest() < bound.value() ==> T::lowest() <= r.value() < bound.value(),
        T::lowest() == bound.value() ==> r == bound,
{
    proof {
        bound.value_is_bounded();
    }
    let from: T = T::min_value();
    let r = some_number_between(from, bound);
    proof {
        r.value_is_injective(bound);
    }
    r
}

/// A random number from zero up to, but not including, `bound`, which must be positive.
pub fn some_positive_number_to<T: Number>(bound: T) -> (r: T)
    requires
        0 < bound.value(),
    ensures
        0 <= r.value() < bound.value(),
{
    some_number_between(zero::<T>(), bound)
}

/// [`some_number_between`] for any two bounds: a range whose start lies above its end is
/// turned down.
pub fn try_number_between<T: Number>(from: T, to: T) -> (r: Result<T, SampleError>)
    ensures
        match r {
            Ok(v) => {
                &&& from.value() <= to.value()
                &&& in_sampled_range(from.value(), to.value(), v.value())
                &&& from.value() == to.value() ==> v == from
            },
            Err(SampleError::InvalidRange) => from.value() > to.value(),
            Err(SampleError::InvalidBound) => false,
        },
{
    if to.less_than(from) {
        Err(SampleError::InvalidRange)
    } else {
        Ok(some_number_between(from, to))
    }
}

/// [`some_number_greater_than`] for any bound: a negative bound is turned down as invalid, and
/// the greatest value of the type because nothing lies above it.
pub fn try_number_greater_than<T: Number>(bound: T) -> (r: Result<T, SampleError>)
    ensures
        match r {
            Ok(v) => {
                &&& 0 <= bound.value() < T::highest()
                &&& in_sampled_range(bound.value() + 1, T::highest(), v.value())
                &&& bound.value() < v.value() <= T::highest()
            },
            Err(SampleError::InvalidBound) => bound.value() < 0,
            Err(SampleError::InvalidRange) => bound.value() == T::highest(),
        },
{
    proof {
        bound.value_is_bounded();
        T::bounds_hold_zero_and_one();
    }
    if bound.less_than(zero::<T>()) {
        Err(SampleError::InvalidBound)
    } else if bound.less_than(T::max_value()) {
        Ok(some_number_greater_than(bound))
    } else {
        Err(SampleError::InvalidRange)
    }
}

/// [`some_positive_number_to`] for any bound: one that is not positive is turned down.
pub fn try_positive_number_to<T: Number>(bound: T) -> (r: Result<T, SampleError>)
    ensures
        match r {
            Ok(v) => 0 <= v.value() < bound.value(),
            Err(SampleError::InvalidBound) => bound.value() <= 0,
            Err(SampleError::InvalidRange) => false,
        },
{
    if zero::<T>().less_than(bound) {
        Ok(some_positive_number_to(bound))
    } else {
        Err(SampleError::InvalidBound)
    }
}

} // verus!
