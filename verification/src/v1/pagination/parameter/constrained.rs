//! An unsigned integer constrained to an inclusive range fixed in its type.

use vstd::prelude::*;
use crate::text::{decimal, decimal_string};

verus! {

/// The value is lower than `MIN`.
#[derive(Clone, Copy, Debug, PartialEq, Eq)]
pub struct MinError<const MIN: u64>;

/// The value is greater than `MAX`.
#[derive(Clone, Copy, Debug, PartialEq, Eq)]
pub struct MaxError<const MAX: u64>;

/// Why a value was refused by a [`ConstrainedU64`].
#[derive(Clone, Copy, Debug, PartialEq, Eq)]
pub enum RangeBoundError<const MIN: u64, const MAX: u64> {
    /// The value is lower than `MIN`.
    Min(MinError<MIN>),
    /// The value is greater than `MAX`.
    Max(MaxError<MAX>),
}

impl<const MIN: u64> MinError<MIN> {
    /// The text of the error message.
    pub open spec fn message() -> Seq<char> {
        "must be greater or equal to "@ + decimal(MIN as nat)
    }

    /// The error message: the bound that was not kept.
    pub fn to_string(&self) -> (text: String)
        ensures
            text@ == Self::message(),
    {
        String::from_str("must be greater or equal to ").concat(decimal_string(MIN).as_str())
    }
}

impl<const MAX: u64> MaxError<MAX> {
    /// The text of the error message.
    pub open spec fn message() -> Seq<char> {
        "must be lower or equal to "@ + decimal(MAX as nat)
    }

    /// The error message: the bound that was not kept.
    pub fn to_string(&self) -> (text: String)
        ensures
            text@ == Self::message(),
    {
        String::from_str("must be lower or equal to ").concat(decimal_string(MAX).as_str())
    }
}

impl<const MIN: u64, const MAX: u64> RangeBoundError<MIN, MAX> {
    /// The text of the error message: that of the bound that was not kept.
    pub open spec fn message(self) -> Seq<char> {
        match self {
            RangeBoundError::Min(_) => MinError::<MIN>::message(),
            RangeBoundError::Max(_) => MaxError::<MAX>::message(),
        }
    }

    /// The error message of the variant.
    pub fn to_string(&self) -> (text: String)
        ensures
            text@ == self.message(),
    {
        match self {
            RangeBoundError::Min(err) => err.to_string(),
            RangeBoundError::Max(err) => err.to_string(),
        }
    }
}

/// A `u64` that lies in `MIN..=MAX`, with `DEF` as the value of `default()`.
///
/// The type is meant for parameters with `MIN <= DEF <= MAX`. Every
/// constructor but `default()` checks the range, so a value made from an
/// integer always lies in it.
#[derive(Clone, Copy, Debug, PartialEq, Eq)]
pub struct ConstrainedU64<const MIN: u64, const MAX: u64, const DEF: u64>(u64);

impl<const MIN: u64, const MAX: u64, const DEF: u64> ConstrainedU64<MIN, MAX, DEF> {
    /// The wrapped integer lies in the range, or is the upper bound or the
    /// default.
    #[verifier::type_invariant]
    spec fn inv(self) -> bool {
        Self::in_range(self.0) || self.0 == MAX || self.0 == DEF
    }

    /// The greatest value that the container can hold.
    pub fn max_value() -> (bound: u64)
        ensures
            bound == MAX,
    {
        MAX
    }

    /// The least value that the container can hold.
    pub fn min_value() -> (bound: u64)
        ensures
            bound == MIN,
    {
        MIN
    }

    /// The value that `default()` holds.
    pub fn default_value() -> (value: u64)
        ensures
            value == DEF,
    {
        DEF
    }

    /// The wrapped integer.
    pub closed spec fn value(self) -> u64 {
        self.0
    }

    /// A value is the integer that it wraps and nothing else.
    pub proof fn lemma_same(self, other: Self)
        requires
            self.value() == other.value(),
        ensures
            self == other,
    {
    }

    /// Whether `value` lies in `MIN..=MAX`.
    pub open spec fn in_range(value: u64) -> bool {
        MIN <= value <= MAX
    }

    /// What `available` offers for a candidate: nothing at or below `MIN`,
    /// the candidate itself up to `MAX`, and `MAX` beyond it.
    pub open spec fn available_value(value: u64) -> Option<u64> {
        if value > MAX {
            Some(MAX)
        } else if value <= MIN {
            None
        } else {
            Some(value)
        }
    }

    /// Checks `value` against the range, the upper bound first.
    pub fn is_valid(value: u64) -> (res: Result<(), RangeBoundError<MIN, MAX>>)
        ensures
            res is Ok <==> Self::in_range(value),
            value > MAX ==> res is Err && res->Err_0 is Max,
            value <= MAX && value < MIN ==> res is Err && res->Err_0 is Min,
    {
        if value > MAX {
            Err(RangeBoundError::Max(MaxError))
        } else if value < MIN {
            Err(RangeBoundError::Min(MinError))
        } else {
            Ok(())
        }
    }

    /// Wraps `value` if it lies in `MIN..=MAX`.
    pub fn new(value: u64) -> (res: Result<Self, RangeBoundError<MIN, MAX>>)
        ensures
            res is Ok <==> Self::in_range(value),
            res is Ok ==> res->Ok_0.value() == value,
            value > MAX ==> res is Err && res->Err_0 is Max,
            value <= MAX && value < MIN ==> res is Err && res->Err_0 is Min,
    {
        match Self::is_valid(value) {
            Ok(()) => Ok(Self(value)),
            Err(err) => Err(err),
        }
    }

    /// Replaces the wrapped integer by `value` if it lies in `MIN..=MAX`,
    /// and leaves it as it is otherwise.
    pub fn set(&mut self, value: u64) -> (res: Result<(), RangeBoundError<MIN, MAX>>)
        ensures
            res is Ok <==> Self::in_range(value),
            res is Ok ==> final(self).value() == value,
            res is Err ==> *final(self) == *old(self),
            value > MAX ==> res is Err && res->Err_0 is Max,
            value <= MAX && value < MIN ==> res is Err && res->Err_0 is Min,
    {
        match Self::is_valid(value) {
            Ok(()) => {
                self.0 = value;
                Ok(())
            },
            Err(err) => Err(err),
        }
    }

    /// The largest value not above `value` that can still be offered, if
    /// there is one above `MIN`: a candidate over `MAX` is cut down to
    /// `MAX`, one at or under `MIN` gives nothing.
    pub fn available(value: u64) -> (res: Option<Self>)
        ensures
            res is Some <==> Self::available_value(value) is Some,
            res is Some ==> Some(res->Some_0.value()) == Self::available_value(value),
    {
        if value > MAX {
            Some(Self(MAX))
        } else if value <= MIN {
            None
        } else {
            Some(Self(value))
        }
    }

    /// The wrapped integer. With `MIN <= DEF <= MAX` it lies in
    /// `MIN..=MAX`.
    pub fn get(&self) -> (value: u64)
        ensures
            value == self.value(),
            Self::in_range(value) || value == MAX || value == DEF,
    {
        proof {
            use_type_invariant(self);
        }
        self.0
    }
}

impl<const DEF: u64> ConstrainedU64<0, 18446744073709551615, DEF> {
    /// Wraps `value`: the range is all of `u64`, so nothing is refused.
    pub fn new_infallible(value: u64) -> (res: Self)
        ensures
            res.value() == value,
    {
        Self(value)
    }

    /// Replaces the wrapped integer by `value`.
    pub fn set_infallible(&mut self, value: u64)
        ensures
            final(self).value() == value,
    {
        self.0 = value;
    }
}

impl<const MIN: u64, const MAX: u64, const DEF: u64> Default for ConstrainedU64<MIN, MAX, DEF> {
    fn default() -> (res: Self)
        ensures
            res.value() == DEF,
    {
        Self(DEF)
    }
}

} // verus!
