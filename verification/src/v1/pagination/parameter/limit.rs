//! The number of results of a page.

use vstd::prelude::*;
use super::constrained::{ConstrainedU64, MaxError, MinError, RangeBoundError};
use crate::text::{decimal, decimal_string};

verus! {

/// The size of a page: between 1 and 100 results.
#[derive(Clone, Copy, Debug, PartialEq, Eq)]
pub struct Limit {
    limit: ConstrainedU64<1, 100, 100>,
}

/// A limit lower than [`Limit::MIN`] was offered.
#[derive(Clone, Copy, Debug, PartialEq, Eq)]
pub struct LimitMinError(pub MinError<1>);

/// A limit greater than [`Limit::MAX`] was offered.
#[derive(Clone, Copy, Debug, PartialEq, Eq)]
pub struct LimitMaxError(pub MaxError<100>);

/// A limit outside `Limit::MIN..=Limit::MAX` was offered.
#[derive(Clone, Copy, Debug, PartialEq, Eq)]
pub enum LimitBoundError {
    /// The limit is too low.
    Min(LimitMinError),
    /// The limit is too high.
    Max(LimitMaxError),
}

/// A limit outside `Limit::MIN..=Limit::MAX`, with the limit that was
/// offered.
#[derive(Clone, Copy, Debug, PartialEq, Eq)]
pub struct LimitBoundsError {
    pub limit: u64,
}

impl LimitMinError {
    /// The text of the error message.
    pub open spec fn message() -> Seq<char> {
        "`limit` "@ + MinError::<1>::message()
    }

    /// The error message: the parameter and the bound that was not kept.
    pub fn to_string(&self) -> (text: String)
        ensures
            text@ == Self::message(),
    {
        String::from_str("`limit` ").concat(self.0.to_string().as_str())
    }
}

impl LimitMaxError {
    /// The text of the error message.
    pub open spec fn message() -> Seq<char> {
        "`limit` "@ + MaxError::<100>::message()
    }

    /// The error message: the parameter and the bound that was not kept.
    pub fn to_string(&self) -> (text: String)
        ensures
            text@ == Self::message(),
    {
        String::from_str("`limit` ").concat(self.0.to_string().as_str())
    }
}

impl LimitBoundError {
    /// The error of a limit for the bound of the range that was not kept.
    pub open spec fn spec_of(err: RangeBoundError<1, 100>) -> LimitBoundError {
        match err {
            RangeBoundError::Min(min) => LimitBoundError::Min(LimitMinError(min)),
            RangeBoundError::Max(max) => LimitBoundError::Max(LimitMaxError(max)),
        }
    }

    fn of(err: RangeBoundError<1, 100>) -> (res: LimitBoundError)
        ensures
            res == LimitBoundError::spec_of(err),
    {
        match err {
            RangeBoundError::Min(min) => LimitBoundError::Min(LimitMinError(min)),
            RangeBoundError::Max(max) => LimitBoundError::Max(LimitMaxError(max)),
        }
    }

    /// The text of the error message: that of the bound that was not kept.
    pub open spec fn message(self) -> Seq<char> {
        match self {
            LimitBoundError::Min(_) => LimitMinError::message(),
            LimitBoundError::Max(_) => LimitMaxError::message(),
        }
    }

    /// The error message of the variant.
    pub fn to_string(&self) -> (text: String)
        ensures
            text@ == self.message(),
    {
        match self {
            LimitBoundError::Min(err) => err.to_string(),
            LimitBoundError::Max(err) => err.to_string(),
        }
    }
}

impl LimitBoundsError {
    /// The text of the error message.
    pub open spec fn message(self) -> Seq<char> {
        "`limit` must be greater than "@ + decimal(Limit::MIN as nat)
            + " and lower or equal to "@ + decimal(Limit::MAX as nat) + ", but provided: "@
            + decimal(self.limit as nat)
    }

    /// The error message: the bounds and the limit that was offered.
    pub fn to_string(&self) -> (text: String)
        ensures
            text@ == self.message(),
    {
        String::from_str("`limit` must be greater than ")
            .concat(decimal_string(Limit::MIN).as_str())
            .concat(" and lower or equal to ")
            .concat(decimal_string(Limit::MAX).as_str())
            .concat(", but provided: ")
            .concat(decimal_string(self.limit).as_str())
    }
}

impl Limit {
    /// The service returns at most 100 results in a page.
    pub const MAX: u64 = 100;

    /// The service refuses a page of no results.
    pub const MIN: u64 = 1;

    /// The limit of `default()`: the largest page.
    pub const DEF: u64 = 100;

    /// The limit as an integer.
    pub closed spec fn value(self) -> u64 {
        self.limit.value()
    }

    /// A limit is its integer and nothing else.
    pub proof fn lemma_same(self, other: Limit)
        requires
            self.value() == other.value(),
        ensures
            self == other,
    {
        self.limit.lemma_same(other.limit);
    }

    /// Whether `limit` is a page size that the service accepts.
    pub open spec fn is_valid(limit: u64) -> bool {
        Limit::MIN <= limit <= Limit::MAX
    }

    /// What `available` offers for a candidate: nothing at or below
    /// `Limit::MIN`, the candidate itself up to `Limit::MAX`, and
    /// `Limit::MAX` beyond it.
    pub open spec fn available_value(limit: u64) -> Option<u64> {
        if limit > Limit::MAX {
            Some(Limit::MAX)
        } else if limit <= Limit::MIN {
            None
        } else {
            Some(limit)
        }
    }

    /// Checks `limit` against the bounds and reports the offered value when
    /// it lies outside them.
    pub fn is_valid_limit(limit: u64) -> (res: Result<(), LimitBoundsError>)
        ensures
            res is Ok <==> Limit::is_valid(limit),
            res is Err ==> res->Err_0.limit == limit,
    {
        if limit >= Limit::MIN && limit <= Limit::MAX {
            Ok(())
        } else {
            Err(LimitBoundsError { limit })
        }
    }

    /// A page size of `limit` results, if the service accepts it.
    pub fn new(limit: u64) -> (res: Result<Limit, LimitBoundError>)
        ensures
            res is Ok <==> Limit::is_valid(limit),
            res is Ok ==> res->Ok_0.value() == limit,
            limit > Limit::MAX ==> res is Err && res->Err_0 is Max,
            limit < Limit::MIN ==> res is Err && res->Err_0 is Min,
    {
        match ConstrainedU64::new(limit) {
            Ok(limit) => Ok(Limit { limit }),
            Err(err) => Err(LimitBoundError::of(err)),
        }
    }

    /// Changes the page size to `limit`, if the service accepts it; the
    /// size stays as it is otherwise.
    pub fn set(&mut self, limit: u64) -> (res: Result<(), LimitBoundError>)
        ensures
            res is Ok <==> Limit::is_valid(limit),
            res is Ok ==> final(self).value() == limit,
            res is Err ==> *final(self) == *old(self),
            limit > Limit::MAX ==> res is Err && res->Err_0 is Max,
            limit < Limit::MIN ==> res is Err && res->Err_0 is Min,
    {
        match self.limit.set(limit) {
            Ok(()) => Ok(()),
            Err(err) => Err(LimitBoundError::of(err)),
        }
    }

    /// The largest page size not above `limit` that is still above
    /// `Limit::MIN`, if there is one.
    pub fn available(limit: u64) -> (res: Option<Limit>)
        ensures
            res is Some <==> Limit::available_value(limit) is Some,
            res is Some ==> Some(res->Some_0.value()) == Limit::available_value(limit),
    {
        match ConstrainedU64::available(limit) {
            Some(limit) => Some(Limit { limit }),
            None => None,
        }
    }

    /// The limit as an integer: always a size that the service accepts.
    pub fn get(&self) -> (limit: u64)
        ensures
            limit == self.value(),
            Limit::is_valid(limit),
    {
        self.limit.get()
    }
}

impl Default for Limit {
    fn default() -> (res: Limit)
        ensures
            res.value() == Limit::DEF,
    {
        Limit { limit: ConstrainedU64::default() }
    }
}

impl From<MinError<1>> for LimitMinError {
    fn from(err: MinError<1>) -> (res: LimitMinError) {
        LimitMinError(err)
    }
}

impl vstd::std_specs::convert::FromSpecImpl<MinError<1>> for LimitMinError {
    open spec fn obeys_from_spec() -> bool {
        true
    }

    open spec fn from_spec(err: MinError<1>) -> LimitMinError {
        LimitMinError(err)
    }
}

impl From<MaxError<100>> for LimitMaxError {
    fn from(err: MaxError<100>) -> (res: LimitMaxError) {
        LimitMaxError(err)
    }
}

impl vstd::std_specs::convert::FromSpecImpl<MaxError<100>> for LimitMaxError {
    open spec fn obeys_from_spec() -> bool {
        true
    }

    open spec fn from_spec(err: MaxError<100>) -> LimitMaxError {
        LimitMaxError(err)
    }
}

impl From<LimitMinError> for LimitBoundError {
    fn from(err: LimitMinError) -> (res: LimitBoundError) {
        LimitBoundError::Min(err)
    }
}

impl vstd::std_specs::convert::FromSpecImpl<LimitMinError> for LimitBoundError {
    open spec fn obeys_from_spec() -> bool {
        true
    }

    open spec fn from_spec(err: LimitMinError) -> LimitBoundError {
        LimitBoundError::Min(err)
    }
}

impl From<LimitMaxError> for LimitBoundError {
    fn from(err: LimitMaxError) -> (res: LimitBoundError) {
        LimitBoundError::Max(err)
    }
}

impl vstd::std_specs::convert::FromSpecImpl<LimitMaxError> for LimitBoundError {
    open spec fn obeys_from_spec() -> bool {
        true
    }

    open spec fn from_spec(err: LimitMaxError) -> LimitBoundError {
        LimitBoundError::Max(err)
    }
}

impl From<RangeBoundError<1, 100>> for LimitBoundError {
    fn from(err: RangeBoundError<1, 100>) -> (res: LimitBoundError) {
        LimitBoundError::of(err)
    }
}

impl vstd::std_specs::convert::FromSpecImpl<RangeBoundError<1, 100>> for LimitBoundError {
    open spec fn obeys_from_spec() -> bool {
        true
    }

    open spec fn from_spec(err: RangeBoundError<1, 100>) -> LimitBoundError {
        LimitBoundError::spec_of(err)
    }
}

/// The bounds of a limit are those of the service, and its default lies
/// within them.
pub proof fn limit_bounds_hold()
    ensures
        Limit::MIN >= 1,
        Limit::MAX <= 100,
        Limit::MAX >= Limit::MIN,
        Limit::MIN <= Limit::DEF <= Limit::MAX,
{
}

} // verus!
