//! Paging windows over remote result lists.
//!
//! The service returns results in pages of at most 100, and only while
//! the sum of offset and limit stays below 10 000: of any list, the first
//! 9 999 results at most. A [`Page`] is a window `offset .. offset + limit`
//! that the service accepts; every way to make or change one checks both
//! bounds.

pub mod parameter;

use vstd::prelude::*;
use crate::text::{decimal, decimal_string};
use parameter::limit::{Limit, LimitBoundError, LimitBoundsError};
use parameter::offset::Offset;

verus! {

/// How many results an iteration over a paged endpoint is asked for.
#[derive(Clone, Copy, Debug, PartialEq, Eq, Structural)]
pub enum Results {
    /// Every result that the service returns.
    All,
    /// At most this many results.
    Limit(u64),
}

impl Default for Results {
    fn default() -> (res: Results)
        ensures
            res == Results::All,
    {
        Results::All
    }
}

/// How many results a paged query is asked for.
#[derive(Clone, Copy, Debug, PartialEq, Eq, Structural)]
pub enum Pages {
    /// Every result that the service returns.
    All,
    /// At most this many results.
    Limit(u64),
}

impl Default for Pages {
    fn default() -> (res: Pages)
        ensures
            res == Pages::All,
    {
        Pages::All
    }
}

/// The sum of an offset and a limit lies beyond the results that the
/// service returns.
#[derive(Clone, Copy, Debug, PartialEq, Eq)]
pub struct RangeBoundsError {
    /// The offset that was offered.
    pub offset: u64,
    /// The limit that was offered.
    pub limit: u64,
    /// The largest limit that the service would still accept at the
    /// offered offset, if it accepts any.
    pub available: Option<Limit>,
}

/// An offset and a limit that do not make a page.
#[derive(Clone, Copy, Debug, PartialEq, Eq)]
pub enum PaginationError {
    /// The window reaches beyond the results that the service returns.
    Range(RangeBoundsError),
    /// The limit is no page size that the service accepts.
    Limit(LimitBoundError),
}

/// A window of results: `limit` of them, starting after the first `offset`.
///
/// A page always has `Limit::MIN <= limit <= Limit::MAX` and
/// `offset + limit <= Page::SUM_MAX`.
#[derive(Clone, Copy, Debug, PartialEq, Eq)]
pub struct Page {
    offset: Offset,
    limit: Limit,
}

impl RangeBoundsError {
    /// The largest limit that the service would still accept at the
    /// offered offset, or 0 where it accepts none.
    pub open spec fn available_limit(self) -> u64 {
        match self.available {
            Some(limit) => limit.value(),
            None => 0,
        }
    }

    /// Whether the error is the report of the window of `limit` results at
    /// `offset`: it holds both, and the largest limit that is left at
    /// `offset`, or none where nothing is left.
    pub open spec fn reports(self, offset: u64, limit: u64) -> bool {
        &&& self.offset == offset
        &&& self.limit == limit
        &&& self.available_limit() == Page::available_limit(offset)
        &&& self.available is Some <==> Page::available_limit(offset) > 0
    }

    /// The text of the error message.
    pub open spec fn message(self) -> Seq<char> {
        "`offset` and `limit` sum must be lower or equal to "@ + decimal(Page::SUM_MAX as nat)
            + ", but provided: offset="@ + decimal(self.offset as nat) + " and limit="@ + decimal(
            self.limit as nat,
        )
    }

    /// The largest limit that the service would still accept at the
    /// offered offset, if it accepts any.
    pub fn available(&self) -> (res: Option<Limit>)
        ensures
            res == self.available,
    {
        self.available
    }

    /// The error message: the bound and the window that was offered.
    pub fn to_string(&self) -> (text: String)
        ensures
            text@ == self.message(),
    {
        String::from_str("`offset` and `limit` sum must be lower or equal to ")
            .concat(decimal_string(Page::SUM_MAX).as_str())
            .concat(", but provided: offset=")
            .concat(decimal_string(self.offset).as_str())
            .concat(" and limit=")
            .concat(decimal_string(self.limit).as_str())
    }
}

impl PaginationError {
    /// The text of the error message: that of the bound that was not kept.
    pub open spec fn message(self) -> Seq<char> {
        match self {
            PaginationError::Range(err) => err.message(),
            PaginationError::Limit(err) => err.message(),
        }
    }

    /// The error message of the variant.
    pub fn to_string(&self) -> (text: String)
        ensures
            text@ == self.message(),
    {
        match self {
            PaginationError::Range(err) => err.to_string(),
            PaginationError::Limit(err) => err.to_string(),
        }
    }
}

impl From<RangeBoundsError> for PaginationError {
    fn from(err: RangeBoundsError) -> (res: PaginationError) {
        PaginationError::Range(err)
    }
}

impl vstd::std_specs::convert::FromSpecImpl<RangeBoundsError> for PaginationError {
    open spec fn obeys_from_spec() -> bool {
        true
    }

    open spec fn from_spec(err: RangeBoundsError) -> PaginationError {
        PaginationError::Range(err)
    }
}

impl From<LimitBoundError> for PaginationError {
    fn from(err: LimitBoundError) -> (res: PaginationError) {
        PaginationError::Limit(err)
    }
}

impl vstd::std_specs::convert::FromSpecImpl<LimitBoundError> for PaginationError {
    open spec fn obeys_from_spec() -> bool {
        true
    }

    open spec fn from_spec(err: LimitBoundError) -> PaginationError {
        PaginationError::Limit(err)
    }
}

impl Page {
    /// The bound that the sum of an offset and a limit must stay below.
    pub const RANGE_LIMIT: u64 = 10_000;

    /// The greatest sum of an offset and a limit that the service accepts,
    /// and so the number of results that it returns of any list at most.
    pub const SUM_MAX: u64 = 9_999;

    /// The offset of the page.
    pub closed spec fn offset(self) -> u64 {
        self.offset.value()
    }

    /// The limit of the page.
    pub closed spec fn limit(self) -> u64 {
        self.limit.value()
    }

    /// A page is its offset and its limit and nothing else.
    pub proof fn lemma_same(self, other: Page)
        requires
            self.offset() == other.offset(),
            self.limit() == other.limit(),
        ensures
            self == other,
    {
        self.offset.lemma_same(other.offset);
        self.limit.lemma_same(other.limit);
    }

    /// Whether the window of `limit` results after `offset` ends within the
    /// results that the service returns.
    pub open spec fn in_range(offset: u64, limit: u64) -> bool {
        offset + limit <= Page::SUM_MAX
    }

    /// Whether `offset` and `limit` make a page.
    pub open spec fn valid(offset: u64, limit: u64) -> bool {
        Limit::is_valid(limit) && Page::in_range(offset, limit)
    }

    /// The largest limit that the service accepts at `offset`: what is left
    /// up to `Page::SUM_MAX`, cut down to `Limit::MAX`. It is 0 where no
    /// limit is accepted.
    pub open spec fn available_limit(offset: u64) -> u64 {
        if offset >= Page::SUM_MAX {
            0
        } else if Page::SUM_MAX - offset > Limit::MAX {
            Limit::MAX
        } else {
            (Page::SUM_MAX - offset) as u64
        }
    }

    /// The limit of a page with limit `limit` after it has moved to the
    /// offset `next`: `limit` where the window still fits, else what is
    /// left at `next`, and nothing where nothing is left.
    pub open spec fn next_limit(limit: u64, next: u64) -> Option<u64> {
        if Page::in_range(next, limit) {
            Some(limit)
        } else if Page::available_limit(next) > 0 {
            Some(Page::available_limit(next))
        } else {
            None
        }
    }

    /// Whether `after` and `res` are what a change of the limit to `limit`
    /// makes of the page and returns.
    ///
    /// The change succeeds where `limit` makes a page with the offset; the
    /// page then has that limit and its offset as before. Otherwise the
    /// page stays as it is. The window is checked first, then the limit: a
    /// limit that does not fit is reported as out of range, with what is
    /// left at the offset, and only one that fits as no page size.
    pub open spec fn sets_limit(
        self,
        limit: u64,
        after: Page,
        res: Result<(), PaginationError>,
    ) -> bool {
        &&& res is Ok <==> Page::valid(self.offset(), limit)
        &&& res is Ok ==> after.offset() == self.offset() && after.limit() == limit
        &&& res is Err ==> after == self
        &&& !Page::in_range(self.offset(), limit) ==> {
            &&& res is Err
            &&& res->Err_0 is Range
            &&& res->Err_0->Range_0.reports(self.offset(), limit)
        }
        &&& Page::in_range(self.offset(), limit) && !Limit::is_valid(limit) ==> {
            &&& res is Err
            &&& res->Err_0 is Limit
            &&& limit > Limit::MAX ==> res->Err_0->Limit_0 is Max
            &&& limit < Limit::MIN ==> res->Err_0->Limit_0 is Min
        }
    }

    /// Whether `after` and `res` are what a move to the offset `next`
    /// makes of the page and returns.
    ///
    /// The move succeeds where a limit is left at `next`; the page is then
    /// at `next`, with its limit where the window fits and with what is
    /// left there otherwise. Where nothing is left the page stays as it is,
    /// and the error reports the window that was tried.
    pub open spec fn moves_to(self, next: u64, after: Page, res: Result<(), RangeBoundsError>)
        -> bool {
        &&& res is Ok <==> Page::next_limit(self.limit(), next) is Some
        &&& res is Ok ==> {
            &&& after.offset() == next
            &&& Some(after.limit()) == Page::next_limit(self.limit(), next)
        }
        &&& res is Err ==> {
            &&& after == self
            &&& res->Err_0.reports(next, self.limit())
            &&& res->Err_0.available is None
        }
    }

    #[verifier::type_invariant]
    spec fn inv(self) -> bool {
        Page::valid(self.offset.value(), self.limit.value())
    }

    /// The page of `limit` results after the first `offset`.
    ///
    /// The limit is checked first: outside `Limit::MIN..=Limit::MAX` it is
    /// refused whatever the offset. Then the window is checked against
    /// `Page::SUM_MAX`; a sum that does not fit in `u64` is out of range
    /// like any other.
    pub fn new(offset: u64, limit: u64) -> (res: Result<Page, PaginationError>)
        ensures
            res is Ok <==> Page::valid(offset, limit),
            res is Ok ==> res->Ok_0.offset() == offset && res->Ok_0.limit() == limit,
            !Limit::is_valid(limit) ==> res is Err && res->Err_0 is Limit,
            limit > Limit::MAX ==> res->Err_0->Limit_0 is Max,
            limit < Limit::MIN ==> res->Err_0->Limit_0 is Min,
            Limit::is_valid(limit) && !Page::in_range(offset, limit) ==> {
                &&& res is Err
                &&& res->Err_0 is Range
                &&& res->Err_0->Range_0.reports(offset, limit)
            },
    {
        let limit = match Limit::new(limit) {
            Ok(limit) => limit,
            Err(err) => {
                return Err(PaginationError::Limit(err));
            },
        };
        let offset = Offset::new(offset);
        match Self::is_valid_range(offset.get(), limit.get()) {
            Ok(()) => Ok(Page { offset, limit }),
            Err(err) => Err(PaginationError::Range(err)),
        }
    }

    /// The page of `Limit::DEF` results after the first `offset`.
    pub fn with_offset(offset: u64) -> (res: Result<Page, RangeBoundsError>)
        ensures
            res is Ok <==> Page::in_range(offset, Limit::DEF),
            res is Ok ==> res->Ok_0.offset() == offset && res->Ok_0.limit() == Limit::DEF,
            res is Err ==> {
                &&& res->Err_0.reports(offset, Limit::DEF)
            },
    {
        let limit = Limit::default();
        let offset = Offset::new(offset);
        match Self::is_valid_range(offset.get(), limit.get()) {
            Ok(()) => Ok(Page { offset, limit }),
            Err(err) => Err(err),
        }
    }

    /// The first page of a list, with `limit` results.
    pub fn with_limit(limit: u64) -> (res: Result<Page, PaginationError>)
        ensures
            res is Ok <==> Limit::is_valid(limit),
            res is Ok ==> res->Ok_0.offset() == Offset::DEF && res->Ok_0.limit() == limit,
            res is Err ==> res->Err_0 is Limit,
            limit > Limit::MAX ==> res->Err_0->Limit_0 is Max,
            limit < Limit::MIN ==> res->Err_0->Limit_0 is Min,
    {
        Self::new(Offset::DEF, limit)
    }

    /// Moves the page to `offset` and keeps its limit, if the window still
    /// fits; the page stays as it is otherwise.
    pub fn set_offset(&mut self, offset: u64) -> (res: Result<(), RangeBoundsError>)
        ensures
            res is Ok <==> Page::in_range(offset, old(self).limit()),
            res is Ok ==> final(self).offset() == offset && final(self).limit() == old(self).limit(),
            res is Err ==> {
                &&& *final(self) == *old(self)
                &&& res->Err_0.reports(offset, old(self).limit())
            },
    {
        proof {
            use_type_invariant(&*self);
        }
        match Self::is_valid_range(offset, self.limit.get()) {
            Ok(()) => {
                self.offset = Offset::new(offset);
                Ok(())
            },
            Err(err) => Err(err),
        }
    }

    /// Changes the limit of the page to `limit` and keeps its offset; the
    /// page stays as it is if `limit` is refused.
    ///
    /// The window is checked first, then the limit: a limit that is both
    /// too large for the window and no page size is reported as out of
    /// range.
    pub fn set_limit(&mut self, limit: u64) -> (res: Result<(), PaginationError>)
        ensures
            old(self).sets_limit(limit, *final(self), res),
    {
        proof {
            use_type_invariant(&*self);
        }
        match Self::is_valid_range(self.offset.get(), limit) {
            Ok(()) => {},
            Err(err) => {
                return Err(PaginationError::Range(err));
            },
        }
        match Limit::new(limit) {
            Ok(limit) => {
                self.limit = limit;
                Ok(())
            },
            Err(err) => Err(PaginationError::Limit(err)),
        }
    }

    /// Moves the page to the offset `next` that a response named.
    ///
    /// The limit is kept where the window still fits. Close to
    /// `Page::SUM_MAX` it is cut down, without notice, to the largest limit
    /// that fits there, so that the last results can still be asked for.
    /// Where not even a limit of 1 fits, from `next == Page::SUM_MAX` on,
    /// the page stays as it is and an error is returned: there are no more
    /// pages, and an iteration ends here.
    pub fn next_page(&mut self, next: u64) -> (res: Result<(), RangeBoundsError>)
        ensures
            old(self).moves_to(next, *final(self), res),
            res is Ok <==> next < Page::SUM_MAX,
            res is Ok ==> final(self).limit() <= old(self).limit(),
    {
        proof {
            use_type_invariant(&*self);
        }
        match self.set_offset(next) {
            Ok(()) => Ok(()),
            Err(err) => match err.available() {
                Some(limit) => {
                    match Self::is_valid_range(next, limit.get()) {
                        Ok(()) => {},
                        Err(err) => {
                            return Err(err);
                        },
                    }
                    self.limit = limit;
                    self.offset = Offset::new(next);
                    Ok(())
                },
                None => Err(err),
            },
        }
    }

    /// Checks `limit` against the bounds of a page size and reports the
    /// offered value when it lies outside them.
    pub fn is_valid_limit(limit: u64) -> (res: Result<(), LimitBoundsError>)
        ensures
            res is Ok <==> Limit::is_valid(limit),
            res is Err ==> res->Err_0.limit == limit,
    {
        Limit::is_valid_limit(limit)
    }

    /// Checks all that `Page::new` checks, in its order: the limit, then
    /// the window.
    pub fn check_boundaries(offset: u64, limit: u64) -> (res: Result<(), PaginationError>)
        ensures
            res is Ok <==> Page::valid(offset, limit),
            !Limit::is_valid(limit) ==> res is Err && res->Err_0 is Limit,
            limit > Limit::MAX ==> res->Err_0->Limit_0 is Max,
            limit < Limit::MIN ==> res->Err_0->Limit_0 is Min,
            Limit::is_valid(limit) && !Page::in_range(offset, limit) ==> {
                &&& res is Err
                &&& res->Err_0 is Range
                &&& res->Err_0->Range_0.reports(offset, limit)
            },
    {
        match Limit::new(limit) {
            Ok(_) => {},
            Err(err) => {
                return Err(PaginationError::Limit(err));
            },
        }
        match Self::is_valid_range(offset, limit) {
            Ok(()) => Ok(()),
            Err(err) => Err(PaginationError::Range(err)),
        }
    }

    /// Checks that the window of `limit` results after `offset` ends within
    /// `Page::SUM_MAX`, and reports what is left at `offset` where it does
    /// not.
    pub fn is_valid_range(offset: u64, limit: u64) -> (res: Result<(), RangeBoundsError>)
        ensures
            res is Ok <==> Page::in_range(offset, limit),
            res is Err ==> res->Err_0.reports(offset, limit),
    {
        match offset.checked_add(limit) {
            Some(sum) if sum <= Self::SUM_MAX => Ok(()),
            _ => {
                let candidate = Self::SUM_MAX.saturating_sub(offset);
                let capped = if candidate > Limit::MAX {
                    Limit::MAX
                } else {
                    candidate
                };
                let available = match Limit::new(capped) {
                    Ok(limit) => Some(limit),
                    Err(_) => None,
                };
                Err(RangeBoundsError { offset, limit, available })
            },
        }
    }

    /// The offset of the page.
    pub fn get_offset(&self) -> (offset: u64)
        ensures
            offset == self.offset(),
            Page::valid(offset, self.limit()),
    {
        proof {
            use_type_invariant(self);
        }
        self.offset.get()
    }

    /// The limit of the page.
    pub fn get_limit(&self) -> (limit: u64)
        ensures
            limit == self.limit(),
            Page::valid(self.offset(), limit),
    {
        proof {
            use_type_invariant(self);
        }
        self.limit.get()
    }
}

/// A value that holds a [`Page`], such as the parameters of a paged query.
///
/// An iteration over a paged endpoint reads and moves the page through this
/// trait and knows nothing else about the value.
pub trait Paged: Sized {
    /// The page that the value holds. An implementation that is to be
    /// reasoned about says what it is.
    open spec fn page(&self) -> Page {
        arbitrary()
    }

    /// What the value holds beside its page: the value with a fixed page in
    /// place of its own. Two values that agree here differ in their pages
    /// at most. An implementation that is to be reasoned about says what it
    /// is.
    open spec fn beside_page(&self) -> Self {
        arbitrary()
    }

    /// The page that the value holds.
    fn get_page(&self) -> (page: &Page)
        ensures
            *page == self.page(),
    ;

    /// The page that the value holds, to be changed in place. Nothing but
    /// the page can be changed through it.
    fn get_page_mut(&mut self) -> (page: &mut Page)
        ensures
            *page == old(self).page(),
            final(self).page() == *final(page),
            final(self).beside_page() == old(self).beside_page(),
    ;

    /// Changes the limit of the page, as [`Page::set_limit`] does.
    fn set_limit(&mut self, limit: u64) -> (res: Result<(), PaginationError>)
        ensures
            old(self).page().sets_limit(limit, final(self).page(), res),
            final(self).beside_page() == old(self).beside_page(),
    {
        self.get_page_mut().set_limit(limit)
    }

    /// Moves the page to the offset `next`, as [`Page::next_page`] does.
    fn next_page(&mut self, next: u64) -> (res: Result<(), RangeBoundsError>)
        ensures
            old(self).page().moves_to(next, final(self).page(), res),
            final(self).beside_page() == old(self).beside_page(),
    {
        self.get_page_mut().next_page(next)
    }

    /// The offset of the page.
    fn get_offset(&self) -> (offset: u64)
        ensures
            offset == self.page().offset(),
            Page::valid(offset, self.page().limit()),
    {
        self.get_page().get_offset()
    }

    /// The limit of the page.
    fn get_limit(&self) -> (limit: u64)
        ensures
            limit == self.page().limit(),
            Page::valid(self.page().offset(), limit),
    {
        self.get_page().get_limit()
    }
}

impl Default for Page {
    fn default() -> (res: Page)
        ensures
            res.offset() == Offset::DEF,
            res.limit() == Limit::DEF,
    {
        Page { offset: Offset::default(), limit: Limit::default() }
    }
}

/// Every limit from 1 to 100 makes a page with every offset that keeps the
/// sum below 10 000: `Page::new` succeeds on them, and the page it returns
/// holds both as they were given.
pub proof fn window_within_bounds_is_valid(offset: u64, limit: u64)
    requires
        1 <= limit <= 100,
        offset + limit < 10_000,
    ensures
        Page::valid(offset, limit),
{
}

/// A limit below 1 or above 100 makes no page, whatever the offset:
/// `Page::new` refuses it with the error of the limit.
pub proof fn limit_out_of_bounds_is_invalid(offset: u64, limit: u64)
    requires
        limit < 1 || limit > 100,
    ensures
        !Limit::is_valid(limit),
        !Page::valid(offset, limit),
{
}

/// A limit from 1 to 100 with a sum of 10 000 or more makes no page, and
/// the largest limit left at the offset, which `Page::new` reports with
/// its error, is what lies between the offset and 9 999: less than the
/// limit that was refused, and 0 from the offset 9 999 on.
pub proof fn window_out_of_range_leaves_remainder(offset: u64, limit: u64)
    requires
        1 <= limit <= 100,
        offset + limit >= 10_000,
    ensures
        Limit::is_valid(limit),
        !Page::in_range(offset, limit),
        offset <= 9_999 ==> Page::available_limit(offset) == 9_999 - offset,
        offset > 9_999 ==> Page::available_limit(offset) == 0,
        Page::available_limit(offset) < limit,
{
}

/// What is left at an offset is never more than the largest page.
pub proof fn remainder_is_a_limit_or_nothing(offset: u64)
    ensures
        Page::available_limit(offset) == 0 || Limit::is_valid(Page::available_limit(offset)),
        Page::available_limit(offset) > 0 ==> Page::valid(offset, Page::available_limit(offset)),
{
}

/// No page starts at the offset 9 999: `Page::next_page` to it fails
/// whatever limit the page has, which ends an iteration.
pub proof fn no_page_at_the_ceiling(limit: u64)
    requires
        limit >= 1,
    ensures
        Page::next_limit(limit, Page::SUM_MAX) is None,
{
}

/// The greatest `u64` is out of range as an offset and as a limit, with
/// nothing left at it: a sum that does not fit in `u64` is refused like
/// any other that is too large, and never wraps around.
pub proof fn greatest_values_are_out_of_range(other: u64)
    ensures
        !Page::in_range(u64::MAX, other),
        !Page::valid(u64::MAX, other),
        !Page::valid(other, u64::MAX),
        other > 0 ==> !Page::in_range(other, u64::MAX),
        Page::available_limit(u64::MAX) == 0,
        Page::next_limit(other, u64::MAX) is None,
{
}

/// The window bound is that of the service, one below the bound that no
/// sum of an offset and a limit reaches.
pub proof fn page_bounds_hold()
    ensures
        Page::SUM_MAX > 0,
        Page::SUM_MAX < 10_000,
        Page::RANGE_LIMIT == Page::SUM_MAX + 1,
{
}

} // verus!
