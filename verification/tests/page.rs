use scholars::urlencoded::UrlEncodedQuery;
use scholars::v1::pagination::parameter::constrained::{MaxError, MinError};
use scholars::v1::pagination::parameter::limit::{
    Limit, LimitBoundError, LimitMaxError, LimitMinError,
};
use scholars::v1::pagination::{
    Page, Paged, Pages, PaginationError, RangeBoundsError, Results,
};

#[test]
fn is_valid_range_succeeds_lower_or_equal_to_max() {
    let mut sums = vec![(Page::SUM_MAX, 0), (0, Page::SUM_MAX)];

    if Page::SUM_MAX > 0 {
        let lower = Page::SUM_MAX.checked_sub(1).unwrap();
        sums.extend_from_slice(&[(lower, 0), (0, lower), (lower, 1), (1, lower)]);
    }

    for sum in sums {
        match Page::is_valid_range(sum.0, sum.1) {
            Ok(_) => (),
            Err(_) => panic!(
                "must succeed when sum of `offset` and `limit` is lower or equal to Page::SUM_MAX"
            ),
        }
    }
}

#[test]
fn is_valid_range_fails_greater_than_max() {
    let mut sums = vec![(Page::SUM_MAX, 1), (1, Page::SUM_MAX)];

    if Page::SUM_MAX < u64::MAX {
        let greater = Page::SUM_MAX.checked_add(1).unwrap();
        sums.extend_from_slice(&[(greater, 0), (0, greater), (greater, 1), (1, greater)]);
    }

    for sum in sums {
        match Page::is_valid_range(sum.0, sum.1) {
            Err(_) => (),
            Ok(_) => panic!(
                "must fail when the sum of `offset` and `limit` is greater than Page::SUM_MAX"
            ),
        }
    }
}

#[test]
fn is_valid_range_fails_no_available_next_limit() {
    let mut sums = vec![(Page::SUM_MAX, 1)];

    if Page::SUM_MAX < u64::MAX {
        let greater = Page::SUM_MAX.checked_add(1).unwrap();
        sums.extend_from_slice(&[(greater, 0), (greater, 1)]);
    }

    for sum in sums {
        match Page::is_valid_range(sum.0, sum.1) {
            Err(RangeBoundsError { available, .. }) => {
                assert_eq!(available, None);
            }
            Ok(_) => panic!(
                "must fail when the sum of `offset` and `limit` is greater than Page::SUM_MAX"
            ),
        }
    }
}

#[test]
fn is_valid_range_fails_available_returns_max_limit() {
    let mut sums = vec![(1, Page::SUM_MAX)];

    if Page::SUM_MAX < u64::MAX {
        let greater = Page::SUM_MAX.checked_add(1).unwrap();
        sums.extend_from_slice(&[(0, greater), (1, greater)]);
    }

    for sum in sums {
        match Page::is_valid_range(sum.0, sum.1) {
            Err(RangeBoundsError { available, .. }) => {
                let limit = available.expect("`available can't be greater than Limit::MAX`");
                assert_eq!(limit.get(), Limit::MAX);
            }
            Ok(_) => panic!(
                "must fail when the sum of `offset` and `limit` is greater than Page::SUM_MAX"
            ),
        }
    }
}

#[test]
fn is_valid_range_does_not_overflow_u64_max_offset() {
    match Page::is_valid_range(u64::MAX, 1) {
        Err(RangeBoundsError { available, .. }) => {
            assert_eq!(available, None, "`available` must be None, must not overflow");
        }
        Ok(_) => assert_eq!(Page::SUM_MAX, u64::MAX),
    }
}

#[test]
fn is_valid_range_does_not_overflow_u64_max_limit() {
    match Page::is_valid_range(1, u64::MAX) {
        Err(RangeBoundsError { available, .. }) => {
            let limit = available.expect("`available can't be greater than Limit::MAX`");
            assert_eq!(limit.get(), Limit::MAX);
        }
        Ok(_) => assert_eq!(Page::SUM_MAX, u64::MAX),
    }
}

#[test]
fn page_urlencoded_serialization() {
    let page = Page::default();
    let offset = page.get_offset();
    let limit = page.get_limit();

    let encoded = UrlEncodedQuery::with(&page).unwrap().finish();

    assert_eq!(format!("offset={offset}&limit={limit}"), encoded);
}

#[test]
fn page_constants() {
    assert_eq!(Page::SUM_MAX, 9_999);
    assert_eq!(Page::RANGE_LIMIT, 10_000);
    assert_eq!(Page::default().get_offset(), 0);
    assert_eq!(Page::default().get_limit(), 100);
    assert_eq!(Results::default(), Results::All);
    assert_eq!(Pages::default(), Pages::All);
}

#[test]
fn new_round_trips_within_bounds() {
    for (offset, limit) in [(0, 1), (0, 100), (9_899, 100), (9_998, 1), (9_940, 59), (123, 45)] {
        let page = Page::new(offset, limit).expect("a window within the bounds");
        assert_eq!(page.get_offset(), offset);
        assert_eq!(page.get_limit(), limit);
    }
}

#[test]
fn new_refuses_limit_out_of_bounds_whatever_the_offset() {
    for offset in [0, 1, 9_998, 9_999, 10_000, u64::MAX] {
        assert_eq!(
            Page::new(offset, 0),
            Err(PaginationError::Limit(LimitBoundError::Min(LimitMinError(MinError))))
        );
        for limit in [101, 10_000, u64::MAX] {
            assert_eq!(
                Page::new(offset, limit),
                Err(PaginationError::Limit(LimitBoundError::Max(LimitMaxError(MaxError))))
            );
        }
    }
}

#[test]
fn new_reports_what_is_left_when_out_of_range() {
    for (offset, limit, left) in
        [(9_940u64, 60u64, 59u64), (9_998, 2, 1), (9_900, 100, 99), (9_950, 100, 49)]
    {
        match Page::new(offset, limit) {
            Err(PaginationError::Range(err)) => {
                assert_eq!(err.offset, offset);
                assert_eq!(err.limit, limit);
                assert_eq!(err.available().map(|limit| limit.get()), Some(left));
            }
            other => panic!("expected a range error, got {other:?}"),
        }
    }
    for (offset, limit) in [(9_999u64, 1u64), (10_000, 1), (u64::MAX, 100), (u64::MAX - 50, 100)] {
        match Page::new(offset, limit) {
            Err(PaginationError::Range(err)) => assert_eq!(err.available(), None),
            other => panic!("expected a range error, got {other:?}"),
        }
    }
}

#[test]
fn new_at_the_window_boundary() {
    let page = Page::new(9_940, 59).expect("sum of 9 999");
    assert_eq!((page.get_offset(), page.get_limit()), (9_940, 59));
    match Page::new(9_940, 60) {
        Err(PaginationError::Range(err)) => {
            assert_eq!(err.available, Some(Limit::new(59).unwrap()));
        }
        other => panic!("expected a range error, got {other:?}"),
    }
}

#[test]
fn with_offset_and_with_limit() {
    let page = Page::with_offset(9_899).expect("default limit fits");
    assert_eq!((page.get_offset(), page.get_limit()), (9_899, 100));
    let err = Page::with_offset(9_900).expect_err("default limit does not fit");
    assert_eq!((err.offset, err.limit), (9_900, 100));
    assert_eq!(err.available, Some(Limit::new(99).unwrap()));

    let page = Page::with_limit(7).expect("valid limit");
    assert_eq!((page.get_offset(), page.get_limit()), (0, 7));
    assert_eq!(
        Page::with_limit(0),
        Err(PaginationError::Limit(LimitBoundError::Min(LimitMinError(MinError))))
    );
    assert_eq!(
        Page::with_limit(101),
        Err(PaginationError::Limit(LimitBoundError::Max(LimitMaxError(MaxError))))
    );
}

#[test]
fn set_offset_moves_or_keeps() {
    let mut page = Page::new(10, 50).unwrap();
    assert_eq!(page.set_offset(9_949), Ok(()));
    assert_eq!((page.get_offset(), page.get_limit()), (9_949, 50));
    let err = page.set_offset(9_950).expect_err("window does not fit");
    assert_eq!((err.offset, err.limit), (9_950, 50));
    assert_eq!(err.available, Some(Limit::new(49).unwrap()));
    assert_eq!((page.get_offset(), page.get_limit()), (9_949, 50));
    assert!(page.set_offset(u64::MAX).is_err());
    assert_eq!((page.get_offset(), page.get_limit()), (9_949, 50));
}

#[test]
fn set_limit_checks_window_then_limit() {
    let mut page = Page::new(9_950, 10).unwrap();
    assert_eq!(page.set_limit(49), Ok(()));
    assert_eq!((page.get_offset(), page.get_limit()), (9_950, 49));
    match page.set_limit(50) {
        Err(PaginationError::Range(err)) => {
            assert_eq!((err.offset, err.limit), (9_950, 50));
            assert_eq!(err.available, Some(Limit::new(49).unwrap()));
        }
        other => panic!("expected a range error, got {other:?}"),
    }
    // too large for the window and no page size: the window is checked first
    assert!(matches!(page.set_limit(200), Err(PaginationError::Range(_))));
    assert!(matches!(page.set_limit(u64::MAX), Err(PaginationError::Range(_))));
    assert_eq!(
        page.set_limit(0),
        Err(PaginationError::Limit(LimitBoundError::Min(LimitMinError(MinError))))
    );
    assert_eq!((page.get_offset(), page.get_limit()), (9_950, 49));

    let mut head = Page::default();
    assert_eq!(
        head.set_limit(101),
        Err(PaginationError::Limit(LimitBoundError::Max(LimitMaxError(MaxError))))
    );
    assert_eq!(head.get_limit(), 100);
}

#[test]
fn next_page_keeps_limit_while_it_fits() {
    let mut page = Page::new(0, 100).unwrap();
    assert_eq!(page.next_page(100), Ok(()));
    assert_eq!((page.get_offset(), page.get_limit()), (100, 100));
    assert_eq!(page.next_page(9_899), Ok(()));
    assert_eq!((page.get_offset(), page.get_limit()), (9_899, 100));
}

#[test]
fn next_page_shrinks_limit_near_the_ceiling() {
    let mut page = Page::new(9_800, 100).unwrap();
    assert_eq!(page.next_page(9_900), Ok(()));
    assert_eq!((page.get_offset(), page.get_limit()), (9_900, 99));
    assert_eq!(page.next_page(9_990), Ok(()));
    assert_eq!((page.get_offset(), page.get_limit()), (9_990, 9));
    assert_eq!(page.next_page(9_998), Ok(()));
    assert_eq!((page.get_offset(), page.get_limit()), (9_998, 1));
}

#[test]
fn next_page_ends_at_the_ceiling() {
    for limit in [1, 2, 50, 100] {
        for next in [9_999, 10_000, u64::MAX] {
            let mut page = Page::new(0, limit).unwrap();
            let err = page.next_page(next).expect_err("no window is left");
            assert_eq!((err.offset, err.limit, err.available), (next, limit, None));
            assert_eq!((page.get_offset(), page.get_limit()), (0, limit));
        }
    }
}

#[test]
fn extreme_values_are_out_of_range() {
    assert!(Page::new(u64::MAX, u64::MAX).is_err());
    assert!(Page::new(u64::MAX, 1).is_err());
    assert!(Page::new(0, u64::MAX).is_err());
    assert!(Page::is_valid_range(u64::MAX, u64::MAX).is_err());
    assert!(Page::with_offset(u64::MAX).is_err());
}

#[test]
fn pagination_errors_convert_and_print() {
    let range = Page::is_valid_range(9_990, 20).expect_err("out of range");
    assert_eq!(
        range.to_string(),
        "`offset` and `limit` sum must be lower or equal to 9999, but provided: offset=9990 and limit=20"
    );
    assert_eq!(PaginationError::from(range), PaginationError::Range(range));
    assert_eq!(PaginationError::from(range).to_string(), range.to_string());
    let limit = LimitBoundError::Max(LimitMaxError(MaxError));
    assert_eq!(PaginationError::from(limit), PaginationError::Limit(limit));
    assert_eq!(
        PaginationError::from(limit).to_string(),
        "`limit` must be lower or equal to 100"
    );
}

struct Holder(Page);

impl Paged for Holder {
    fn get_page(&self) -> &Page {
        &self.0
    }

    fn get_page_mut(&mut self) -> &mut Page {
        &mut self.0
    }
}

#[test]
fn holder_of_a_page_is_paged() {
    let mut holder = Holder(Page::new(0, 50).unwrap());
    assert_eq!((holder.get_offset(), holder.get_limit()), (0, 50));
    assert_eq!(holder.set_limit(18), Ok(()));
    assert_eq!(holder.next_page(50), Ok(()));
    assert_eq!((holder.get_offset(), holder.get_limit()), (50, 18));
    assert!(holder.next_page(9_999).is_err());
    assert_eq!((holder.0.get_offset(), holder.0.get_limit()), (50, 18));
}

#[test]
fn check_boundaries_checks_limit_then_window() {
    assert_eq!(Page::check_boundaries(0, 100), Ok(()));
    assert_eq!(Page::check_boundaries(9_940, 59), Ok(()));
    assert!(matches!(Page::check_boundaries(9_940, 60), Err(PaginationError::Range(_))));
    assert!(matches!(Page::check_boundaries(u64::MAX, 0), Err(PaginationError::Limit(_))));
    assert!(matches!(Page::check_boundaries(u64::MAX, 101), Err(PaginationError::Limit(_))));
    assert_eq!(Page::is_valid_limit(1), Ok(()));
    assert_eq!(Page::is_valid_limit(100), Ok(()));
    assert_eq!(Page::is_valid_limit(0).map_err(|err| err.limit), Err(0));
    assert_eq!(Page::is_valid_limit(101).map_err(|err| err.limit), Err(101));
}
