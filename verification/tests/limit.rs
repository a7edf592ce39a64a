use scholars::v1::pagination::parameter::constrained::{MaxError, MinError};
use scholars::v1::pagination::parameter::limit::{
    Limit, LimitBoundError, LimitBoundsError, LimitMaxError, LimitMinError,
};

fn in_range_values() -> Vec<u64> {
    vec![Limit::MAX, Limit::MIN, (Limit::MAX.saturating_add(Limit::MIN)) / 2]
}

fn out_of_range_values() -> Vec<u64> {
    let mut values = Vec::with_capacity(2);

    if Limit::MIN > u64::MIN {
        let lower = Limit::MIN.checked_sub(1).expect("Limit::MIN greater than 0");
        values.push(lower);
    }

    if Limit::MAX < u64::MAX {
        let greater = Limit::MAX.checked_add(1).expect("Limit::MAX lower than u64::MAX");
        values.push(greater);
    }

    values
}

fn available_in_range_values() -> Vec<u64> {
    let mut values = vec![];

    if Limit::MAX > Limit::MIN {
        values.push(Limit::MAX);
    }

    if Limit::MIN < u64::MAX {
        let greater_than_min = Limit::MIN.checked_add(1).expect("Limit::MIN lower than u64::MAX");
        values.push(greater_than_min);
    }

    values
}

fn available_lower_equal_to_min() -> Vec<u64> {
    let mut values = vec![Limit::MIN];

    if Limit::MIN > u64::MIN {
        let lower_than_min = Limit::MIN.checked_sub(1).expect("Limit::MIN greater than 0");
        values.push(lower_than_min);
    }

    values
}

#[test]
fn is_valid_limit_succeeds_greater_or_equal_to_min() {
    let mut limits = vec![Limit::MIN];

    if Limit::MIN < u64::MAX {
        limits.push(Limit::MIN.checked_add(1).unwrap());
    }

    for limit in limits {
        match Limit::is_valid_limit(limit) {
            Ok(_) => (),
            Err(_) => {
                panic!("must succeed if provided `limit` is greater or equal to Limit::MIN")
            }
        }
    }
}

#[test]
fn is_valid_limit_fails_lower_than_min() {
    if Limit::MIN > 0 {
        let lower = Limit::MIN.checked_sub(1).unwrap();

        match Limit::is_valid_limit(lower) {
            Err(LimitBoundsError { limit }) => assert_eq!(limit, lower),
            Ok(_) => {
                panic!("must fail if provided `limit` is lower than Limit::MIN")
            }
        }
    }
}

#[test]
fn is_valid_limit_succeeds_lower_or_equal_to_max() {
    let mut limits = vec![Limit::MAX];

    if Limit::MAX > 0 {
        limits.push(Limit::MAX.checked_sub(1).unwrap());
    }

    for limit in limits {
        match Limit::is_valid_limit(limit) {
            Ok(_) => (),
            Err(_) => {
                panic!("must succeed if provided `limit` is lower or equal to Limit::MAX")
            }
        }
    }
}

#[test]
fn is_valid_limit_fails_greater_than_max() {
    if Limit::MAX < u64::MAX {
        let greater = Limit::MAX.checked_add(1).unwrap();

        match Limit::is_valid_limit(greater) {
            Err(LimitBoundsError { limit }) => assert_eq!(limit, greater),
            Ok(_) => {
                panic!("must fail if provided `limit` is greater than Limit::MAX")
            }
        }
    }
}

#[test]
fn limit_new_assigns_to_wrapped_value() {
    for value in in_range_values() {
        let limit = Limit::new(value).expect("valid limit input");
        assert_eq!(value, limit.get());
    }
}

#[test]
fn new_fails_out_of_range_input() {
    for value in out_of_range_values() {
        match Limit::new(value) {
            Err(_) => (),
            Ok(_) => panic!("new must fail if limit is out of valid range"),
        }
    }
}

#[test]
fn limit_set_changes_wrapped_value() {
    for value in in_range_values() {
        let mut limit = Limit::default();
        limit.set(value).expect("valid limit input");
        assert_eq!(value, limit.get());
    }
}

#[test]
fn set_fails_out_of_range_input() {
    let mut limit = Limit::default();
    for value in out_of_range_values() {
        match limit.set(value) {
            Err(_) => (),
            Ok(_) => panic!("set must fail if limit is out of valid range"),
        }
    }
}

#[test]
fn limit_get_returns_wrapped_value() {
    for value in in_range_values() {
        let limit = Limit::new(value).expect("valid limit input");
        assert_eq!(value, limit.get());
    }
}

#[test]
fn available_in_range_succeeds() {
    for value in available_in_range_values() {
        match Limit::available(value) {
            Some(limit) => assert_eq!(limit.get(), value),
            None => panic!("must succeed and return a Some"),
        }
    }
}

#[test]
fn available_lower_or_equal_to_min_fails() {
    for value in available_lower_equal_to_min() {
        match Limit::available(value) {
            None => (),
            Some(_) => panic!("must fail and return a None"),
        }
    }
}

#[test]
fn available_greater_than_max_returns_max() {
    if Limit::MAX < u64::MAX {
        let greater = Limit::MAX.checked_add(1).expect("Limit::MAX lower than u64::MAX");
        match Limit::available(greater) {
            Some(limit) => assert_eq!(limit.get(), Limit::MAX),
            None => panic!("must succeed and return a Some"),
        }
    }
}

#[test]
fn check_limit_min_err_display() {
    if Limit::MIN > 0 {
        let lower = Limit::MIN.checked_sub(1).expect("Limit::MIN greater than 0");
        let limit = Limit::new(lower);

        match limit {
            Err(err @ LimitBoundError::Min(LimitMinError(MinError))) => {
                assert_eq!(
                    format!("`limit` must be greater or equal to {}", Limit::MIN),
                    err.to_string()
                )
            }
            _ => panic!("must fail if lower than Limit::MIN"),
        }
    }
}

#[test]
fn check_limit_max_err_display() {
    if Limit::MAX < u64::MAX {
        let greater = Limit::MAX.checked_add(1).expect("Limit::MAX lower than u64::MAX");
        let limit = Limit::new(greater);

        match limit {
            Err(err @ LimitBoundError::Max(LimitMaxError(MaxError))) => {
                assert_eq!(
                    format!("`limit` must be lower or equal to {}", Limit::MAX),
                    err.to_string()
                )
            }
            _ => panic!("must fail if greater than Limit::MAX"),
        }
    }
}

#[test]
fn limit_bounds_are_those_of_the_service() {
    assert_eq!(Limit::MIN, 1);
    assert_eq!(Limit::MAX, 100);
    assert_eq!(Limit::DEF, 100);
    assert_eq!(Limit::default().get(), 100);
}

#[test]
fn limit_set_keeps_value_when_refused() {
    let mut limit = Limit::new(42).expect("valid limit input");
    assert_eq!(limit.set(0), Err(LimitBoundError::Min(LimitMinError(MinError))));
    assert_eq!(limit.get(), 42);
    assert_eq!(limit.set(101), Err(LimitBoundError::Max(LimitMaxError(MaxError))));
    assert_eq!(limit.get(), 42);
}

#[test]
fn limit_errors_convert() {
    assert_eq!(LimitMinError::from(MinError::<1>), LimitMinError(MinError));
    assert_eq!(LimitMaxError::from(MaxError::<100>), LimitMaxError(MaxError));
    assert_eq!(
        LimitBoundError::from(LimitMinError(MinError)),
        LimitBoundError::Min(LimitMinError(MinError))
    );
    assert_eq!(
        LimitBoundError::from(LimitMaxError(MaxError)),
        LimitBoundError::Max(LimitMaxError(MaxError))
    );
    assert_eq!(LimitMinError(MinError).to_string(), "`limit` must be greater or equal to 1");
    assert_eq!(LimitMaxError(MaxError).to_string(), "`limit` must be lower or equal to 100");
}

#[test]
fn limit_bounds_error_names_the_limit() {
    let err = Limit::is_valid_limit(250).expect_err("limit above the maximum");
    assert_eq!(
        err.to_string(),
        "`limit` must be greater than 1 and lower or equal to 100, but provided: 250"
    );
}
