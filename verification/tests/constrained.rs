use scholars::v1::pagination::parameter::constrained::{
    ConstrainedU64, MaxError, MinError, RangeBoundError,
};

const DEF: u64 = 2;

type DefaultMin = ConstrainedU64<1, 3, DEF>;
type Full = ConstrainedU64<0, { u64::MAX }, 0>;
type AboveZero = ConstrainedU64<1, { u64::MAX }, 1>;
type BelowMax = ConstrainedU64<0, { u64::MAX - 1 }, 0>;
type Inner = ConstrainedU64<1, { u64::MAX - 1 }, 1>;

#[test]
fn default_returns_def_value() {
    assert_eq!(DefaultMin::default().get(), DEF);
    assert_eq!(DefaultMin::default_value(), DEF);
}

#[test]
fn is_valid_succeeds_if_greater_or_equal_to_min() {
    let inputs = [Full::min_value(), Full::min_value() + 1];

    for input in inputs {
        match Full::is_valid(input) {
            Ok(_) => (),
            Err(_) => {
                panic!("must succeed if greater or equal to ConstrainedU64::MIN")
            }
        }
    }
}

#[test]
fn is_valid_fails_if_lower_than_min() {
    let input = AboveZero::min_value() - 1;

    match AboveZero::is_valid(input) {
        Err(err @ RangeBoundError::Min(MinError)) => {
            assert_eq!(
                format!("must be greater or equal to {}", AboveZero::min_value()),
                err.to_string()
            );
        }
        _ => panic!("must fail if lower than ConstrainedU64::MIN"),
    }
}

#[test]
fn is_valid_succeeds_if_lower_or_equal_to_max() {
    let inputs = [Full::max_value(), Full::max_value() - 1];

    for input in inputs {
        match Full::is_valid(input) {
            Ok(_) => (),
            Err(_) => {
                panic!("must succeed if lower or equal to ConstrainedU64::MAX")
            }
        }
    }
}

#[test]
fn is_valid_fails_if_greater_than_max() {
    let input = BelowMax::max_value() + 1;

    match BelowMax::is_valid(input) {
        Err(err @ RangeBoundError::Max(MaxError)) => {
            assert_eq!(
                format!("must be lower or equal to {}", BelowMax::max_value()),
                err.to_string()
            );
        }
        _ => panic!("must fail if greater than ConstrainedU64::MAX"),
    }
}

#[test]
fn new_succeeds_with_valid_input() {
    let inputs = [Full::min_value(), Full::max_value()];

    for input in inputs {
        let constrained = Full::new(input).expect("valid input");
        assert_eq!(input, constrained.get())
    }
}

#[test]
fn new_fails_with_invalid_input() {
    let inputs = [Inner::min_value() - 1, Inner::max_value() + 1];

    for input in inputs {
        match Inner::new(input) {
            Err(_) => (),
            Ok(_) => panic!("new must fail with out of range input"),
        }
    }
}

#[test]
fn set_succeeds_with_valid_input() {
    let inputs = [Full::min_value(), Full::max_value()];
    let mut test = Full::default();

    for input in inputs {
        match test.set(input) {
            Ok(_) => {
                assert_eq!(input, test.get(), "must have the same value as valid input")
            }
            Err(_) => panic!("set must succeed with valid input"),
        }
    }
}

#[test]
fn set_fails_with_invalid_input() {
    let inputs = [Inner::min_value() - 1, Inner::max_value() + 1];
    let mut test = Inner::default();

    for input in inputs {
        match test.set(input) {
            Err(_) => (),
            Ok(_) => panic!("set must fail with invalid input"),
        }
    }
}

#[test]
fn set_keeps_value_on_invalid_input() {
    let mut test = Inner::new(7).expect("valid input");
    assert_eq!(test.set(0), Err(RangeBoundError::Min(MinError)));
    assert_eq!(test.get(), 7);
    assert_eq!(test.set(u64::MAX), Err(RangeBoundError::Max(MaxError)));
    assert_eq!(test.get(), 7);
}

#[test]
fn constrained_get_returns_wrapped_value() {
    let inputs = [Full::min_value(), Full::max_value()];

    for input in inputs {
        let mut constrained = Full::default();
        constrained.set(input).expect("valid input");
        assert_eq!(input, constrained.get());
    }
}

#[test]
fn available_succeeds_saturating_add_on_max() {
    let input = u64::MAX;

    match BelowMax::available(input) {
        Some(value) => {
            assert_eq!(value.get(), BelowMax::max_value(), "must be equal to Constrained::MAX value")
        }
        None => panic!("must succeed and return a Some"),
    }
}

#[test]
fn available_succeeds_greater_than_min_lower_or_equal_to_max() {
    let inputs = [Full::max_value(), Full::max_value() - 1, Full::min_value() + 1];

    for input in inputs {
        match Full::available(input) {
            Some(value) => {
                assert_eq!(value.get(), input, "must have same value as valid input")
            }
            None => panic!("must succeed and return a Some"),
        }
    }
}

#[test]
fn available_fails_lower_or_equal_to_min() {
    let inputs = [AboveZero::min_value(), AboveZero::min_value() - 1];

    for input in inputs {
        match AboveZero::available(input) {
            None => (),
            Some(_) => panic!("must fail and return a None"),
        }
    }
}

#[test]
fn new_infallible_succeeds_valid_input() {
    let inputs = [Full::min_value(), Full::max_value()];

    for input in inputs {
        let constrained = Full::new_infallible(input);
        assert_eq!(input, constrained.get())
    }
}

#[test]
fn set_infallible_succeeds_valid_input() {
    let inputs = [Full::min_value(), Full::max_value()];
    let mut constrained = Full::default();

    for input in inputs {
        constrained.set_infallible(input);
        assert_eq!(input, constrained.get())
    }
}

#[test]
fn bounds_are_those_of_the_type() {
    assert_eq!(DefaultMin::min_value(), 1);
    assert_eq!(DefaultMin::max_value(), 3);
    assert_eq!(Full::max_value(), u64::MAX);
}

#[test]
fn range_errors_name_their_bound() {
    assert_eq!(MinError::<5>.to_string(), "must be greater or equal to 5");
    assert_eq!(MaxError::<100>.to_string(), "must be lower or equal to 100");
    assert_eq!(
        RangeBoundError::<5, 18446744073709551615>::Max(MaxError).to_string(),
        "must be lower or equal to 18446744073709551615"
    );
}
