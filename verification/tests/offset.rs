use scholars::v1::pagination::parameter::offset::Offset;

fn in_range_offset() -> Vec<u64> {
    vec![Offset::MAX, Offset::MIN, (Offset::MAX.saturating_add(Offset::MIN)) / 2]
}

#[test]
fn offset_new_assigns_to_wrapped_value() {
    for value in in_range_offset() {
        let offset = Offset::new(value);
        assert_eq!(value, offset.get());
    }
}

#[test]
fn offset_set_changes_wrapped_value() {
    for value in in_range_offset() {
        let mut offset = Offset::default();
        offset.set(value);
        assert_eq!(value, offset.get());
    }
}

#[test]
fn offset_get_returns_wrapped_value() {
    for value in in_range_offset() {
        let offset = Offset::new(value);
        assert_eq!(value, offset.get());
    }
}

#[test]
fn offset_bounds_span_u64() {
    assert_eq!(Offset::MIN, 0);
    assert_eq!(Offset::MAX, u64::MAX);
    assert_eq!(Offset::DEF, 0);
    assert_eq!(Offset::default().get(), 0);
}
