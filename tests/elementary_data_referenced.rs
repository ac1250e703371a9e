use function_points::ElementaryDataReferenced;

#[test]
fn elementary_data_referenced_should_create() {
    let i = 10;
    let o = 20;

    let edr = ElementaryDataReferenced::new(i, o);

    assert_eq!(*edr.input(), i);
    assert_eq!(*edr.output(), o);
}

#[test]
fn elementary_data_referenced_should_calculate_total() {
    let edr = ElementaryDataReferenced::new(10, 20);

    assert_eq!(edr.total(), 30);
}

#[test]
fn elementary_data_total_does_not_wrap() {
    let edr = ElementaryDataReferenced::new(u32::MAX, u32::MAX);

    assert_eq!(edr.total(), 2 * u32::MAX as u64);
}
