use function_points::WeightingFactors;

#[test]
fn weighting_factors_should_create() {
    let rlf = [4, 5, 6];
    let eq = [7, 8, 9];
    let eo = [10, 11, 12];
    let ei = [13, 14, 15];

    let mut wf = WeightingFactors::new();

    wf.set_referenced_logical_file(rlf)
        .set_external_query(eq)
        .set_external_output(eo)
        .set_external_input(ei);

    assert_eq!(wf.referenced_logical_file(), &rlf);
    assert_eq!(wf.external_query(), &eq);
    assert_eq!(wf.external_output(), &eo);
    assert_eq!(wf.external_input(), &ei);
}

#[test]
fn weighting_factors_start_at_zero() {
    let wf = WeightingFactors::new();

    assert_eq!(wf.referenced_logical_file(), &[0, 0, 0]);
    assert_eq!(wf.external_query(), &[0, 0, 0]);
    assert_eq!(wf.external_output(), &[0, 0, 0]);
    assert_eq!(wf.external_input(), &[0, 0, 0]);
}

#[test]
fn default_weights_are_zero() {
    let wf = WeightingFactors::default();

    assert_eq!(wf.referenced_logical_file(), &[0, 0, 0]);
    assert_eq!(wf.external_input(), &[0, 0, 0]);
}
