use function_points::{
    BasicFunctionalComponent, Complexity, ElementaryDataReferenced, FileRegistry,
    FunctionalClassification,
};

#[test]
fn should_return_logic_files_complexity_correctly() {
    let mut bf = BasicFunctionalComponent::new("Foo BFC", FunctionalClassification::InternalLogicalFile);

    let scenarios = vec![
        (
            ElementaryDataReferenced::new(2, 3),
            FileRegistry::new(1, 0),
            Complexity::Simple,
        ),
        (
            ElementaryDataReferenced::new(20, 20),
            FileRegistry::new(1, 0),
            Complexity::Simple,
        ),
        (
            ElementaryDataReferenced::new(50, 20),
            FileRegistry::new(1, 0),
            Complexity::Middle,
        ),
        (
            ElementaryDataReferenced::new(10, 5),
            FileRegistry::new(2, 2),
            Complexity::Simple,
        ),
        (
            ElementaryDataReferenced::new(30, 5),
            FileRegistry::new(2, 2),
            Complexity::Middle,
        ),
        (
            ElementaryDataReferenced::new(30, 30),
            FileRegistry::new(2, 2),
            Complexity::Complex,
        ),
        (
            ElementaryDataReferenced::new(5, 13),
            FileRegistry::new(4, 2),
            Complexity::Middle,
        ),
        (
            ElementaryDataReferenced::new(20, 13),
            FileRegistry::new(4, 2),
            Complexity::Complex,
        ),
        (
            ElementaryDataReferenced::new(30, 23),
            FileRegistry::new(4, 2),
            Complexity::Complex,
        ),
    ];

    for (edr, fr, complexity) in scenarios {
        bf.set_edr(edr).set_file_registry(fr);

        assert_eq!(bf.complexity(), &complexity);
    }
}

#[test]
fn should_return_external_input_complexity_correctly() {
    let mut bf = BasicFunctionalComponent::new("Foo BFC", FunctionalClassification::ExternalInput);

    let scenarios = vec![
        (
            ElementaryDataReferenced::new(1, 3),
            FileRegistry::new(1, 0),
            Complexity::Simple,
        ),
        (
            ElementaryDataReferenced::new(5, 7),
            FileRegistry::new(1, 0),
            Complexity::Simple,
        ),
        (
            ElementaryDataReferenced::new(10, 20),
            FileRegistry::new(1, 0),
            Complexity::Middle,
        ),
        (
            ElementaryDataReferenced::new(1, 2),
            FileRegistry::new(1, 1),
            Complexity::Simple,
        ),
        (
            ElementaryDataReferenced::new(7, 5),
            FileRegistry::new(1, 1),
            Complexity::Middle,
        ),
        (
            ElementaryDataReferenced::new(16, 5),
            FileRegistry::new(1, 1),
            Complexity::Complex,
        ),
        (
            ElementaryDataReferenced::new(1, 3),
            FileRegistry::new(4, 1),
            Complexity::Middle,
        ),
        (
            ElementaryDataReferenced::new(5, 13),
            FileRegistry::new(4, 1),
            Complexity::Complex,
        ),
        (
            ElementaryDataReferenced::new(15, 6),
            FileRegistry::new(4, 1),
            Complexity::Complex,
        ),
    ];

    for (edr, fr, complexity) in scenarios {
        bf.set_edr(edr).set_file_registry(fr);

        assert_eq!(bf.complexity(), &complexity);
    }
}

#[test]
fn should_return_external_query_complexity_correctly() {
    let mut bf = BasicFunctionalComponent::new("Foo BFC", FunctionalClassification::ExternalQuery);

    let scenarios = vec![
        (
            ElementaryDataReferenced::new(1, 3),
            FileRegistry::new(0, 1),
            Complexity::Simple,
        ),
        (
            ElementaryDataReferenced::new(5, 7),
            FileRegistry::new(1, 0),
            Complexity::Simple,
        ),
        (
            ElementaryDataReferenced::new(10, 20),
            FileRegistry::new(0, 1),
            Complexity::Middle,
        ),
        (
            ElementaryDataReferenced::new(1, 4),
            FileRegistry::new(1, 2),
            Complexity::Simple,
        ),
        (
            ElementaryDataReferenced::new(10, 5),
            FileRegistry::new(2, 1),
            Complexity::Middle,
        ),
        (
            ElementaryDataReferenced::new(20, 5),
            FileRegistry::new(1, 2),
            Complexity::Complex,
        ),
        (
            ElementaryDataReferenced::new(4, 1),
            FileRegistry::new(4, 0),
            Complexity::Middle,
        ),
        (
            ElementaryDataReferenced::new(10, 9),
            FileRegistry::new(0, 4),
            Complexity::Complex,
        ),
        (
            ElementaryDataReferenced::new(20, 12),
            FileRegistry::new(5, 2),
            Complexity::Complex,
        ),
    ];

    for (edr, fr, complexity) in scenarios {
        bf.set_edr(edr).set_file_registry(fr);

        assert_eq!(bf.complexity(), &complexity);
    }
}

#[test]
fn should_return_external_output_complexity_correctly() {
    let mut bf = BasicFunctionalComponent::new("Foo BFC", FunctionalClassification::ExternalOutput);

    let scenarios = vec![
        (
            ElementaryDataReferenced::new(1, 3),
            FileRegistry::new(0, 1),
            Complexity::Simple,
        ),
        (
            ElementaryDataReferenced::new(5, 7),
            FileRegistry::new(0, 1),
            Complexity::Simple,
        ),
        (
            ElementaryDataReferenced::new(10, 20),
            FileRegistry::new(0, 1),
            Complexity::Middle,
        ),
        (
            ElementaryDataReferenced::new(1, 4),
            FileRegistry::new(0, 2),
            Complexity::Simple,
        ),
        // output channel: 2 files, 5 elements; input channel: 0 files, 10 elements
        (
            ElementaryDataReferenced::new(10, 5),
            FileRegistry::new(0, 2),
            Complexity::Simple,
        ),
        // output channel: 2 files, 5 elements; input channel: 0 files, 20 elements
        (
            ElementaryDataReferenced::new(20, 5),
            FileRegistry::new(0, 2),
            Complexity::Middle,
        ),
        (
            ElementaryDataReferenced::new(4, 1),
            FileRegistry::new(0, 4),
            Complexity::Middle,
        ),
        (
            ElementaryDataReferenced::new(10, 9),
            FileRegistry::new(0, 4),
            Complexity::Complex,
        ),
        (
            ElementaryDataReferenced::new(20, 12),
            FileRegistry::new(0, 4),
            Complexity::Complex,
        ),
    ];

    for (edr, fr, complexity) in scenarios {
        bf.set_edr(edr).set_file_registry(fr);

        assert_eq!(&complexity, bf.complexity());
    }
}

fn classify(
    fc: FunctionalClassification,
    edr: ElementaryDataReferenced,
    fr: FileRegistry,
) -> Complexity {
    let mut bf = BasicFunctionalComponent::new("Probe", fc);
    bf.set_edr(edr).set_file_registry(fr);
    *bf.complexity()
}

#[test]
fn internal_logical_file_table_edge_at_fifty() {
    let fc = FunctionalClassification::InternalLogicalFile;
    assert_eq!(
        classify(fc, ElementaryDataReferenced::new(50, 0), FileRegistry::new(1, 0)),
        Complexity::Simple
    );
    assert_eq!(
        classify(fc, ElementaryDataReferenced::new(51, 0), FileRegistry::new(1, 0)),
        Complexity::Middle
    );
    assert_eq!(
        classify(fc, ElementaryDataReferenced::new(30, 21), FileRegistry::new(0, 1)),
        Complexity::Middle
    );
}

#[test]
fn external_interface_file_uses_the_file_table() {
    let fc = FunctionalClassification::ExternalInterfaceFile;
    assert_eq!(
        classify(fc, ElementaryDataReferenced::new(0, 6), FileRegistry::new(1, 0)),
        Complexity::Simple
    );
    assert_eq!(
        classify(fc, ElementaryDataReferenced::new(0, 19), FileRegistry::new(3, 3)),
        Complexity::Middle
    );
    assert_eq!(
        classify(fc, ElementaryDataReferenced::new(0, 20), FileRegistry::new(3, 3)),
        Complexity::Complex
    );
}

#[test]
fn file_kinds_with_no_record_type_read_the_first_row() {
    let fc = FunctionalClassification::InternalLogicalFile;
    assert_eq!(
        classify(fc, ElementaryDataReferenced::new(0, 0), FileRegistry::new(0, 0)),
        Complexity::Simple
    );
    assert_eq!(
        classify(fc, ElementaryDataReferenced::new(20, 0), FileRegistry::new(0, 0)),
        Complexity::Simple
    );
    assert_eq!(
        classify(fc, ElementaryDataReferenced::new(51, 0), FileRegistry::new(0, 0)),
        Complexity::Middle
    );
    let fresh = BasicFunctionalComponent::new("Fresh", FunctionalClassification::ExternalInterfaceFile);
    assert_eq!(fresh.complexity(), &Complexity::Simple);
}

#[test]
fn zero_data_elements_are_simple() {
    assert_eq!(
        classify(
            FunctionalClassification::InternalLogicalFile,
            ElementaryDataReferenced::new(0, 0),
            FileRegistry::new(3, 0)
        ),
        Complexity::Simple
    );
    assert_eq!(
        classify(
            FunctionalClassification::ExternalInput,
            ElementaryDataReferenced::new(0, 0),
            FileRegistry::new(2, 0)
        ),
        Complexity::Simple
    );
    assert_eq!(
        classify(
            FunctionalClassification::ExternalQuery,
            ElementaryDataReferenced::new(0, 0),
            FileRegistry::new(3, 0)
        ),
        Complexity::Simple
    );
}

#[test]
fn external_input_and_query_edges() {
    let ei = FunctionalClassification::ExternalInput;
    assert_eq!(
        classify(ei, ElementaryDataReferenced::new(15, 0), FileRegistry::new(1, 0)),
        Complexity::Simple
    );
    assert_eq!(
        classify(ei, ElementaryDataReferenced::new(16, 0), FileRegistry::new(1, 0)),
        Complexity::Middle
    );
    assert_eq!(
        classify(ei, ElementaryDataReferenced::new(4, 0), FileRegistry::new(3, 0)),
        Complexity::Middle
    );
    let eq = FunctionalClassification::ExternalQuery;
    assert_eq!(
        classify(eq, ElementaryDataReferenced::new(19, 0), FileRegistry::new(1, 0)),
        Complexity::Simple
    );
    assert_eq!(
        classify(eq, ElementaryDataReferenced::new(20, 0), FileRegistry::new(1, 0)),
        Complexity::Middle
    );
    assert_eq!(
        classify(eq, ElementaryDataReferenced::new(6, 0), FileRegistry::new(3, 0)),
        Complexity::Middle
    );
    assert_eq!(
        classify(eq, ElementaryDataReferenced::new(6, 0), FileRegistry::new(4, 0)),
        Complexity::Complex
    );
}

#[test]
fn external_output_takes_the_greater_channel() {
    let eo = FunctionalClassification::ExternalOutput;
    // output channel: 3 files, 20 elements -> Complex; input channel: 1 file, 2 elements -> Simple
    assert_eq!(
        classify(eo, ElementaryDataReferenced::new(2, 20), FileRegistry::new(1, 3)),
        Complexity::Complex
    );
    // input channel alone decides: 2 files, 16 elements -> Complex
    assert_eq!(
        classify(eo, ElementaryDataReferenced::new(16, 0), FileRegistry::new(2, 0)),
        Complexity::Complex
    );
    // combined totals (4 files, 20 elements) would give Complex; each channel is Simple
    assert_eq!(
        classify(eo, ElementaryDataReferenced::new(15, 5), FileRegistry::new(1, 3)),
        Complexity::Simple
    );
}

#[test]
fn setting_counts_keeps_name_and_kind() {
    let mut bf = BasicFunctionalComponent::new("Orders", FunctionalClassification::ExternalQuery);
    assert_eq!(bf.complexity(), &Complexity::Simple);
    bf.set_edr(ElementaryDataReferenced::new(3, 4)).set_file_registry(FileRegistry::new(2, 3));

    assert_eq!(bf.name(), "Orders");
    assert_eq!(bf.functional_classification(), &FunctionalClassification::ExternalQuery);
    assert_eq!(bf.elementary_data_referenced(), &ElementaryDataReferenced::new(3, 4));
    assert_eq!(bf.file_record(), &FileRegistry::new(2, 3));
    assert_eq!(bf.complexity(), &Complexity::Complex);
}

#[test]
fn complexity_levels_are_ordered() {
    assert_eq!(Complexity::Simple.level(), 0);
    assert_eq!(Complexity::Middle.level(), 1);
    assert_eq!(Complexity::Complex.level(), 2);
}

#[test]
fn complexity_levels_compare_in_order() {
    assert!(Complexity::Simple < Complexity::Middle);
    assert!(Complexity::Middle < Complexity::Complex);
    assert!(Complexity::Complex > Complexity::Simple);
    assert!(Complexity::Middle >= Complexity::Middle);
}

#[test]
fn complexity_grows_with_counts() {
    let kinds = [
        FunctionalClassification::InternalLogicalFile,
        FunctionalClassification::ExternalInterfaceFile,
        FunctionalClassification::ExternalInput,
        FunctionalClassification::ExternalQuery,
    ];
    for fc in kinds {
        for files in 0..9u32 {
            for elements in 0..60u32 {
                let here = classify(fc, ElementaryDataReferenced::new(elements, 0), FileRegistry::new(files, 0));
                let more_elements =
                    classify(fc, ElementaryDataReferenced::new(elements + 1, 0), FileRegistry::new(files, 0));
                let more_files =
                    classify(fc, ElementaryDataReferenced::new(elements, 0), FileRegistry::new(files + 1, 0));
                assert!(here.level() <= more_elements.level());
                assert!(here.level() <= more_files.level());
            }
        }
    }
    let eo = FunctionalClassification::ExternalOutput;
    for files in 0..6u32 {
        for elements in 0..25u32 {
            let here = classify(eo, ElementaryDataReferenced::new(elements, elements), FileRegistry::new(files, files));
            let more_in = classify(eo, ElementaryDataReferenced::new(elements + 1, elements), FileRegistry::new(files + 1, files));
            let more_out = classify(eo, ElementaryDataReferenced::new(elements, elements + 1), FileRegistry::new(files, files + 1));
            assert!(here.level() <= more_in.level());
            assert!(here.level() <= more_out.level());
        }
    }
}
