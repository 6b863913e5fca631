use exponent_lint::semantic::SemanticModel;

#[test]
fn reference_without_a_binding_is_free() {
    let model = SemanticModel::new();
    assert_eq!(model.binding(0), None);
    assert_eq!(model.binding(17), None);
}

#[test]
fn bound_reference_resolves_to_its_declaration() {
    let mut model = SemanticModel::new();
    model.bind(4, 1);
    model.bind(9, 2);
    assert_eq!(model.binding(4), Some(1));
    assert_eq!(model.binding(9), Some(2));
    assert_eq!(model.binding(1), None);
}

#[test]
fn later_binding_of_a_reference_replaces_the_earlier() {
    let mut model = SemanticModel::new();
    model.bind(4, 1);
    model.bind(4, 3);
    assert_eq!(model.binding(4), Some(3));
}
