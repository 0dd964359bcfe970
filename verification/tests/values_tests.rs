use adesh_aot::values::{
    aot_type_to_cranelift, is_numeric_type, native_width, same_type, unify_array_elem_types, unify_two_types,
    AotValueType, ClifType,
};

#[test]
fn element_type_names() {
    assert_eq!(AotValueType::SetOf(Box::new(AotValueType::I32), 3).element_type_name(), "set");
    assert_eq!(AotValueType::Tuple(vec![]).element_type_name(), "tuple");
    assert_eq!(AotValueType::RawArray(Box::new(AotValueType::U8), 2).element_type_name(), "array");
    assert_eq!(AotValueType::U128.element_type_name(), "u128");
    assert_eq!(AotValueType::Float.element_type_name(), "number");
    assert_eq!(AotValueType::String.element_type_name(), "string");
    assert_eq!(AotValueType::Handle.element_type_name(), "number");
}

#[test]
fn metadata_sizes() {
    assert_eq!(AotValueType::U8.metadata_size(), 16);
    assert_eq!(AotValueType::Char.metadata_size(), 16);
    assert_eq!(AotValueType::F32.metadata_size(), 16);
    assert_eq!(AotValueType::I64.metadata_size(), 24);
    assert_eq!(AotValueType::String.metadata_size(), 24);
}

#[test]
fn native_widths() {
    assert_eq!(native_width(Some(&AotValueType::U16)), Some((16, false)));
    assert_eq!(native_width(Some(&AotValueType::I8)), Some((8, true)));
    assert_eq!(native_width(Some(&AotValueType::Int)), Some((64, true)));
    assert_eq!(native_width(Some(&AotValueType::U128)), None);
    assert_eq!(native_width(None), None);
}

#[test]
fn numeric_types_and_lanes() {
    assert!(is_numeric_type(&AotValueType::Float));
    assert!(is_numeric_type(&AotValueType::I128));
    assert!(!is_numeric_type(&AotValueType::Bool));
    assert_eq!(aot_type_to_cranelift(&AotValueType::Bool), ClifType::I8);
    assert_eq!(aot_type_to_cranelift(&AotValueType::Float), ClifType::F64);
    assert_eq!(aot_type_to_cranelift(&AotValueType::U128), ClifType::I128);
    assert_eq!(aot_type_to_cranelift(&AotValueType::Ptr), ClifType::I64);
}

#[test]
fn structural_equality() {
    let a = AotValueType::Tuple(vec![AotValueType::I32, AotValueType::Array(Box::new(AotValueType::U8), 4)]);
    let b = AotValueType::Tuple(vec![AotValueType::I32, AotValueType::Array(Box::new(AotValueType::U8), 4)]);
    let c = AotValueType::Tuple(vec![AotValueType::I32, AotValueType::Array(Box::new(AotValueType::U8), 5)]);
    assert!(same_type(&a, &b));
    assert!(!same_type(&a, &c));
    assert!(same_type(&a, &a.duplicate()));
}

#[test]
fn unification() {
    assert!(same_type(&unify_two_types(&AotValueType::I64, &AotValueType::I64), &AotValueType::I64));
    assert!(same_type(&unify_two_types(&AotValueType::I64, &AotValueType::F64), &AotValueType::Handle));
    assert!(same_type(&unify_array_elem_types(&[]), &AotValueType::Int));
    let same = [AotValueType::Bool, AotValueType::Bool, AotValueType::Bool];
    assert!(same_type(&unify_array_elem_types(&same), &AotValueType::Bool));
    let mixed = [AotValueType::Bool, AotValueType::Bool, AotValueType::String];
    assert!(same_type(&unify_array_elem_types(&mixed), &AotValueType::Handle));
    let back = [AotValueType::String, AotValueType::Bool, AotValueType::String];
    assert!(same_type(&unify_array_elem_types(&back), &AotValueType::Handle));
}
