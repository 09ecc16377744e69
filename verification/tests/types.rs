use wasm_wrapper_gen::types::SupportedCopyTy;

fn all_types() -> Vec<SupportedCopyTy> {
    vec![
        SupportedCopyTy::U8,
        SupportedCopyTy::U16,
        SupportedCopyTy::U32,
        SupportedCopyTy::USize,
        SupportedCopyTy::I8,
        SupportedCopyTy::I16,
        SupportedCopyTy::I32,
        SupportedCopyTy::ISize,
        SupportedCopyTy::F32,
        SupportedCopyTy::F64,
        SupportedCopyTy::Bool,
    ]
}

#[test]
fn every_element_type_has_its_fixed_width() {
    assert_eq!(SupportedCopyTy::U8.size_in_bytes(), 1);
    assert_eq!(SupportedCopyTy::I8.size_in_bytes(), 1);
    assert_eq!(SupportedCopyTy::Bool.size_in_bytes(), 1);
    assert_eq!(SupportedCopyTy::U16.size_in_bytes(), 2);
    assert_eq!(SupportedCopyTy::I16.size_in_bytes(), 2);
    assert_eq!(SupportedCopyTy::U32.size_in_bytes(), 4);
    assert_eq!(SupportedCopyTy::I32.size_in_bytes(), 4);
    assert_eq!(SupportedCopyTy::F32.size_in_bytes(), 4);
    assert_eq!(SupportedCopyTy::F64.size_in_bytes(), 8);
}

#[test]
fn a_machine_word_of_the_module_has_four_bytes() {
    assert_eq!(SupportedCopyTy::USize.size_in_bytes(), 4);
    assert_eq!(SupportedCopyTy::ISize.size_in_bytes(), 4);
}

#[test]
fn the_width_does_not_change_between_calls() {
    for ty in all_types() {
        assert_eq!(ty.size_in_bytes(), ty.size_in_bytes());
        assert!(matches!(ty.size_in_bytes(), 1 | 2 | 4 | 8));
    }
}

#[test]
fn element_types_are_recognised_by_name() {
    assert_eq!(SupportedCopyTy::new("u8"), Some(SupportedCopyTy::U8));
    assert_eq!(SupportedCopyTy::new("u16"), Some(SupportedCopyTy::U16));
    assert_eq!(SupportedCopyTy::new("u32"), Some(SupportedCopyTy::U32));
    assert_eq!(SupportedCopyTy::new("usize"), Some(SupportedCopyTy::USize));
    assert_eq!(SupportedCopyTy::new("i8"), Some(SupportedCopyTy::I8));
    assert_eq!(SupportedCopyTy::new("i16"), Some(SupportedCopyTy::I16));
    assert_eq!(SupportedCopyTy::new("i32"), Some(SupportedCopyTy::I32));
    assert_eq!(SupportedCopyTy::new("isize"), Some(SupportedCopyTy::ISize));
    assert_eq!(SupportedCopyTy::new("f32"), Some(SupportedCopyTy::F32));
    assert_eq!(SupportedCopyTy::new("f64"), Some(SupportedCopyTy::F64));
    assert_eq!(SupportedCopyTy::new("bool"), Some(SupportedCopyTy::Bool));
}

#[test]
fn other_names_are_no_element_types() {
    assert_eq!(SupportedCopyTy::new("u64"), None);
    assert_eq!(SupportedCopyTy::new("i64"), None);
    assert_eq!(SupportedCopyTy::new("U8"), None);
    assert_eq!(SupportedCopyTy::new(""), None);
    assert_eq!(SupportedCopyTy::new("u8 "), None);
    assert_eq!(SupportedCopyTy::new("char"), None);
}

#[test]
fn a_type_is_recognised_by_the_name_it_is_written_with() {
    for ty in all_types() {
        assert_eq!(SupportedCopyTy::new(ty.as_str()), Some(ty));
    }
    assert_eq!(SupportedCopyTy::USize.as_str(), "usize");
    assert_eq!(SupportedCopyTy::F64.as_str(), "f64");
}
