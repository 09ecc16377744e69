use wasm_wrapper_gen::error::MacroError;
use wasm_wrapper_gen::export::{
    expand_argument_into, generate_function_wrapper, return_handling, setup_for_argument,
    RawParameter, RawType, ReturnHandling, SetupKind, WrittenReturnType,
};
use wasm_wrapper_gen::naming::ConstructedArgIdent;
use wasm_wrapper_gen::processing::JsFnInfo;
use wasm_wrapper_gen::types::{SupportedArgumentType, SupportedCopyTy, SupportedRetType};

fn rendered(params: &Vec<RawParameter>) -> Vec<(String, RawType)> {
    params.iter().map(|p| (p.name.to_text(), p.ty)).collect()
}

#[test]
fn a_scalar_is_one_raw_parameter() {
    let mut params = Vec::new();
    let name = ConstructedArgIdent::new("__arg", 0);
    let ty = SupportedArgumentType::Integer(SupportedCopyTy::I16);
    assert_eq!(expand_argument_into(&name, &ty, &mut params), Ok(()));
    assert_eq!(rendered(&params), vec![("__arg0".to_string(), RawType::Scalar(SupportedCopyTy::I16))]);
}

#[test]
fn a_buffer_is_a_pointer_and_an_element_count() {
    let mut params = Vec::new();
    let name = ConstructedArgIdent::new("__arg", 1);
    let ty = SupportedArgumentType::IntegerSliceRef(SupportedCopyTy::U32);
    assert_eq!(expand_argument_into(&name, &ty, &mut params), Ok(()));
    let ty = SupportedArgumentType::IntegerSliceMutRef(SupportedCopyTy::U8);
    assert_eq!(expand_argument_into(&ConstructedArgIdent::new("__arg", 2), &ty, &mut params), Ok(()));
    let ty = SupportedArgumentType::IntegerVec(SupportedCopyTy::F64);
    assert_eq!(expand_argument_into(&ConstructedArgIdent::new("__arg", 3), &ty, &mut params), Ok(()));
    assert_eq!(
        rendered(&params),
        vec![
            ("__arg1_ptr".to_string(), RawType::ConstPointer(SupportedCopyTy::U32)),
            ("__arg1_len".to_string(), RawType::Length),
            ("__arg2_ptr".to_string(), RawType::MutPointer(SupportedCopyTy::U8)),
            ("__arg2_len".to_string(), RawType::Length),
            ("__arg3_ptr".to_string(), RawType::MutPointer(SupportedCopyTy::F64)),
            ("__arg3_len".to_string(), RawType::Length),
        ]
    );
}

#[test]
fn what_the_exported_function_returns() {
    assert_eq!(WrittenReturnType::new(&SupportedRetType::Unit), Ok(WrittenReturnType::Nothing));
    assert_eq!(
        WrittenReturnType::new(&SupportedRetType::Integer(SupportedCopyTy::Bool)),
        Ok(WrittenReturnType::Scalar(SupportedCopyTy::Bool))
    );
    assert_eq!(
        WrittenReturnType::new(&SupportedRetType::IntegerVec(SupportedCopyTy::U8)),
        Ok(WrittenReturnType::RecordPointer)
    );
    assert_eq!(return_handling(&SupportedRetType::Unit), Ok(ReturnHandling::PassThrough));
    assert_eq!(
        return_handling(&SupportedRetType::Integer(SupportedCopyTy::F32)),
        Ok(ReturnHandling::PassThrough)
    );
    assert_eq!(
        return_handling(&SupportedRetType::IntegerVec(SupportedCopyTy::F32)),
        Ok(ReturnHandling::BoxedRecord(SupportedCopyTy::F32))
    );
}

#[test]
fn how_an_argument_is_made_from_its_raw_parameters() {
    let name = ConstructedArgIdent::new("__arg", 4);
    let setup = setup_for_argument(&name, &SupportedArgumentType::IntegerVec(SupportedCopyTy::I32))
        .unwrap()
        .unwrap();
    assert_eq!(setup.kind, SetupKind::Vector);
    assert_eq!(setup.element, SupportedCopyTy::I32);
    assert_eq!(setup.target.to_text(), "__arg4");
    assert_eq!(setup.ptr.to_text(), "__arg4_ptr");
    assert_eq!(setup.len.to_text(), "__arg4_len");
    let setup =
        setup_for_argument(&name, &SupportedArgumentType::IntegerSliceRef(SupportedCopyTy::U8))
            .unwrap()
            .unwrap();
    assert_eq!(setup.kind, SetupKind::Slice);
    let setup =
        setup_for_argument(&name, &SupportedArgumentType::IntegerSliceMutRef(SupportedCopyTy::U8))
            .unwrap()
            .unwrap();
    assert_eq!(setup.kind, SetupKind::SliceMut);
    assert!(setup_for_argument(&name, &SupportedArgumentType::Integer(SupportedCopyTy::U8))
        .unwrap()
        .is_none());
}

#[test]
fn the_exported_function_for_a_signature() {
    let info = JsFnInfo {
        rust_name: "fill".to_string(),
        args_ty: vec![
            SupportedArgumentType::IntegerSliceMutRef(SupportedCopyTy::U16),
            SupportedArgumentType::Integer(SupportedCopyTy::U16),
        ],
        ret_ty: SupportedRetType::IntegerVec(SupportedCopyTy::U16),
    };
    let wrapper = generate_function_wrapper(&info).unwrap();
    assert_eq!(wrapper.name, "__js_fn_fill");
    assert_eq!(
        rendered(&wrapper.parameters),
        vec![
            ("__arg0_ptr".to_string(), RawType::MutPointer(SupportedCopyTy::U16)),
            ("__arg0_len".to_string(), RawType::Length),
            ("__arg1".to_string(), RawType::Scalar(SupportedCopyTy::U16)),
        ]
    );
    let arguments: Vec<String> = wrapper.arguments.iter().map(|a| a.to_text()).collect();
    assert_eq!(arguments, vec!["__arg0".to_string(), "__arg1".to_string()]);
    assert_eq!(wrapper.setups.len(), 1);
    assert_eq!(wrapper.setups[0].target.to_text(), "__arg0");
    assert_eq!(wrapper.setups[0].kind, SetupKind::SliceMut);
    assert_eq!(wrapper.result, SupportedRetType::IntegerVec(SupportedCopyTy::U16));
    assert_eq!(wrapper.written_return, WrittenReturnType::RecordPointer);
    assert_eq!(wrapper.handling, ReturnHandling::BoxedRecord(SupportedCopyTy::U16));
}

#[test]
fn no_two_raw_parameters_share_a_name() {
    let info = JsFnInfo {
        rust_name: "many".to_string(),
        args_ty: (0..12)
            .map(|i| {
                if i % 2 == 0 {
                    SupportedArgumentType::IntegerSliceRef(SupportedCopyTy::U8)
                } else {
                    SupportedArgumentType::Integer(SupportedCopyTy::U8)
                }
            })
            .collect(),
        ret_ty: SupportedRetType::Unit,
    };
    let wrapper = generate_function_wrapper(&info).unwrap();
    let names: Vec<String> = wrapper.parameters.iter().map(|p| p.name.to_text()).collect();
    assert_eq!(names.len(), 18);
    for i in 0..names.len() {
        for j in 0..i {
            assert_ne!(names[i], names[j]);
        }
    }
}

#[test]
fn strings_have_no_raw_form() {
    let name = ConstructedArgIdent::new("__arg", 0);
    let mut params = Vec::new();
    assert!(matches!(
        expand_argument_into(&name, &SupportedArgumentType::OwnedString, &mut params),
        Err(MacroError::UnhandledArgumentType { .. })
    ));
    assert!(params.is_empty());
    assert!(matches!(
        setup_for_argument(&name, &SupportedArgumentType::OwnedString),
        Err(MacroError::UnhandledArgumentType { .. })
    ));
    assert!(matches!(
        WrittenReturnType::new(&SupportedRetType::OwnedString),
        Err(MacroError::UnhandledRetType { .. })
    ));
    assert!(matches!(
        return_handling(&SupportedRetType::OwnedString),
        Err(MacroError::UnhandledRetType { .. })
    ));
    let info = JsFnInfo {
        rust_name: "greet".to_string(),
        args_ty: vec![SupportedArgumentType::OwnedString],
        ret_ty: SupportedRetType::Unit,
    };
    assert!(matches!(
        generate_function_wrapper(&info),
        Err(MacroError::UnhandledArgumentType { .. })
    ));
}
