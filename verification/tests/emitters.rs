use wasm_wrapper_gen::error::MacroError;
use wasm_wrapper_gen::generation::access::{
    javascript_typed_array_for_int, js_get_ith_ty_at, js_set_ith_ty_at, typed_view,
};
use wasm_wrapper_gen::generation::argument::{
    deallocate_argument_allocation, prepare_argument_allocation,
    propogate_argument_changes_outwards, reconstruct_typed_array_if_memory_changed,
    validate_argument,
};
use wasm_wrapper_gen::generation::returned::{
    copy_array_out, dealloc_three_usize_array, deallocate_return_allocation,
    read_return_value_copy_into, read_three_usize_array,
};
use wasm_wrapper_gen::indented_write::IdentedWriter;
use wasm_wrapper_gen::style::{AccessStyle, Config};
use wasm_wrapper_gen::types::{SupportedArgumentType, SupportedCopyTy, SupportedRetType};

fn config(style: AccessStyle, indent: u32) -> Config {
    let mut config = Config::new();
    config.with_array_access_style(style).with_indent(indent);
    config
}

fn writer() -> IdentedWriter {
    IdentedWriter::new(String::new(), 0)
}

#[test]
fn typed_arrays_by_element_type() {
    assert_eq!(javascript_typed_array_for_int(SupportedCopyTy::U8), "Uint8Array");
    assert_eq!(javascript_typed_array_for_int(SupportedCopyTy::U16), "Uint16Array");
    assert_eq!(javascript_typed_array_for_int(SupportedCopyTy::U32), "Uint32Array");
    assert_eq!(javascript_typed_array_for_int(SupportedCopyTy::USize), "Uint32Array");
    assert_eq!(javascript_typed_array_for_int(SupportedCopyTy::I8), "Int8Array");
    assert_eq!(javascript_typed_array_for_int(SupportedCopyTy::I16), "Int16Array");
    assert_eq!(javascript_typed_array_for_int(SupportedCopyTy::I32), "Int32Array");
    assert_eq!(javascript_typed_array_for_int(SupportedCopyTy::ISize), "Int32Array");
    assert_eq!(javascript_typed_array_for_int(SupportedCopyTy::F32), "Float32Array");
    assert_eq!(javascript_typed_array_for_int(SupportedCopyTy::F64), "Float64Array");
    assert_eq!(javascript_typed_array_for_int(SupportedCopyTy::Bool), "Uint8Array");
}

#[test]
fn a_typed_array_is_made_over_a_count_of_elements() {
    assert_eq!(
        typed_view(SupportedCopyTy::U32, "arg0_ptr", "arg0_len"),
        "new Uint32Array(this._mem.buffer, arg0_ptr, arg0_len)"
    );
    assert_eq!(
        typed_view(SupportedCopyTy::Bool, "p", "3"),
        "new Uint8Array(this._mem.buffer, p, 3)"
    );
}

#[test]
fn an_element_is_stored_at_pointer_plus_width_times_index() {
    let mut buf = writer();
    js_set_ith_ty_at(&mut buf, "this._mem", SupportedCopyTy::F64, "p", "i", "v[i]");
    assert_eq!(buf.into_inner(), "this._mem.setFloat64(p + 8 * i, v[i], true);\n");
    let mut buf = writer();
    js_set_ith_ty_at(&mut buf, "view", SupportedCopyTy::I16, "a_ptr", "a_i", "a[a_i]");
    assert_eq!(buf.into_inner(), "view.setInt16(a_ptr + 2 * a_i, a[a_i], true);\n");
    let mut buf = writer();
    js_set_ith_ty_at(&mut buf, "m", SupportedCopyTy::USize, "p", "i", "x");
    assert_eq!(buf.into_inner(), "m.setUint32(p + 4 * i, x, true);\n");
}

#[test]
fn a_boolean_is_stored_as_one() {
    let mut buf = writer();
    js_set_ith_ty_at(&mut buf, "this._mem", SupportedCopyTy::Bool, "p", "i", "v[i]");
    assert_eq!(buf.into_inner(), "this._mem.setUint8(p + 1 * i, Boolean(v[i]), true);\n");
}

#[test]
fn an_element_is_loaded_from_pointer_plus_width_times_index() {
    let mut buf = writer();
    js_get_ith_ty_at(&mut buf, "this._mem", SupportedCopyTy::I32, "p", "i");
    assert_eq!(buf.into_inner(), "this._mem.getInt32(p + 4 * i, true)");
    let mut buf = writer();
    js_get_ith_ty_at(&mut buf, "this._mem", SupportedCopyTy::F32, "p", "i");
    assert_eq!(buf.into_inner(), "this._mem.getFloat32(p + 4 * i, true)");
    let mut buf = writer();
    js_get_ith_ty_at(&mut buf, "this._mem", SupportedCopyTy::U16, "p", "i");
    assert_eq!(buf.into_inner(), "this._mem.getUint16(p + 2 * i, true)");
}

#[test]
fn a_boolean_is_loaded_as_one() {
    let mut buf = writer();
    js_get_ith_ty_at(&mut buf, "this._mem", SupportedCopyTy::Bool, "p", "i");
    assert_eq!(buf.into_inner(), "Boolean(this._mem.getUint8(p + 1 * i, true))");
}

#[test]
fn a_buffer_is_validated_for_being_there() {
    for ty in [
        SupportedArgumentType::IntegerSliceRef(SupportedCopyTy::U8),
        SupportedArgumentType::IntegerSliceMutRef(SupportedCopyTy::U8),
        SupportedArgumentType::IntegerVec(SupportedCopyTy::U8),
    ] {
        let mut buf = writer();
        let done = validate_argument(
            &config(AccessStyle::DataView, 4),
            &mut buf,
            "arg0",
            ty,
            "throw new Error();",
        );
        assert_eq!(done, Ok(()));
        assert_eq!(
            buf.into_inner(),
            "if (arg0 == null || isNaN(arg0.length)) {\n    throw new Error();\n}\n"
        );
    }
}

#[test]
fn a_number_is_validated_for_being_one() {
    let mut buf = writer();
    let done = validate_argument(
        &config(AccessStyle::TypedArrays, 2),
        &mut buf,
        "arg3",
        SupportedArgumentType::Integer(SupportedCopyTy::F32),
        "return;",
    );
    assert_eq!(done, Ok(()));
    assert_eq!(buf.into_inner(), "if (isNaN(arg3)) {\n  return;\n}\n");
}

#[test]
fn a_buffer_is_allocated_and_filled_through_a_typed_array() {
    let mut buf = writer();
    let done = prepare_argument_allocation(
        &config(AccessStyle::TypedArrays, 4),
        &mut buf,
        "arg0",
        SupportedArgumentType::IntegerSliceRef(SupportedCopyTy::U32),
    );
    assert_eq!(done, Ok(()));
    assert_eq!(
        buf.into_inner(),
        "let arg0_len = arg0.length;\n\
         let arg0_byte_len = arg0_len * 4;\n\
         let arg0_ptr = this._alloc(arg0_byte_len);\n\
         let arg0_view = new Uint32Array(this._mem.buffer, arg0_ptr, arg0_len);\n\
         arg0_view.set(arg0);\n"
    );
}

#[test]
fn a_buffer_is_allocated_and_filled_element_by_element() {
    let mut buf = writer();
    let done = prepare_argument_allocation(
        &config(AccessStyle::DataView, 4),
        &mut buf,
        "arg1",
        SupportedArgumentType::IntegerVec(SupportedCopyTy::I16),
    );
    assert_eq!(done, Ok(()));
    assert_eq!(
        buf.into_inner(),
        "let arg1_len = arg1.length;\n\
         let arg1_byte_len = arg1_len * 2;\n\
         let arg1_ptr = this._alloc(arg1_byte_len);\n\
         this._check_mem_realloc();\n\
         for (var arg1_i = 0; arg1_i < arg1_len; arg1_i++) {\n    \
         this._mem.setInt16(arg1_ptr + 2 * arg1_i, arg1[arg1_i], true);\n\
         }\n"
    );
}

#[test]
fn nothing_is_allocated_for_a_number() {
    for style in [AccessStyle::DataView, AccessStyle::TypedArrays] {
        let mut buf = writer();
        let ty = SupportedArgumentType::Integer(SupportedCopyTy::U32);
        assert_eq!(prepare_argument_allocation(&config(style, 4), &mut buf, "arg0", ty), Ok(()));
        assert_eq!(
            propogate_argument_changes_outwards(&config(style, 4), &mut buf, "arg0", ty),
            Ok(())
        );
        assert_eq!(deallocate_argument_allocation(&config(style, 4), &mut buf, "arg0", ty), Ok(()));
        assert_eq!(buf.into_inner(), "");
    }
}

#[test]
fn every_buffer_is_freed_by_its_byte_length() {
    for ty in [
        SupportedArgumentType::IntegerSliceRef(SupportedCopyTy::U32),
        SupportedArgumentType::IntegerSliceMutRef(SupportedCopyTy::U32),
        SupportedArgumentType::IntegerVec(SupportedCopyTy::U32),
    ] {
        let mut buf = writer();
        let done =
            deallocate_argument_allocation(&config(AccessStyle::DataView, 4), &mut buf, "arg2", ty);
        assert_eq!(done, Ok(()));
        assert_eq!(buf.into_inner(), "this._dealloc(arg2_ptr, arg2_byte_len);\n");
    }
}

#[test]
fn a_stale_typed_array_is_made_anew() {
    let mut buf = writer();
    reconstruct_typed_array_if_memory_changed(
        &config(AccessStyle::TypedArrays, 4),
        &mut buf,
        "arg0_view",
        "arg0_ptr",
        "arg0_byte_len",
        SupportedCopyTy::I8,
    );
    assert_eq!(
        buf.into_inner(),
        "if (arg0_view.buffer.byteLength != this._mem.buffer.byteLength) {\n    \
         arg0_view = new Int8Array(this._mem.buffer, arg0_ptr, arg0_byte_len);\n\
         }\n"
    );
}

#[test]
fn a_mutable_slice_is_copied_back_through_its_typed_array() {
    let mut buf = writer();
    let done = propogate_argument_changes_outwards(
        &config(AccessStyle::TypedArrays, 4),
        &mut buf,
        "arg0",
        SupportedArgumentType::IntegerSliceMutRef(SupportedCopyTy::U8),
    );
    assert_eq!(done, Ok(()));
    assert_eq!(
        buf.into_inner(),
        "if (arg0_view.buffer.byteLength != this._mem.buffer.byteLength) {\n    \
         arg0_view = new Uint8Array(this._mem.buffer, arg0_ptr, arg0_byte_len);\n\
         }\n\
         if (typeof arg0.set == 'function') {    arg0.set(arg0_view);\n\
         } else {    for (var arg0_i = 0; arg0_i < arg0_len; arg0_i++) {\n        \
         arg0[arg0_i] = arg0_view[arg0_i];\n    \
         }\n\
         }\n"
    );
}

#[test]
fn booleans_are_copied_back_as_booleans() {
    let mut buf = writer();
    let done = propogate_argument_changes_outwards(
        &config(AccessStyle::TypedArrays, 2),
        &mut buf,
        "arg0",
        SupportedArgumentType::IntegerSliceMutRef(SupportedCopyTy::Bool),
    );
    assert_eq!(done, Ok(()));
    let text = buf.into_inner();
    assert!(text.contains("    arg0[arg0_i] = Boolean(arg0_view[arg0_i]);\n"));
    assert!(text.contains("if (typeof arg0.set == 'function') {  arg0.set(arg0_view);\n"));

    let mut buf = writer();
    let done = propogate_argument_changes_outwards(
        &config(AccessStyle::DataView, 2),
        &mut buf,
        "arg0",
        SupportedArgumentType::IntegerSliceMutRef(SupportedCopyTy::Bool),
    );
    assert_eq!(done, Ok(()));
    assert_eq!(
        buf.into_inner(),
        "for (var arg0_i = 0; arg0_i < arg0_len; arg0_i++) {\n  \
         arg0[arg0_i] = Boolean(this._mem.getUint8(arg0_ptr + 1 * arg0_i, true));\n\
         }\n"
    );
}

#[test]
fn a_mutable_slice_is_copied_back_element_by_element() {
    let mut buf = writer();
    let done = propogate_argument_changes_outwards(
        &config(AccessStyle::DataView, 4),
        &mut buf,
        "arg0",
        SupportedArgumentType::IntegerSliceMutRef(SupportedCopyTy::U8),
    );
    assert_eq!(done, Ok(()));
    assert_eq!(
        buf.into_inner(),
        "for (var arg0_i = 0; arg0_i < arg0_len; arg0_i++) {\n    \
         arg0[arg0_i] = this._mem.getUint8(arg0_ptr + 1 * arg0_i, true);\n\
         }\n"
    );
}

#[test]
fn only_mutable_slices_are_copied_back() {
    for style in [AccessStyle::DataView, AccessStyle::TypedArrays] {
        for ty in [
            SupportedArgumentType::IntegerSliceRef(SupportedCopyTy::U8),
            SupportedArgumentType::IntegerVec(SupportedCopyTy::U8),
        ] {
            let mut buf = writer();
            assert_eq!(
                propogate_argument_changes_outwards(&config(style, 4), &mut buf, "arg0", ty),
                Ok(())
            );
            assert_eq!(buf.into_inner(), "");
        }
    }
}

#[test]
fn the_record_is_read_word_by_word() {
    let mut buf = writer();
    read_three_usize_array(
        &config(AccessStyle::TypedArrays, 4),
        &mut buf,
        "result",
        "result_temp",
        "return_ptr",
        "return_len",
        "return_cap",
    );
    assert_eq!(
        buf.into_inner(),
        "let result_temp_view = new Uint32Array(this._mem.buffer, result, 3);\n\
         let return_ptr = result_temp_view[0];\n\
         let return_len = result_temp_view[1];\n\
         let return_cap = result_temp_view[2];\n"
    );
    let mut buf = writer();
    read_three_usize_array(
        &config(AccessStyle::DataView, 4),
        &mut buf,
        "result",
        "result_temp",
        "return_ptr",
        "return_len",
        "return_cap",
    );
    assert_eq!(
        buf.into_inner(),
        "\nlet return_ptr = this._mem.getUint32(result, true);\n\
         let return_len = this._mem.getUint32(result + 4, true);\n\
         let return_cap = this._mem.getUint32(result + 8, true);\n"
    );
}

#[test]
fn the_record_has_twelve_bytes() {
    let mut buf = writer();
    dealloc_three_usize_array(&config(AccessStyle::DataView, 4), &mut buf, "result");
    assert_eq!(buf.into_inner(), "this._dealloc(result, 12);\n");
}

#[test]
fn a_returned_vector_is_copied_as_a_whole() {
    let mut buf = writer();
    copy_array_out(
        &config(AccessStyle::TypedArrays, 4),
        &mut buf,
        "return_ptr",
        "return_len",
        "return_byte_len",
        "return_tmp",
        "return_value",
        SupportedCopyTy::F64,
    );
    assert_eq!(
        buf.into_inner(),
        "let return_value = Float64Array.from(new Float64Array(this._mem.buffer, return_ptr, return_len));\n"
    );
}

#[test]
fn returned_booleans_are_made_one_by_one() {
    let mut buf = writer();
    copy_array_out(
        &config(AccessStyle::TypedArrays, 4),
        &mut buf,
        "return_ptr",
        "return_len",
        "return_byte_len",
        "return_tmp",
        "return_value",
        SupportedCopyTy::Bool,
    );
    assert_eq!(
        buf.into_inner(),
        "let return_tmp_view = new Uint8Array(this._mem.buffer, return_ptr, return_byte_len);\n\
         let return_value = [];\n\
         for (var return_tmp_i = 0; return_tmp_i < return_len; return_tmp_i++) {\n    \
         return_value.push(Boolean(return_tmp_view[return_tmp_i]));\n\
         }\n"
    );
}

#[test]
fn the_length_in_bytes_counts_no_elements() {
    for (style, ty) in [
        (AccessStyle::TypedArrays, SupportedCopyTy::F64),
        (AccessStyle::TypedArrays, SupportedCopyTy::U8),
        (AccessStyle::DataView, SupportedCopyTy::F64),
        (AccessStyle::DataView, SupportedCopyTy::U8),
        (AccessStyle::DataView, SupportedCopyTy::Bool),
    ] {
        let mut buf = writer();
        copy_array_out(&config(style, 4), &mut buf, "p", "n", "bn", "t", "r", ty);
        assert!(!buf.into_inner().contains("bn"));
    }
}

#[test]
fn the_view_over_booleans_spans_their_bytes_and_the_loop_their_count() {
    let mut buf = writer();
    copy_array_out(
        &config(AccessStyle::TypedArrays, 4),
        &mut buf,
        "p",
        "n",
        "bn",
        "t",
        "r",
        SupportedCopyTy::Bool,
    );
    assert_eq!(
        buf.into_inner(),
        "let t_view = new Uint8Array(this._mem.buffer, p, bn);\n\
         let r = [];\n\
         for (var t_i = 0; t_i < n; t_i++) {\n    \
         r.push(Boolean(t_view[t_i]));\n\
         }\n"
    );
}

#[test]
fn a_view_is_renewed_over_bytes_or_elements_by_the_width() {
    for (ty, array, count) in [
        (SupportedCopyTy::U8, "Uint8Array", "arg0_byte_len"),
        (SupportedCopyTy::I8, "Int8Array", "arg0_byte_len"),
        (SupportedCopyTy::Bool, "Uint8Array", "arg0_byte_len"),
        (SupportedCopyTy::U16, "Uint16Array", "arg0_len"),
        (SupportedCopyTy::I32, "Int32Array", "arg0_len"),
        (SupportedCopyTy::USize, "Uint32Array", "arg0_len"),
        (SupportedCopyTy::F64, "Float64Array", "arg0_len"),
    ] {
        let mut buf = writer();
        let done = propogate_argument_changes_outwards(
            &config(AccessStyle::TypedArrays, 4),
            &mut buf,
            "arg0",
            SupportedArgumentType::IntegerSliceMutRef(ty),
        );
        assert_eq!(done, Ok(()));
        let text = buf.into_inner();
        assert!(text.starts_with(&format!(
            "if (arg0_view.buffer.byteLength != this._mem.buffer.byteLength) {{\n    \
             arg0_view = new {}(this._mem.buffer, arg0_ptr, {});\n}}\n",
            array, count
        )));
    }
}

#[test]
fn a_returned_vector_is_read_element_by_element() {
    let mut buf = writer();
    copy_array_out(
        &config(AccessStyle::DataView, 4),
        &mut buf,
        "return_ptr",
        "return_len",
        "return_byte_len",
        "return_tmp",
        "return_value",
        SupportedCopyTy::I32,
    );
    assert_eq!(
        buf.into_inner(),
        "let return_value = [];\n\
         for (var return_tmp_i = 0; return_tmp_i < return_len; return_tmp_i++) {\n    \
         return_value.push(this._mem.getInt32(return_ptr + 4 * return_tmp_i, true));\n\
         }\n"
    );
}

#[test]
fn a_number_is_returned_as_it_is() {
    for ty in [SupportedRetType::Unit, SupportedRetType::Integer(SupportedCopyTy::I32)] {
        let mut buf = writer();
        let done = read_return_value_copy_into(
            &config(AccessStyle::DataView, 4),
            &mut buf,
            &ty,
            "result",
            "return_value",
        );
        assert_eq!(done, Ok(()));
        assert_eq!(buf.into_inner(), "let return_value = result;\n");
    }
}

#[test]
fn a_boolean_is_returned_as_one() {
    let mut buf = writer();
    let done = read_return_value_copy_into(
        &config(AccessStyle::DataView, 4),
        &mut buf,
        &SupportedRetType::Integer(SupportedCopyTy::Bool),
        "result",
        "return_value",
    );
    assert_eq!(done, Ok(()));
    assert_eq!(buf.into_inner(), "let return_value = Boolean(result);\n");
}

#[test]
fn a_returned_vector_is_decoded_from_its_record() {
    let mut buf = writer();
    let done = read_return_value_copy_into(
        &config(AccessStyle::TypedArrays, 4),
        &mut buf,
        &SupportedRetType::IntegerVec(SupportedCopyTy::F64),
        "result",
        "return_value",
    );
    assert_eq!(done, Ok(()));
    assert_eq!(
        buf.into_inner(),
        "let result_temp_view = new Uint32Array(this._mem.buffer, result, 3);\n\
         let return_ptr = result_temp_view[0];\n\
         let return_len = result_temp_view[1];\n\
         let return_cap = result_temp_view[2];\n\
         let return_byte_len = return_len * 8;\n\
         let return_byte_cap = return_cap * 8;\n\
         let return_value = Float64Array.from(new Float64Array(this._mem.buffer, return_ptr, return_len));\n"
    );
}

#[test]
fn a_returned_vector_is_freed_by_its_capacity_and_its_record_too() {
    let mut buf = writer();
    let done = deallocate_return_allocation(
        &config(AccessStyle::DataView, 4),
        &mut buf,
        "result",
        &SupportedRetType::IntegerVec(SupportedCopyTy::U16),
    );
    assert_eq!(done, Ok(()));
    assert_eq!(
        buf.into_inner(),
        "this._dealloc(return_ptr, return_byte_cap);\nthis._dealloc(result, 12);\n"
    );
}

#[test]
fn other_results_hold_nothing_to_free() {
    for ty in [SupportedRetType::Unit, SupportedRetType::Integer(SupportedCopyTy::U8)] {
        let mut buf = writer();
        let done =
            deallocate_return_allocation(&config(AccessStyle::DataView, 4), &mut buf, "result", &ty);
        assert_eq!(done, Ok(()));
        assert_eq!(buf.into_inner(), "");
    }
}

#[test]
fn a_string_argument_is_refused_and_nothing_is_written() {
    let cfg = config(AccessStyle::DataView, 4);
    let ty = SupportedArgumentType::OwnedString;
    let mut buf = writer();
    assert!(matches!(
        validate_argument(&cfg, &mut buf, "arg0", ty, "throw new Error();"),
        Err(MacroError::UnhandledArgumentType { .. })
    ));
    assert!(matches!(
        prepare_argument_allocation(&cfg, &mut buf, "arg0", ty),
        Err(MacroError::UnhandledArgumentType { .. })
    ));
    assert!(matches!(
        propogate_argument_changes_outwards(&cfg, &mut buf, "arg0", ty),
        Err(MacroError::UnhandledArgumentType { .. })
    ));
    assert!(matches!(
        deallocate_argument_allocation(&cfg, &mut buf, "arg0", ty),
        Err(MacroError::UnhandledArgumentType { .. })
    ));
    assert_eq!(buf.into_inner(), "");
}

#[test]
fn a_string_result_is_refused_and_nothing_is_written() {
    let cfg = config(AccessStyle::TypedArrays, 4);
    let ty = SupportedRetType::OwnedString;
    let mut buf = writer();
    assert!(matches!(
        read_return_value_copy_into(&cfg, &mut buf, &ty, "result", "return_value"),
        Err(MacroError::UnhandledRetType { .. })
    ));
    assert!(matches!(
        deallocate_return_allocation(&cfg, &mut buf, "result", &ty),
        Err(MacroError::UnhandledRetType { .. })
    ));
    assert_eq!(buf.into_inner(), "");
}
