use wasm_wrapper_gen::error::MacroError;
use wasm_wrapper_gen::generation::generate_javascript;
use wasm_wrapper_gen::generation::method::write_method;
use wasm_wrapper_gen::generation::stats::FuncStats;
use wasm_wrapper_gen::indented_write::IdentedWriter;
use wasm_wrapper_gen::processing::JsFnInfo;
use wasm_wrapper_gen::style::{AccessStyle, Config};
use wasm_wrapper_gen::syntax::{
    DeclaredType, FnArg, FnDecl, FunctionRetTy, Item, ItemKind, PathParameters, PathSegment,
};
use wasm_wrapper_gen::translate::translate_source;
use wasm_wrapper_gen::types::{SupportedArgumentType, SupportedCopyTy, SupportedRetType};

fn config(style: AccessStyle) -> Config {
    let mut config = Config::new();
    config.with_array_access_style(style);
    config
}

fn sum() -> JsFnInfo {
    JsFnInfo {
        rust_name: "sum".to_string(),
        args_ty: vec![SupportedArgumentType::IntegerSliceRef(SupportedCopyTy::U32)],
        ret_ty: SupportedRetType::Integer(SupportedCopyTy::I32),
    }
}

fn product_in_place() -> JsFnInfo {
    JsFnInfo {
        rust_name: "product_in_place".to_string(),
        args_ty: vec![SupportedArgumentType::IntegerSliceMutRef(SupportedCopyTy::U8)],
        ret_ty: SupportedRetType::Unit,
    }
}

fn all() -> JsFnInfo {
    JsFnInfo {
        rust_name: "all".to_string(),
        args_ty: vec![SupportedArgumentType::Integer(SupportedCopyTy::U32)],
        ret_ty: SupportedRetType::IntegerVec(SupportedCopyTy::F64),
    }
}

fn method(style: AccessStyle, info: &JsFnInfo) -> String {
    let mut buf = IdentedWriter::new(String::new(), 0);
    let stats = FuncStats::new(info);
    assert_eq!(write_method(&config(style), &mut buf, info, &stats), Ok(()));
    buf.into_inner()
}

fn count(text: &str, pattern: &str) -> usize {
    text.matches(pattern).count()
}

fn named(name: &str) -> DeclaredType {
    DeclaredType::Path {
        qualified: false,
        segments: vec![PathSegment {
            ident: name.to_string(),
            parameters: PathParameters::AngleBracketed {
                lifetimes: 0,
                types: Vec::new(),
                bindings: 0,
            },
        }],
    }
}

#[test]
fn sum_allocates_copies_in_calls_and_frees() {
    let text = method(AccessStyle::DataView, &sum());
    assert_eq!(
        text,
        "\nsum(arg0) {\n    \
         if (arg0 == null || isNaN(arg0.length)) {\n        \
         throw new Error();\n    \
         }\n    \
         let arg0_len = arg0.length;\n    \
         let arg0_byte_len = arg0_len * 4;\n    \
         let arg0_ptr = this._alloc(arg0_byte_len);\n    \
         this._check_mem_realloc();\n    \
         for (var arg0_i = 0; arg0_i < arg0_len; arg0_i++) {\n        \
         this._mem.setUint32(arg0_ptr + 4 * arg0_i, arg0[arg0_i], true);\n    \
         }\n    \
         let result = this._funcs['sum'](arg0_ptr, arg0_len);\n    \
         let return_value = result;\n    \
         this._dealloc(arg0_ptr, arg0_byte_len);\n    \
         return return_value;\n\
         }\n"
    );
}

#[test]
fn sum_through_a_typed_array() {
    let text = method(AccessStyle::TypedArrays, &sum());
    assert_eq!(
        text,
        "\nsum(arg0) {\n    \
         if (arg0 == null || isNaN(arg0.length)) {\n        \
         throw new Error();\n    \
         }\n    \
         let arg0_len = arg0.length;\n    \
         let arg0_byte_len = arg0_len * 4;\n    \
         let arg0_ptr = this._alloc(arg0_byte_len);\n    \
         let arg0_view = new Uint32Array(this._mem.buffer, arg0_ptr, arg0_len);\n    \
         arg0_view.set(arg0);\n    \
         let result = this._funcs['sum'](arg0_ptr, arg0_len);\n    \
         let return_value = result;\n    \
         this._dealloc(arg0_ptr, arg0_byte_len);\n    \
         return return_value;\n\
         }\n"
    );
}

#[test]
fn product_in_place_copies_back_before_it_frees() {
    let text = method(AccessStyle::TypedArrays, &product_in_place());
    assert_eq!(
        text,
        "\nproduct_in_place(arg0) {\n    \
         if (arg0 == null || isNaN(arg0.length)) {\n        \
         throw new Error();\n    \
         }\n    \
         let arg0_len = arg0.length;\n    \
         let arg0_byte_len = arg0_len * 1;\n    \
         let arg0_ptr = this._alloc(arg0_byte_len);\n    \
         let arg0_view = new Uint8Array(this._mem.buffer, arg0_ptr, arg0_len);\n    \
         arg0_view.set(arg0);\n    \
         let result = this._funcs['product_in_place'](arg0_ptr, arg0_len);\n    \
         if (arg0_view.buffer.byteLength != this._mem.buffer.byteLength) {\n        \
         arg0_view = new Uint8Array(this._mem.buffer, arg0_ptr, arg0_byte_len);\n    \
         }\n    \
         if (typeof arg0.set == 'function') {    arg0.set(arg0_view);\n    \
         } else {    for (var arg0_i = 0; arg0_i < arg0_len; arg0_i++) {\n            \
         arg0[arg0_i] = arg0_view[arg0_i];\n        \
         }\n    \
         }\n    \
         let return_value = result;\n    \
         this._dealloc(arg0_ptr, arg0_byte_len);\n    \
         return return_value;\n\
         }\n"
    );
    let set = text.find("arg0.set(arg0_view);").unwrap();
    let by_element = text.find("arg0[arg0_i] = arg0_view[arg0_i];").unwrap();
    let free = text.find("this._dealloc(arg0_ptr, arg0_byte_len);").unwrap();
    assert!(set < by_element);
    assert!(by_element < free);
}

#[test]
fn product_in_place_looks_at_the_memory_after_the_call() {
    let text = method(AccessStyle::DataView, &product_in_place());
    assert!(text.contains(
        "    let result = this._funcs['product_in_place'](arg0_ptr, arg0_len);\n    \
         this._check_mem_realloc();\n    \
         for (var arg0_i = 0; arg0_i < arg0_len; arg0_i++) {\n        \
         arg0[arg0_i] = this._mem.getUint8(arg0_ptr + 1 * arg0_i, true);\n    \
         }\n"
    ));
}

#[test]
fn all_decodes_the_record_and_frees_data_and_record() {
    let text = method(AccessStyle::TypedArrays, &all());
    assert_eq!(
        text,
        "\nall(arg0) {\n    \
         if (isNaN(arg0)) {\n        \
         throw new Error();\n    \
         }\n    \
         let result = this._funcs['all'](arg0);\n    \
         let result_temp_view = new Uint32Array(this._mem.buffer, result, 3);\n    \
         let return_ptr = result_temp_view[0];\n    \
         let return_len = result_temp_view[1];\n    \
         let return_cap = result_temp_view[2];\n    \
         let return_byte_len = return_len * 8;\n    \
         let return_byte_cap = return_cap * 8;\n    \
         let return_value = Float64Array.from(new Float64Array(this._mem.buffer, return_ptr, return_len));\n    \
         this._dealloc(return_ptr, return_byte_cap);\n    \
         this._dealloc(result, 12);\n    \
         return return_value;\n\
         }\n"
    );
}

#[test]
fn all_through_the_data_view() {
    let text = method(AccessStyle::DataView, &all());
    assert_eq!(
        text,
        "\nall(arg0) {\n    \
         if (isNaN(arg0)) {\n        \
         throw new Error();\n    \
         }\n    \
         let result = this._funcs['all'](arg0);\n    \
         this._check_mem_realloc();\n\n    \
         let return_ptr = this._mem.getUint32(result, true);\n    \
         let return_len = this._mem.getUint32(result + 4, true);\n    \
         let return_cap = this._mem.getUint32(result + 8, true);\n    \
         let return_byte_len = return_len * 8;\n    \
         let return_byte_cap = return_cap * 8;\n    \
         let return_value = [];\n    \
         for (var return_tmp_i = 0; return_tmp_i < return_len; return_tmp_i++) {\n        \
         return_value.push(this._mem.getFloat64(return_ptr + 8 * return_tmp_i, true));\n    \
         }\n    \
         this._dealloc(return_ptr, return_byte_cap);\n    \
         this._dealloc(result, 12);\n    \
         return return_value;\n\
         }\n"
    );
}

#[test]
fn hello_world_is_refused() {
    let item = Item {
        ident: "hello_world".to_string(),
        node: ItemKind::Fn(FnDecl {
            inputs: Vec::new(),
            output: FunctionRetTy::Ty(DeclaredType::Reference {
                mutable: false,
                target: Box::new(named("str")),
            }),
        }),
    };
    assert_eq!(
        translate_source(vec![item], &Config::new()),
        Err(MacroError::UnhandledRetType {
            ty: DeclaredType::Reference { mutable: false, target: Box::new(named("str")) }
        })
    );
}

#[test]
fn scalars_alone_never_reach_the_allocator() {
    let info = JsFnInfo {
        rust_name: "add".to_string(),
        args_ty: vec![
            SupportedArgumentType::Integer(SupportedCopyTy::U32),
            SupportedArgumentType::Integer(SupportedCopyTy::F64),
            SupportedArgumentType::Integer(SupportedCopyTy::Bool),
        ],
        ret_ty: SupportedRetType::Integer(SupportedCopyTy::Bool),
    };
    for style in [AccessStyle::DataView, AccessStyle::TypedArrays] {
        let text = method(style, &info);
        assert_eq!(count(&text, "this._alloc("), 0);
        assert_eq!(count(&text, "this._dealloc("), 0);
        assert_eq!(
            text,
            "\nadd(arg0, arg1, arg2) {\n    \
             if (isNaN(arg0)) {\n        \
             throw new Error();\n    \
             }\n    \
             if (isNaN(arg1)) {\n        \
             throw new Error();\n    \
             }\n    \
             if (isNaN(arg2)) {\n        \
             throw new Error();\n    \
             }\n    \
             let result = this._funcs['add'](arg0, arg1, arg2);\n    \
             let return_value = Boolean(result);\n    \
             return return_value;\n\
             }\n"
        );
    }
}

#[test]
fn what_is_allocated_is_freed() {
    let info = JsFnInfo {
        rust_name: "mix".to_string(),
        args_ty: vec![
            SupportedArgumentType::IntegerSliceRef(SupportedCopyTy::U32),
            SupportedArgumentType::Integer(SupportedCopyTy::U8),
            SupportedArgumentType::IntegerSliceMutRef(SupportedCopyTy::Bool),
            SupportedArgumentType::IntegerVec(SupportedCopyTy::I16),
        ],
        ret_ty: SupportedRetType::Integer(SupportedCopyTy::U8),
    };
    for style in [AccessStyle::DataView, AccessStyle::TypedArrays] {
        let text = method(style, &info);
        assert_eq!(count(&text, "this._alloc("), 3);
        assert_eq!(count(&text, "this._dealloc("), 3);
        assert!(text.contains("this._funcs['mix'](arg0_ptr, arg0_len, arg1, arg2_ptr, arg2_len, arg3_ptr, arg3_len);"));
    }
}

#[test]
fn a_returned_vector_is_freed_though_the_host_did_not_allocate_it() {
    for style in [AccessStyle::DataView, AccessStyle::TypedArrays] {
        let text = method(style, &all());
        assert_eq!(count(&text, "this._alloc("), 0);
        assert_eq!(count(&text, "this._dealloc("), 2);
    }
}

#[test]
fn every_validation_stands_before_the_first_allocation() {
    let info = JsFnInfo {
        rust_name: "two".to_string(),
        args_ty: vec![
            SupportedArgumentType::IntegerSliceRef(SupportedCopyTy::U8),
            SupportedArgumentType::IntegerSliceRef(SupportedCopyTy::U8),
        ],
        ret_ty: SupportedRetType::Unit,
    };
    for style in [AccessStyle::DataView, AccessStyle::TypedArrays] {
        let text = method(style, &info);
        let last_validation = text.rfind("throw new Error();").unwrap();
        let first_alloc = text.find("this._alloc(").unwrap();
        assert!(last_validation < first_alloc);
    }
}

#[test]
fn the_same_signatures_give_the_same_text() {
    for style in [AccessStyle::DataView, AccessStyle::TypedArrays] {
        let infos = vec![sum(), product_in_place(), all()];
        let first = generate_javascript(&config(style), &infos).unwrap();
        let again = vec![sum(), product_in_place(), all()];
        let second = generate_javascript(&config(style), &again).unwrap();
        assert_eq!(first, second);
    }
}

#[test]
fn a_string_in_a_signature_is_refused() {
    let info = JsFnInfo {
        rust_name: "greet".to_string(),
        args_ty: vec![
            SupportedArgumentType::Integer(SupportedCopyTy::U8),
            SupportedArgumentType::OwnedString,
        ],
        ret_ty: SupportedRetType::Unit,
    };
    let mut buf = IdentedWriter::new(String::new(), 0);
    let stats = FuncStats::new(&info);
    assert!(matches!(
        write_method(&Config::new(), &mut buf, &info, &stats),
        Err(MacroError::UnhandledArgumentType { .. })
    ));
    assert_eq!(buf.into_inner(), "");
    assert!(matches!(
        generate_javascript(&Config::new(), &vec![sum(), info]),
        Err(MacroError::UnhandledArgumentType { .. })
    ));
    let info = JsFnInfo {
        rust_name: "name".to_string(),
        args_ty: Vec::new(),
        ret_ty: SupportedRetType::OwnedString,
    };
    assert!(matches!(
        generate_javascript(&Config::new(), &vec![info]),
        Err(MacroError::UnhandledRetType { .. })
    ));
}
