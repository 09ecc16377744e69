use wasm_wrapper_gen::error::MacroError;
use wasm_wrapper_gen::generation::class::{
    write_class_definition_finish, write_class_definition_post_exports_grabbing_up_to_methods,
    write_class_definition_up_to_exports_grabbing, write_func_unexport,
};
use wasm_wrapper_gen::generation::generate_javascript;
use wasm_wrapper_gen::generation::stats::FuncStats;
use wasm_wrapper_gen::indented_write::IdentedWriter;
use wasm_wrapper_gen::processing::JsFnInfo;
use wasm_wrapper_gen::style::{AccessStyle, Config};
use wasm_wrapper_gen::syntax::{
    DeclaredType, FnArg, FnDecl, FunctionRetTy, Item, ItemKind, PathParameters, PathSegment,
};
use wasm_wrapper_gen::translate::{collect_signatures, translate_source};
use wasm_wrapper_gen::types::{SupportedArgumentType, SupportedCopyTy, SupportedRetType};

fn config(style: AccessStyle, indent: u32) -> Config {
    let mut config = Config::new();
    config.with_array_access_style(style).with_indent(indent);
    config
}

fn writer() -> IdentedWriter {
    IdentedWriter::new(String::new(), 0)
}

fn sum() -> JsFnInfo {
    JsFnInfo {
        rust_name: "sum".to_string(),
        args_ty: vec![SupportedArgumentType::IntegerSliceRef(SupportedCopyTy::U32)],
        ret_ty: SupportedRetType::Integer(SupportedCopyTy::I32),
    }
}

fn named(name: &str) -> DeclaredType {
    DeclaredType::Path {
        qualified: false,
        segments: vec![PathSegment {
            ident: name.to_string(),
            parameters: PathParameters::AngleBracketed {
                lifetimes: 0,
                types: Vec::new(),
                bindings: 0,
            },
        }],
    }
}

fn sum_item() -> Item {
    Item {
        ident: "sum".to_string(),
        node: ItemKind::Fn(FnDecl {
            inputs: vec![FnArg::Captured(DeclaredType::Reference {
                mutable: false,
                target: Box::new(DeclaredType::Slice(Box::new(named("u32")))),
            })],
            output: FunctionRetTy::Ty(named("i32")),
        }),
    }
}

const SUM_CLASS: &str = "class WasmWrapper {
    constructor (wasm_module) {
        this._mod = new WebAssembly.Instance(wasm_module, {});
        this._raw_mem = this._mod.exports[\"memory\"];
        this._mem = new DataView(this._raw_mem.buffer);

        this._alloc = this._mod.exports[\"__js_fn__builtin_alloc\"];
        this._dealloc = this._mod.exports[\"__js_fn__builtin_dealloc\"];

        this._funcs = {
            ['sum']: this._mod.exports[\"__js_fn_sum\"],
        };
    }

    _check_mem_realloc() {
        if (this._mem.byteLength != this._raw_mem.buffer.byteLength) {
            this._mem = new DataView(this._raw_mem.buffer);
        }
    }

    sum(arg0) {
        if (arg0 == null || isNaN(arg0.length)) {
            throw new Error();
        }
        let arg0_len = arg0.length;
        let arg0_byte_len = arg0_len * 4;
        let arg0_ptr = this._alloc(arg0_byte_len);
        this._check_mem_realloc();
        for (var arg0_i = 0; arg0_i < arg0_len; arg0_i++) {
            this._mem.setUint32(arg0_ptr + 4 * arg0_i, arg0[arg0_i], true);
        }
        let result = this._funcs['sum'](arg0_ptr, arg0_len);
        let return_value = result;
        this._dealloc(arg0_ptr, arg0_byte_len);
        return return_value;
    }
}

exports = module.exports = WasmWrapper;
";

#[test]
fn the_class_opens_with_its_constructor() {
    let mut buf = writer();
    write_class_definition_up_to_exports_grabbing(
        &config(AccessStyle::TypedArrays, 2),
        &mut buf,
        true,
    );
    assert_eq!(
        buf.into_inner(),
        "class WasmWrapper {\n  \
         constructor (wasm_module) {\n    \
         this._mod = new WebAssembly.Instance(wasm_module, {});\n    \
         this._mem = this._mod.exports[\"memory\"];\n\n    \
         this._alloc = this._mod.exports[\"__js_fn__builtin_alloc\"];\n    \
         this._dealloc = this._mod.exports[\"__js_fn__builtin_dealloc\"];\n\n    \
         this._funcs = {\n"
    );
}

#[test]
fn memory_is_left_alone_where_no_method_needs_it() {
    for style in [AccessStyle::TypedArrays, AccessStyle::DataView] {
        let mut buf = writer();
        write_class_definition_up_to_exports_grabbing(&config(style, 4), &mut buf, false);
        assert_eq!(
            buf.into_inner(),
            "class WasmWrapper {\n    \
             constructor (wasm_module) {\n        \
             this._mod = new WebAssembly.Instance(wasm_module, {});\n\n        \
             this._funcs = {\n"
        );
    }
}

#[test]
fn a_function_is_entered_under_its_declared_name() {
    let info = sum();
    let stats = FuncStats::new(&info);
    let mut buf = writer();
    write_func_unexport(&mut buf, &info, &stats);
    assert_eq!(buf.into_inner(), "['sum']: this._mod.exports[\"__js_fn_sum\"],\n");
}

#[test]
fn the_constructor_closes_and_the_memory_test_follows() {
    let mut buf = writer();
    write_class_definition_post_exports_grabbing_up_to_methods(
        &config(AccessStyle::DataView, 4),
        &mut buf,
        true,
    );
    assert_eq!(
        buf.into_inner(),
        "        };\n    }\n\n    \
         _check_mem_realloc() {\n        \
         if (this._mem.byteLength != this._raw_mem.buffer.byteLength) {\n            \
         this._mem = new DataView(this._raw_mem.buffer);\n        \
         }\n    \
         }\n"
    );
}

#[test]
fn there_is_no_memory_test_where_none_is_called() {
    let mut buf = writer();
    write_class_definition_post_exports_grabbing_up_to_methods(
        &config(AccessStyle::DataView, 4),
        &mut buf,
        false,
    );
    assert_eq!(buf.into_inner(), "        };\n    }\n");
    let mut buf = writer();
    write_class_definition_post_exports_grabbing_up_to_methods(
        &config(AccessStyle::TypedArrays, 3),
        &mut buf,
        true,
    );
    assert_eq!(buf.into_inner(), "      };\n   }\n");
}

#[test]
fn the_class_is_exported() {
    let mut cfg = Config::new();
    cfg.with_class_name("Fib");
    let mut buf = writer();
    write_class_definition_finish(&cfg, &mut buf);
    assert_eq!(buf.into_inner(), "}\n\nexports = module.exports = Fib;\n");
}

#[test]
fn the_whole_class_for_sum() {
    assert_eq!(generate_javascript(&Config::new(), &vec![sum()]).unwrap(), SUM_CLASS);
}

#[test]
fn a_class_without_functions() {
    assert_eq!(
        generate_javascript(&config(AccessStyle::DataView, 2), &Vec::new()).unwrap(),
        "class WasmWrapper {\n  \
         constructor (wasm_module) {\n    \
         this._mod = new WebAssembly.Instance(wasm_module, {});\n\n    \
         this._funcs = {\n    \
         };\n  \
         }\n\
         }\n\n\
         exports = module.exports = WasmWrapper;\n"
    );
}

#[test]
fn methods_follow_in_the_order_of_the_functions() {
    let unit = JsFnInfo {
        rust_name: "tick".to_string(),
        args_ty: Vec::new(),
        ret_ty: SupportedRetType::Unit,
    };
    let text = generate_javascript(&config(AccessStyle::TypedArrays, 4), &vec![unit, sum()]).unwrap();
    assert!(text.contains(
        "        this._funcs = {\n            \
         ['tick']: this._mod.exports[\"__js_fn_tick\"],\n            \
         ['sum']: this._mod.exports[\"__js_fn_sum\"],\n        \
         };\n"
    ));
    assert!(text.contains(
        "\n    tick() {\n        \
         let result = this._funcs['tick']();\n        \
         let return_value = result;\n        \
         return return_value;\n    \
         }\n\n    sum(arg0) {\n"
    ));
    assert!(!text.contains("_check_mem_realloc"));
    assert!(text.contains("this._mem = this._mod.exports[\"memory\"];"));
}

#[test]
fn declared_items_are_translated() {
    assert_eq!(translate_source(vec![sum_item()], &Config::new()).unwrap(), SUM_CLASS);
    assert_eq!(Config::new().translate(vec![sum_item()]).unwrap(), SUM_CLASS);
    assert_eq!(collect_signatures(vec![sum_item()]), Ok(vec![sum()]));
}

#[test]
fn the_first_item_that_is_refused_stops_the_translation() {
    let not_a_function =
        Item { ident: "S".to_string(), node: ItemKind::Other("struct".to_string()) };
    let method = Item {
        ident: "m".to_string(),
        node: ItemKind::Fn(FnDecl { inputs: vec![FnArg::SelfRef], output: FunctionRetTy::Default }),
    };
    assert_eq!(
        translate_source(vec![sum_item(), method, not_a_function], &Config::new()),
        Err(MacroError::InvalidArgument { arg: FnArg::SelfRef })
    );
}
