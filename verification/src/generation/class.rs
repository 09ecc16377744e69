//! Writes what stands around the methods of the generated class: its
//! constructor, the table of the module's functions, and the export.

use crate::generation::stats::FuncStats;
use crate::indented_write::{
    indent_text, lemma_block, lemma_scope, lemma_write_concat, IdentedWriter, WriteExt,
};
use crate::processing::{transformed_prefix, JsFnInfo, TransformedRustIdent};
use crate::style::{AccessStyle, Config};
use vstd::prelude::*;
use vstd::string::*;

verus! {

/// How the constructor takes hold of the module's memory.
pub open spec fn memory_text(style: AccessStyle) -> Seq<char> {
    match style {
        AccessStyle::TypedArrays => "this._mem = this._mod.exports[\"memory\"];\n"@,
        AccessStyle::DataView =>
            "this._raw_mem = this._mod.exports[\"memory\"];\nthis._mem = new DataView(this._raw_mem.buffer);\n"@,
    }
}

/// How the constructor takes hold of the module's allocator and
/// deallocator, under the two names that the module exports them by.
pub open spec fn allocator_text() -> Seq<char> {
    "\nthis._alloc = this._mod.exports[\"__js_fn__builtin_alloc\"];\nthis._dealloc = this._mod.exports[\"__js_fn__builtin_dealloc\"];\n"@
}

/// The statements of the constructor up to where the table of functions
/// opens. Memory and allocator are taken hold of only where a method needs
/// them.
pub open spec fn constructor_body(style: AccessStyle, any_alloc: bool) -> Seq<char> {
    if any_alloc {
        "this._mod = new WebAssembly.Instance(wasm_module, {});\n"@ + memory_text(style)
            + allocator_text() + "\nthis._funcs = {\n"@
    } else {
        "this._mod = new WebAssembly.Instance(wasm_module, {});\n"@ + "\nthis._funcs = {\n"@
    }
}

/// The class from its first line to where the table of functions opens.
pub open spec fn opening_text(
    indent: nat,
    style: AccessStyle,
    class_name: Seq<char>,
    any_alloc: bool,
) -> Seq<char> {
    "class "@ + class_name + " {\n"@ + indent_text(
        "constructor (wasm_module) {\n"@ + indent_text(
            constructor_body(style, any_alloc),
            indent,
            true,
        ),
        indent,
        true,
    )
}

/// The entry of one function in the table: under its declared name, the
/// module's export of the transformed name.
pub open spec fn unexport_text(name: Seq<char>) -> Seq<char> {
    "['"@ + name + "']: this._mod.exports[\""@ + (transformed_prefix() + name) + "\"],\n"@
}

/// The method that renews the one `DataView` where the memory has grown.
pub open spec fn check_realloc_text(indent: nat) -> Seq<char> {
    "\n_check_mem_realloc() {\n"@ + indent_text(
        "if (this._mem.byteLength != this._raw_mem.buffer.byteLength) {\n"@ + indent_text(
            "this._mem = new DataView(this._raw_mem.buffer);\n"@,
            indent,
            true,
        ) + "}\n"@,
        indent,
        true,
    ) + "}\n"@
}

/// The class from the end of the table of functions to where the methods
/// begin.
pub open spec fn middle_text(indent: nat, style: AccessStyle, any_alloc: bool) -> Seq<char> {
    if style == AccessStyle::DataView && any_alloc {
        indent_text("};\n"@, 2 * indent, true) + indent_text("}\n"@, indent, true) + indent_text(
            check_realloc_text(indent),
            indent,
            true,
        )
    } else {
        indent_text("};\n"@, 2 * indent, true) + indent_text("}\n"@, indent, true)
    }
}

/// The end of the class, and its export.
pub open spec fn finish_text(class_name: Seq<char>) -> Seq<char> {
    "}\n\nexports = module.exports = "@ + class_name + ";\n"@
}

/// Writes the class from its first line to where the table of functions
/// opens.
pub fn write_class_definition_up_to_exports_grabbing(
    config: &Config,
    buf: &mut IdentedWriter,
    any_alloc: bool,
)
    ensures
        final(buf)@ == old(buf)@.write(
            opening_text(
                config.indent as nat,
                config.access_style,
                config.class_name@,
                any_alloc,
            ),
        ),
{
    let ghost start = buf@;
    let ghost indent = config.indent as nat;
    let mut first = String::from_str("class ");
    first.append(config.class_name.as_str());
    first.append(" {\n");
    let mut body = String::from_str("this._mod = new WebAssembly.Instance(wasm_module, {});\n");
    if any_alloc {
        match config.access_style {
            AccessStyle::TypedArrays => {
                body.append("this._mem = this._mod.exports[\"memory\"];\n");
            },
            AccessStyle::DataView => {
                body.append(
                    "this._raw_mem = this._mod.exports[\"memory\"];\nthis._mem = new DataView(this._raw_mem.buffer);\n",
                );
            },
        }
        body.append(
            "\nthis._alloc = this._mod.exports[\"__js_fn__builtin_alloc\"];\nthis._dealloc = this._mod.exports[\"__js_fn__builtin_dealloc\"];\n",
        );
    }
    body.append("\nthis._funcs = {\n");
    buf.write_str(first.as_str());
    buf.indented(config.indent as u64);
    buf.write_str("constructor (wasm_module) {\n");
    buf.indented(config.indent as u64);
    buf.write_str(body.as_str());
    buf.dedented();
    buf.dedented();
    proof {
        let outer = start.write(first@).enter(indent);
        let line = "constructor (wasm_module) {\n"@;
        lemma_scope(outer.write(line), indent, body@);
        lemma_write_concat(outer, line, indent_text(body@, indent, true));
        lemma_scope(start.write(first@), indent, line + indent_text(body@, indent, true));
        lemma_write_concat(
            start,
            first@,
            indent_text(line + indent_text(body@, indent, true), indent, true),
        );
    }
}

/// Writes the entry of one function in the table of functions.
pub fn write_func_unexport(buf: &mut IdentedWriter, info: &JsFnInfo, _stats: &FuncStats)
    ensures
        final(buf)@ == old(buf)@.write(unexport_text(info@.name)),
{
    let exported = TransformedRustIdent::new(info.rust_name.as_str()).to_text();
    let mut entry = String::from_str("['");
    entry.append(info.rust_name.as_str());
    entry.append("']: this._mod.exports[\"");
    entry.append(exported.as_str());
    entry.append("\"],\n");
    buf.write_str(entry.as_str());
}

fn write_check_realloc(config: &Config, buf: &mut IdentedWriter)
    ensures
        final(buf)@ == old(buf)@.write(check_realloc_text(config.indent as nat)),
{
    let ghost start = buf@;
    let ghost indent = config.indent as nat;
    buf.write_str("\n_check_mem_realloc() {\n");
    buf.indented(config.indent as u64);
    buf.write_str("if (this._mem.byteLength != this._raw_mem.buffer.byteLength) {\n");
    buf.indented(config.indent as u64);
    buf.write_str("this._mem = new DataView(this._raw_mem.buffer);\n");
    buf.dedented();
    buf.write_str("}\n");
    buf.dedented();
    buf.write_str("}\n");
    proof {
        let head = "\n_check_mem_realloc() {\n"@;
        let test = "if (this._mem.byteLength != this._raw_mem.buffer.byteLength) {\n"@;
        let renew = "this._mem = new DataView(this._raw_mem.buffer);\n"@;
        lemma_block(start.write(head).enter(indent), test, indent, renew, "}\n"@);
        lemma_block(
            start,
            head,
            indent,
            test + indent_text(renew, indent, true) + "}\n"@,
            "}\n"@,
        );
    }
}

/// Writes the class from the end of the table of functions to where the
/// methods begin.
pub fn write_class_definition_post_exports_grabbing_up_to_methods(
    config: &Config,
    buf: &mut IdentedWriter,
    any_alloc: bool,
)
    ensures
        final(buf)@ == old(buf)@.write(
            middle_text(config.indent as nat, config.access_style, any_alloc),
        ),
{
    let ghost start = buf@;
    let ghost indent = config.indent as nat;
    buf.indented(config.indent as u64 * 2);
    buf.write_str("};\n");
    buf.dedented();
    buf.indented(config.indent as u64);
    buf.write_str("}\n");
    buf.dedented();
    let ghost a = indent_text("};\n"@, 2 * indent, true);
    let ghost b = indent_text("}\n"@, indent, true);
    proof {
        lemma_scope(start, 2 * indent, "};\n"@);
        lemma_scope(start.write(a), indent, "}\n"@);
        lemma_write_concat(start, a, b);
    }
    match config.access_style {
        AccessStyle::TypedArrays => {},
        AccessStyle::DataView => {
            if any_alloc {
                buf.indented(config.indent as u64);
                write_check_realloc(config, buf);
                buf.dedented();
                proof {
                    lemma_scope(start.write(a + b), indent, check_realloc_text(indent));
                    lemma_write_concat(
                        start,
                        a + b,
                        indent_text(check_realloc_text(indent), indent, true),
                    );
                }
            }
        },
    }
}

/// Writes the end of the class, and its export.
pub fn write_class_definition_finish(config: &Config, buf: &mut IdentedWriter)
    ensures
        final(buf)@ == old(buf)@.write(finish_text(config.class_name@)),
{
    let mut text = String::from_str("}\n\nexports = module.exports = ");
    text.append(config.class_name.as_str());
    text.append(";\n");
    buf.write_str(text.as_str());
}

} // verus!
