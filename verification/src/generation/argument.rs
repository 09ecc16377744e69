//! What a method does for each of its arguments: validate it, copy it into
//! module memory, copy changes back out, and free the buffer.

use crate::error::MacroError;
use crate::generation::access::{
    get_ith_text, js_get_ith_ty_at, js_set_ith_ty_at, set_ith_text, typed_view, typed_view_text,
    width_text,
};
use crate::indented_write::{
    indent_text, lemma_block, lemma_write_concat, IdentedWriter, WriteExt,
};
use crate::style::{AccessStyle, Config};
use crate::text::decimal;
use crate::types::{
    owned_string_type, refuses_string_argument, SupportedArgumentType, SupportedCopyTy,
};
use vstd::prelude::*;
use vstd::string::*;

verus! {

/// The element type of an argument that travels as a buffer.
pub open spec fn element_of(ty: SupportedArgumentType) -> SupportedCopyTy {
    match ty {
        SupportedArgumentType::IntegerSliceRef(inner) => inner,
        SupportedArgumentType::IntegerSliceMutRef(inner) => inner,
        SupportedArgumentType::IntegerVec(inner) => inner,
        SupportedArgumentType::Integer(inner) => inner,
        SupportedArgumentType::OwnedString => SupportedCopyTy::U8,
    }
}

/// The validation of an argument, before anything is allocated: a
/// buffer must be there and have a length that is a number, a number must
/// be a number.
pub open spec fn validate_text(
    indent: nat,
    arg_name: Seq<char>,
    ty: SupportedArgumentType,
    failure: Seq<char>,
) -> Seq<char> {
    if ty.is_buffer() {
        "if ("@ + arg_name + " == null || isNaN("@ + arg_name + ".length)) {\n"@ + indent_text(
            failure + "\n"@,
            indent,
            true,
        ) + "}\n"@
    } else if ty is Integer {
        "if (isNaN("@ + arg_name + ")) {\n"@ + indent_text(failure + "\n"@, indent, true) + "}\n"@
    } else {
        Seq::empty()
    }
}

/// The statements that are the same under both styles: the element count,
/// the byte length, and the request for a buffer of that length.
pub open spec fn allocation_text(arg_name: Seq<char>, inner: SupportedCopyTy) -> Seq<char> {
    "let "@ + arg_name + "_len = "@ + arg_name + ".length;\nlet "@ + arg_name + "_byte_len = "@
        + arg_name + "_len * "@ + decimal(inner.width()) + ";\nlet "@ + arg_name
        + "_ptr = this._alloc("@ + arg_name + "_byte_len);\n"@
}

/// The copy of a whole buffer into module memory through a typed array
/// over as many elements as the argument has.
pub open spec fn view_copy_in_text(arg_name: Seq<char>, inner: SupportedCopyTy) -> Seq<char> {
    "let "@ + arg_name + "_view = "@ + typed_view_text(
        inner,
        arg_name + "_ptr"@,
        arg_name + "_len"@,
    ) + ";\n"@ + arg_name + "_view.set("@ + arg_name + ");\n"@
}

/// The head of the loop that goes through an argument's elements.
pub open spec fn element_loop_head(arg_name: Seq<char>) -> Seq<char> {
    "for (var "@ + arg_name + "_i = 0; "@ + arg_name + "_i < "@ + arg_name + "_len; "@ + arg_name
        + "_i++) {\n"@
}

/// Allocation and copy-in for one argument: nothing for a number; for a
/// buffer the allocation, then the copy in the way of the style. Element by
/// element, the memory is looked at first for having grown.
pub open spec fn prepare_text(
    indent: nat,
    style: AccessStyle,
    arg_name: Seq<char>,
    ty: SupportedArgumentType,
) -> Seq<char> {
    if ty.is_buffer() {
        match style {
            AccessStyle::TypedArrays => allocation_text(arg_name, element_of(ty))
                + view_copy_in_text(arg_name, element_of(ty)),
            AccessStyle::DataView => allocation_text(arg_name, element_of(ty))
                + "this._check_mem_realloc();\n"@ + element_loop_head(arg_name) + indent_text(
                set_ith_text(
                    "this._mem"@,
                    element_of(ty),
                    arg_name + "_ptr"@,
                    arg_name + "_i"@,
                    arg_name + "["@ + arg_name + "_i]"@,
                ),
                indent,
                true,
            ) + "}\n"@,
        }
    } else {
        Seq::empty()
    }
}

/// The release of an argument's buffer, with the byte length that it was
/// allocated with. A number has none.
pub open spec fn deallocate_text(arg_name: Seq<char>, ty: SupportedArgumentType) -> Seq<char> {
    if ty.is_buffer() {
        "this._dealloc("@ + arg_name + "_ptr, "@ + arg_name + "_byte_len);\n"@
    } else {
        Seq::empty()
    }
}

/// The statement that makes a typed array anew, over `length_name`
/// elements, where the memory under it has grown since it was made.
pub open spec fn reconstruct_text(
    indent: nat,
    view_name: Seq<char>,
    ptr_name: Seq<char>,
    length_name: Seq<char>,
    ty: SupportedCopyTy,
) -> Seq<char> {
    "if ("@ + view_name + ".buffer.byteLength != this._mem.buffer.byteLength) {\n"@ + indent_text(
        view_name + " = "@ + typed_view_text(ty, ptr_name, length_name) + ";\n"@,
        indent,
        true,
    ) + "}\n"@
}

/// One element as it is taken from a typed array: a boolean is made one.
pub open spec fn view_element(arg_name: Seq<char>, inner: SupportedCopyTy) -> Seq<char> {
    if inner == SupportedCopyTy::Bool {
        "Boolean("@ + arg_name + "_view["@ + arg_name + "_i])"@
    } else {
        arg_name + "_view["@ + arg_name + "_i]"@
    }
}

/// The loop that copies a buffer back element by element from its typed
/// array.
pub open spec fn view_copy_back_loop(
    indent: nat,
    arg_name: Seq<char>,
    inner: SupportedCopyTy,
) -> Seq<char> {
    element_loop_head(arg_name) + indent_text(
        arg_name + "["@ + arg_name + "_i] = "@ + view_element(arg_name, inner) + ";\n"@,
        indent,
        true,
    ) + "}\n"@
}

/// The variable that says over how many elements an argument's typed
/// array is renewed: the length in bytes where an element is one byte
/// wide, so that the view spans the bytes from the pointer on; the element
/// count where an element is wider, since the constructor counts elements.
pub open spec fn view_count_name(arg_name: Seq<char>, inner: SupportedCopyTy) -> Seq<char> {
    if inner.width() == 1 {
        arg_name + "_byte_len"@
    } else {
        arg_name + "_len"@
    }
}

/// The copy of a mutable slice back into the host's array after the call.
/// With typed arrays the view is renewed if need be, and the whole is then
/// copied with `set` where the host's array has it, element by element
/// where it has not. Other arguments are not copied back.
pub open spec fn propagate_text(
    indent: nat,
    style: AccessStyle,
    arg_name: Seq<char>,
    ty: SupportedArgumentType,
) -> Seq<char> {
    match ty {
        SupportedArgumentType::IntegerSliceMutRef(inner) => match style {
            AccessStyle::TypedArrays => reconstruct_text(
                indent,
                arg_name + "_view"@,
                arg_name + "_ptr"@,
                view_count_name(arg_name, inner),
                inner,
            ) + "if (typeof "@ + arg_name + ".set == 'function') {"@ + indent_text(
                arg_name + ".set("@ + arg_name + "_view);\n"@,
                indent,
                true,
            ) + "} else {"@ + indent_text(view_copy_back_loop(indent, arg_name, inner), indent, true)
                + "}\n"@,
            AccessStyle::DataView => element_loop_head(arg_name) + indent_text(
                arg_name + "["@ + arg_name + "_i] = "@ + get_ith_text(
                    "this._mem"@,
                    inner,
                    arg_name + "_ptr"@,
                    arg_name + "_i"@,
                ) + ";\n"@,
                indent,
                true,
            ) + "}\n"@,
        },
        _ => Seq::empty(),
    }
}

fn refuse_string_argument() -> (e: MacroError)
    ensures
        refuses_string_argument(e),
{
    MacroError::UnhandledArgumentType { ty: owned_string_type() }
}

fn suffixed(name: &str, suffix: &str) -> (s: String)
    ensures
        s@ == name@ + suffix@,
{
    let mut s = String::from_str(name);
    s.append(suffix);
    s
}

fn write_loop_head(buf: &mut IdentedWriter, arg_name: &str)
    ensures
        final(buf)@ == old(buf)@.write(element_loop_head(arg_name@)),
{
    let mut head = String::from_str("for (var ");
    head.append(arg_name);
    head.append("_i = 0; ");
    head.append(arg_name);
    head.append("_i < ");
    head.append(arg_name);
    head.append("_len; ");
    head.append(arg_name);
    head.append("_i++) {\n");
    buf.write_str(head.as_str());
}

fn write_allocation(buf: &mut IdentedWriter, arg_name: &str, inner: SupportedCopyTy)
    ensures
        final(buf)@ == old(buf)@.write(allocation_text(arg_name@, inner)),
{
    let width = width_text(inner);
    let mut text = String::from_str("let ");
    text.append(arg_name);
    text.append("_len = ");
    text.append(arg_name);
    text.append(".length;\nlet ");
    text.append(arg_name);
    text.append("_byte_len = ");
    text.append(arg_name);
    text.append("_len * ");
    text.append(width.as_str());
    text.append(";\nlet ");
    text.append(arg_name);
    text.append("_ptr = this._alloc(");
    text.append(arg_name);
    text.append("_byte_len);\n");
    buf.write_str(text.as_str());
}

/// Writes the validation of one argument; `failure` is what the generated
/// code does where the argument is not valid. A `String` is refused, and nothing is
/// written.
pub fn validate_argument(
    config: &Config,
    buf: &mut IdentedWriter,
    arg_name: &str,
    ty: SupportedArgumentType,
    failure: &str,
) -> (done: Result<(), MacroError>)
    ensures
        match done {
            Ok(_) => !(ty is OwnedString) && final(buf)@ == old(buf)@.write(
                validate_text(config.indent as nat, arg_name@, ty, failure@),
            ),
            Err(e) => ty is OwnedString && refuses_string_argument(e) && final(buf)@ == old(buf)@,
        },
{
    let ghost start = buf@;
    let mut head: String;
    match ty {
        SupportedArgumentType::OwnedString => {
            return Err(refuse_string_argument());
        },
        SupportedArgumentType::Integer(_) => {
            head = String::from_str("if (isNaN(");
            head.append(arg_name);
            head.append(")) {\n");
        },
        _ => {
            head = String::from_str("if (");
            head.append(arg_name);
            head.append(" == null || isNaN(");
            head.append(arg_name);
            head.append(".length)) {\n");
        },
    }
    let throw = suffixed(failure, "\n");
    buf.write_str(head.as_str());
    buf.indented(config.indent as u64);
    buf.write_str(throw.as_str());
    buf.dedented();
    buf.write_str("}\n");
    proof {
        lemma_block(start, head@, config.indent as nat, throw@, "}\n"@);
    }
    Ok(())
}

/// Writes allocation and copy-in for one argument. A `String` is refused,
/// and nothing is written.
pub fn prepare_argument_allocation(
    config: &Config,
    buf: &mut IdentedWriter,
    arg_name: &str,
    ty: SupportedArgumentType,
) -> (done: Result<(), MacroError>)
    ensures
        match done {
            Ok(_) => !(ty is OwnedString) && final(buf)@ == old(buf)@.write(
                prepare_text(config.indent as nat, config.access_style, arg_name@, ty),
            ),
            Err(e) => ty is OwnedString && refuses_string_argument(e) && final(buf)@ == old(buf)@,
        },
{
    let ghost start = buf@;
    let inner = match ty {
        SupportedArgumentType::OwnedString => {
            return Err(refuse_string_argument());
        },
        SupportedArgumentType::Integer(_) => {
            proof {
                crate::indented_write::lemma_write_empty(start);
            }
            return Ok(());
        },
        SupportedArgumentType::IntegerSliceRef(inner) => inner,
        SupportedArgumentType::IntegerSliceMutRef(inner) => inner,
        SupportedArgumentType::IntegerVec(inner) => inner,
    };
    write_allocation(buf, arg_name, inner);
    match config.access_style {
        AccessStyle::TypedArrays => {
            let ptr_name = suffixed(arg_name, "_ptr");
            let count_name = suffixed(arg_name, "_len");
            let view = typed_view(inner, ptr_name.as_str(), count_name.as_str());
            let mut text = String::from_str("let ");
            text.append(arg_name);
            text.append("_view = ");
            text.append(view.as_str());
            text.append(";\n");
            text.append(arg_name);
            text.append("_view.set(");
            text.append(arg_name);
            text.append(");\n");
            buf.write_str(text.as_str());
            proof {
                lemma_write_concat(start, allocation_text(arg_name@, inner), text@);
            }
        },
        AccessStyle::DataView => {
            buf.write_str("this._check_mem_realloc();\n");
            write_loop_head(buf, arg_name);
            let ptr_name = suffixed(arg_name, "_ptr");
            let i_name = suffixed(arg_name, "_i");
            let mut value = String::from_str(arg_name);
            value.append("[");
            value.append(arg_name);
            value.append("_i]");
            buf.indented(config.indent as u64);
            js_set_ith_ty_at(
                buf,
                "this._mem",
                inner,
                ptr_name.as_str(),
                i_name.as_str(),
                value.as_str(),
            );
            buf.dedented();
            buf.write_str("}\n");
            proof {
                let a = allocation_text(arg_name@, inner);
                let b = "this._check_mem_realloc();\n"@;
                let c = element_loop_head(arg_name@);
                let body = set_ith_text("this._mem"@, inner, ptr_name@, i_name@, value@);
                lemma_write_concat(start, a, b);
                lemma_write_concat(start, a + b, c);
                lemma_block(start, a + b + c, config.indent as nat, body, "}\n"@);
            }
        },
    }
    Ok(())
}

/// Writes the release of one argument's buffer. A `String` is refused, and
/// nothing is written.
pub fn deallocate_argument_allocation(
    _config: &Config,
    buf: &mut IdentedWriter,
    arg_name: &str,
    ty: SupportedArgumentType,
) -> (done: Result<(), MacroError>)
    ensures
        match done {
            Ok(_) => !(ty is OwnedString) && final(buf)@ == old(buf)@.write(
                deallocate_text(arg_name@, ty),
            ),
            Err(e) => ty is OwnedString && refuses_string_argument(e) && final(buf)@ == old(buf)@,
        },
{
    match ty {
        SupportedArgumentType::OwnedString => Err(refuse_string_argument()),
        SupportedArgumentType::Integer(_) => {
            proof {
                crate::indented_write::lemma_write_empty(buf@);
            }
            Ok(())
        },
        _ => {
            let mut text = String::from_str("this._dealloc(");
            text.append(arg_name);
            text.append("_ptr, ");
            text.append(arg_name);
            text.append("_byte_len);\n");
            buf.write_str(text.as_str());
            Ok(())
        },
    }
}

/// Writes the statement that makes the typed array `view_name` anew where
/// the memory under it has grown.
pub fn reconstruct_typed_array_if_memory_changed(
    config: &Config,
    buf: &mut IdentedWriter,
    view_name: &str,
    ptr_name: &str,
    length_name: &str,
    ty: SupportedCopyTy,
)
    ensures
        final(buf)@ == old(buf)@.write(
            reconstruct_text(config.indent as nat, view_name@, ptr_name@, length_name@, ty),
        ),
{
    let ghost start = buf@;
    let mut head = String::from_str("if (");
    head.append(view_name);
    head.append(".buffer.byteLength != this._mem.buffer.byteLength) {\n");
    let view = typed_view(ty, ptr_name, length_name);
    let mut renew = String::from_str(view_name);
    renew.append(" = ");
    renew.append(view.as_str());
    renew.append(";\n");
    buf.write_str(head.as_str());
    buf.indented(config.indent as u64);
    buf.write_str(renew.as_str());
    buf.dedented();
    buf.write_str("}\n");
    proof {
        lemma_block(start, head@, config.indent as nat, renew@, "}\n"@);
    }
}

fn write_view_copy_back_loop(
    config: &Config,
    buf: &mut IdentedWriter,
    arg_name: &str,
    inner: SupportedCopyTy,
)
    ensures
        final(buf)@ == old(buf)@.write(
            view_copy_back_loop(config.indent as nat, arg_name@, inner),
        ),
{
    let ghost start = buf@;
    write_loop_head(buf, arg_name);
    let mut assign = String::from_str(arg_name);
    assign.append("[");
    assign.append(arg_name);
    assign.append("_i] = ");
    let mut element = match inner {
        SupportedCopyTy::Bool => {
            let mut s = String::from_str("Boolean(");
            s.append(arg_name);
            s
        },
        _ => String::from_str(arg_name),
    };
    element.append("_view[");
    element.append(arg_name);
    match inner {
        SupportedCopyTy::Bool => {
            element.append("_i])");
        },
        _ => {
            element.append("_i]");
        },
    }
    assign.append(element.as_str());
    assign.append(";\n");
    buf.indented(config.indent as u64);
    buf.write_str(assign.as_str());
    buf.dedented();
    buf.write_str("}\n");
    proof {
        lemma_block(
            start,
            element_loop_head(arg_name@),
            config.indent as nat,
            assign@,
            "}\n"@,
        );
    }
}

/// Writes the copy of a mutable slice back into the host's array; for an
/// argument of another type nothing. A `String` is refused, and nothing is
/// written.
pub fn propogate_argument_changes_outwards(
    config: &Config,
    buf: &mut IdentedWriter,
    arg_name: &str,
    ty: SupportedArgumentType,
) -> (done: Result<(), MacroError>)
    ensures
        match done {
            Ok(_) => !(ty is OwnedString) && final(buf)@ == old(buf)@.write(
                propagate_text(config.indent as nat, config.access_style, arg_name@, ty),
            ),
            Err(e) => ty is OwnedString && refuses_string_argument(e) && final(buf)@ == old(buf)@,
        },
{
    let ghost start = buf@;
    let ghost indent = config.indent as nat;
    let inner = match ty {
        SupportedArgumentType::OwnedString => {
            return Err(refuse_string_argument());
        },
        SupportedArgumentType::IntegerSliceMutRef(inner) => inner,
        _ => {
            proof {
                crate::indented_write::lemma_write_empty(start);
            }
            return Ok(());
        },
    };
    let ptr_name = suffixed(arg_name, "_ptr");
    match config.access_style {
        AccessStyle::TypedArrays => {
            let view_name = suffixed(arg_name, "_view");
            let length_name = if inner.size_in_bytes() == 1 {
                suffixed(arg_name, "_byte_len")
            } else {
                suffixed(arg_name, "_len")
            };
            reconstruct_typed_array_if_memory_changed(
                config,
                buf,
                view_name.as_str(),
                ptr_name.as_str(),
                length_name.as_str(),
                inner,
            );
            let ghost renewed = reconstruct_text(indent, view_name@, ptr_name@, length_name@, inner);
            let mut test = String::from_str("if (typeof ");
            test.append(arg_name);
            test.append(".set == 'function') {");
            let mut whole = String::from_str(arg_name);
            whole.append(".set(");
            whole.append(arg_name);
            whole.append("_view);\n");
            buf.write_str(test.as_str());
            buf.indented(config.indent as u64);
            buf.write_str(whole.as_str());
            buf.dedented();
            buf.write_str("} else {");
            let ghost first = renewed + test@ + indent_text(whole@, indent, true) + "} else {"@;
            proof {
                lemma_block(start.write(renewed), test@, indent, whole@, "} else {"@);
                lemma_write_concat(
                    start,
                    renewed,
                    test@ + indent_text(whole@, indent, true) + "} else {"@,
                );
                assert(renewed + (test@ + indent_text(whole@, indent, true) + "} else {"@)
                    =~= first);
            }
            buf.indented(config.indent as u64);
            write_view_copy_back_loop(config, buf, arg_name, inner);
            buf.dedented();
            buf.write_str("}\n");
            proof {
                lemma_block(
                    start,
                    first,
                    indent,
                    view_copy_back_loop(indent, arg_name@, inner),
                    "}\n"@,
                );
                assert(first + indent_text(
                    view_copy_back_loop(indent, arg_name@, inner),
                    indent,
                    true,
                ) + "}\n"@ =~= propagate_text(indent, config.access_style, arg_name@, ty));
            }
        },
        AccessStyle::DataView => {
            write_loop_head(buf, arg_name);
            let i_name = suffixed(arg_name, "_i");
            let mut assign = String::from_str(arg_name);
            assign.append("[");
            assign.append(arg_name);
            assign.append("_i] = ");
            buf.indented(config.indent as u64);
            buf.write_str(assign.as_str());
            js_get_ith_ty_at(buf, "this._mem", inner, ptr_name.as_str(), i_name.as_str());
            buf.write_str(";\n");
            buf.dedented();
            buf.write_str("}\n");
            proof {
                let head = element_loop_head(arg_name@);
                let load = get_ith_text("this._mem"@, inner, ptr_name@, i_name@);
                let scope = start.write(head).enter(indent);
                lemma_write_concat(scope, assign@, load);
                lemma_write_concat(scope, assign@ + load, ";\n"@);
                lemma_block(start, head, indent, assign@ + load + ";\n"@, "}\n"@);
            }
        },
    }
    Ok(())
}

} // verus!
