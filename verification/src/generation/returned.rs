//! What a method does with the result of the call: read it, copy a
//! returned vector out of module memory, and free what the module handed
//! over.

use crate::error::MacroError;
use crate::generation::access::{
    get_ith_text, javascript_typed_array_for_int, js_get_ith_ty_at, typed_array_name, typed_view,
    typed_view_text, width_text,
};
use crate::indented_write::{
    indent_text, lemma_block, lemma_write_concat, lemma_write_empty, IdentedWriter, WriteExt,
};
use crate::style::{AccessStyle, Config};
use crate::text::{decimal, decimal_string};
use crate::types::{
    owned_string_type, refuses_string_result, SupportedCopyTy, SupportedRetType,
};
use crate::wire::{record_fields, record_layout, RecordField};
use vstd::prelude::*;
use vstd::string::*;

verus! {

/// The number of machine words in the record that stands for a returned
/// vector.
pub open spec fn record_words() -> nat {
    record_fields().len()
}

/// The variable that the method reads a field of the record into.
pub open spec fn record_variable(field: RecordField) -> Seq<char> {
    match field {
        RecordField::Pointer => "return_ptr"@,
        RecordField::Length => "return_len"@,
        RecordField::Capacity => "return_cap"@,
    }
}

/// The width of one machine word of the module.
pub open spec fn word_width() -> nat {
    SupportedCopyTy::USize.width()
}

/// The statements that read the three words of the record at `ptr_name`
/// into `item1`, `item2` and `item3`, in the order in which they lie in
/// memory. The typed array over the record has as many elements as the
/// record has words.
pub open spec fn read_three_text(
    style: AccessStyle,
    ptr_name: Seq<char>,
    temp_prefix: Seq<char>,
    item1: Seq<char>,
    item2: Seq<char>,
    item3: Seq<char>,
) -> Seq<char> {
    match style {
        AccessStyle::TypedArrays => "let "@ + temp_prefix + "_view = "@ + typed_view_text(
            SupportedCopyTy::USize,
            ptr_name,
            decimal(record_words()),
        ) + ";\nlet "@ + item1 + " = "@ + temp_prefix + "_view[0];\nlet "@ + item2 + " = "@
            + temp_prefix + "_view[1];\nlet "@ + item3 + " = "@ + temp_prefix + "_view[2];\n"@,
        AccessStyle::DataView => "\nlet "@ + item1 + " = this._mem.getUint32("@ + ptr_name
            + ", true);\nlet "@ + item2 + " = this._mem.getUint32("@ + ptr_name + " + "@ + decimal(
            word_width(),
        ) + ", true);\nlet "@ + item3 + " = this._mem.getUint32("@ + ptr_name + " + "@ + decimal(
            2 * word_width(),
        ) + ", true);\n"@,
    }
}

/// The release of the record itself, by its size in bytes: three words.
pub open spec fn dealloc_three_text(ptr_name: Seq<char>) -> Seq<char> {
    "this._dealloc("@ + ptr_name + ", "@ + decimal(record_words() * word_width()) + ");\n"@
}

/// The head of the loop that goes through the elements of a returned
/// vector.
pub open spec fn result_loop_head(temp_name: Seq<char>, length_name: Seq<char>) -> Seq<char> {
    "for (var "@ + temp_name + "_i = 0; "@ + temp_name + "_i < "@ + length_name + "; "@
        + temp_name + "_i++) {\n"@
}

/// The statements that make the host's array `result_name` from the
/// `length_name` elements at `ptr_name`. With typed arrays the elements are
/// copied as a whole, from a view over `length_name` elements, but for
/// booleans: those are made one by one, in a loop that runs to
/// `length_name`, from a view over their `byte_length_name` bytes. Through
/// the `DataView` every element is read on its own, in a loop that runs to
/// `length_name`.
pub open spec fn copy_array_out_text(
    indent: nat,
    style: AccessStyle,
    ptr_name: Seq<char>,
    length_name: Seq<char>,
    byte_length_name: Seq<char>,
    temp_name: Seq<char>,
    result_name: Seq<char>,
    int_ty: SupportedCopyTy,
) -> Seq<char> {
    match style {
        AccessStyle::TypedArrays => if int_ty == SupportedCopyTy::Bool {
            "let "@ + temp_name + "_view = "@ + typed_view_text(
                int_ty,
                ptr_name,
                byte_length_name,
            ) + ";\nlet "@ + result_name + " = [];\n"@ + result_loop_head(temp_name, length_name)
                + indent_text(
                result_name + ".push(Boolean("@ + temp_name + "_view["@ + temp_name + "_i]));\n"@,
                indent,
                true,
            ) + "}\n"@
        } else {
            "let "@ + result_name + " = "@ + typed_array_name(int_ty) + ".from("@
                + typed_view_text(int_ty, ptr_name, length_name) + ");\n"@
        },
        AccessStyle::DataView => "let "@ + result_name + " = [];\n"@ + result_loop_head(
            temp_name,
            length_name,
        ) + indent_text(
            result_name + ".push("@ + get_ith_text("this._mem"@, int_ty, ptr_name, temp_name + "_i"@)
                + ");\n"@,
            indent,
            true,
        ) + "}\n"@,
    }
}

/// The byte length and the byte capacity of a returned vector: its length
/// and its capacity, each times the width of an element.
pub open spec fn byte_sizes_text(int_ty: SupportedCopyTy) -> Seq<char> {
    "let return_byte_len = "@ + record_variable(RecordField::Length) + " * "@ + decimal(
        int_ty.width(),
    ) + ";\nlet return_byte_cap = "@ + record_variable(RecordField::Capacity) + " * "@ + decimal(
        int_ty.width(),
    ) + ";\n"@
}

/// The statements that make `to_var` from the raw result `from_var`. A
/// number passes as it is, a boolean is made one, and so does the absent
/// result of a function that returns nothing. For a vector the record is
/// read, each word into the variable of the field that the module has
/// written there; the sizes in bytes are computed; and as many elements are
/// copied out as the length says.
pub open spec fn read_return_text(
    indent: nat,
    style: AccessStyle,
    ty: SupportedRetType,
    from_var: Seq<char>,
    to_var: Seq<char>,
) -> Seq<char> {
    match ty {
        SupportedRetType::Unit => "let "@ + to_var + " = "@ + from_var + ";\n"@,
        SupportedRetType::Integer(inner) => if inner == SupportedCopyTy::Bool {
            "let "@ + to_var + " = Boolean("@ + from_var + ");\n"@
        } else {
            "let "@ + to_var + " = "@ + from_var + ";\n"@
        },
        SupportedRetType::IntegerVec(inner) => read_three_text(
            style,
            from_var,
            "result_temp"@,
            record_variable(record_fields()[0]),
            record_variable(record_fields()[1]),
            record_variable(record_fields()[2]),
        ) + byte_sizes_text(inner) + copy_array_out_text(
            indent,
            style,
            record_variable(RecordField::Pointer),
            record_variable(RecordField::Length),
            "return_byte_len"@,
            "return_tmp"@,
            to_var,
            inner,
        ),
        SupportedRetType::OwnedString => Seq::empty(),
    }
}

/// The release of what a returned vector occupied: its data, by the
/// capacity in bytes, and the record at `from_var`. Other results occupy
/// nothing.
pub open spec fn deallocate_return_text(from_var: Seq<char>, ty: SupportedRetType) -> Seq<char> {
    match ty {
        SupportedRetType::IntegerVec(_) => "this._dealloc("@ + record_variable(
            RecordField::Pointer,
        ) + ", return_byte_cap);\n"@ + dealloc_three_text(from_var),
        _ => Seq::empty(),
    }
}

/// The host's array of a returned vector has as many elements as the
/// vector's length says. The variable that counts them is the one that the
/// length was read into, from the word of the record where the module has
/// written it. The typed array that is copied as a whole is made over that
/// count, and the loops run up to it. The capacity takes no part. The
/// length in bytes takes part for booleans alone, one byte each, as the
/// span of the view that the loop reads from.
pub proof fn lemma_vector_is_copied_by_its_length(
    indent: nat,
    style: AccessStyle,
    inner: SupportedCopyTy,
    from_var: Seq<char>,
    to_var: Seq<char>,
)
    ensures
        record_fields()[1] == RecordField::Length,
        read_return_text(indent, style, SupportedRetType::IntegerVec(inner), from_var, to_var)
            == read_three_text(
            style,
            from_var,
            "result_temp"@,
            record_variable(record_fields()[0]),
            record_variable(RecordField::Length),
            record_variable(record_fields()[2]),
        ) + byte_sizes_text(inner) + copy_array_out_text(
            indent,
            style,
            record_variable(RecordField::Pointer),
            record_variable(RecordField::Length),
            "return_byte_len"@,
            "return_tmp"@,
            to_var,
            inner,
        ),
        style == AccessStyle::TypedArrays && inner != SupportedCopyTy::Bool ==> copy_array_out_text(
            indent,
            style,
            record_variable(RecordField::Pointer),
            record_variable(RecordField::Length),
            "return_byte_len"@,
            "return_tmp"@,
            to_var,
            inner,
        ) == "let "@ + to_var + " = "@ + typed_array_name(inner) + ".from("@ + typed_view_text(
            inner,
            record_variable(RecordField::Pointer),
            record_variable(RecordField::Length),
        ) + ");\n"@,
        style == AccessStyle::TypedArrays && inner == SupportedCopyTy::Bool ==> copy_array_out_text(
            indent,
            style,
            record_variable(RecordField::Pointer),
            record_variable(RecordField::Length),
            "return_byte_len"@,
            "return_tmp"@,
            to_var,
            inner,
        ) == "let "@ + "return_tmp"@ + "_view = "@ + typed_view_text(
            inner,
            record_variable(RecordField::Pointer),
            "return_byte_len"@,
        ) + ";\nlet "@ + to_var + " = [];\n"@ + result_loop_head(
            "return_tmp"@,
            record_variable(RecordField::Length),
        ) + indent_text(
            to_var + ".push(Boolean("@ + "return_tmp"@ + "_view["@ + "return_tmp"@ + "_i]));\n"@,
            indent,
            true,
        ) + "}\n"@,
        style == AccessStyle::DataView ==> copy_array_out_text(
            indent,
            style,
            record_variable(RecordField::Pointer),
            record_variable(RecordField::Length),
            "return_byte_len"@,
            "return_tmp"@,
            to_var,
            inner,
        ) == "let "@ + to_var + " = [];\n"@ + result_loop_head(
            "return_tmp"@,
            record_variable(RecordField::Length),
        ) + indent_text(
            to_var + ".push("@ + get_ith_text(
                "this._mem"@,
                inner,
                record_variable(RecordField::Pointer),
                "return_tmp"@ + "_i"@,
            ) + ");\n"@,
            indent,
            true,
        ) + "}\n"@,
{
}

fn refuse_string_result() -> (e: MacroError)
    ensures
        refuses_string_result(e),
{
    MacroError::UnhandledRetType { ty: owned_string_type() }
}

fn variable_for(field: RecordField) -> (name: &'static str)
    ensures
        name@ == record_variable(field),
{
    match field {
        RecordField::Pointer => "return_ptr",
        RecordField::Length => "return_len",
        RecordField::Capacity => "return_cap",
    }
}

fn record_size_text() -> (text: String)
    ensures
        text@ == decimal(record_words() * word_width()),
{
    decimal_string((3 * SupportedCopyTy::USize.size_in_bytes()) as u64)
}

/// Writes the statements that read the three words of the record at
/// `ptr_name`.
pub fn read_three_usize_array(
    config: &Config,
    buf: &mut IdentedWriter,
    ptr_name: &str,
    temp_prefix: &str,
    item1: &str,
    item2: &str,
    item3: &str,
)
    ensures
        final(buf)@ == old(buf)@.write(
            read_three_text(
                config.access_style,
                ptr_name@,
                temp_prefix@,
                item1@,
                item2@,
                item3@,
            ),
        ),
{
    match config.access_style {
        AccessStyle::TypedArrays => {
            let words = decimal_string(record_layout().len() as u64);
            let view = typed_view(SupportedCopyTy::USize, ptr_name, words.as_str());
            let mut text = String::from_str("let ");
            text.append(temp_prefix);
            text.append("_view = ");
            text.append(view.as_str());
            text.append(";\nlet ");
            text.append(item1);
            text.append(" = ");
            text.append(temp_prefix);
            text.append("_view[0];\nlet ");
            text.append(item2);
            text.append(" = ");
            text.append(temp_prefix);
            text.append("_view[1];\nlet ");
            text.append(item3);
            text.append(" = ");
            text.append(temp_prefix);
            text.append("_view[2];\n");
            buf.write_str(text.as_str());
        },
        AccessStyle::DataView => {
            let one = decimal_string(SupportedCopyTy::USize.size_in_bytes() as u64);
            let two = decimal_string((SupportedCopyTy::USize.size_in_bytes() * 2) as u64);
            let mut text = String::from_str("\nlet ");
            text.append(item1);
            text.append(" = this._mem.getUint32(");
            text.append(ptr_name);
            text.append(", true);\nlet ");
            text.append(item2);
            text.append(" = this._mem.getUint32(");
            text.append(ptr_name);
            text.append(" + ");
            text.append(one.as_str());
            text.append(", true);\nlet ");
            text.append(item3);
            text.append(" = this._mem.getUint32(");
            text.append(ptr_name);
            text.append(" + ");
            text.append(two.as_str());
            text.append(", true);\n");
            buf.write_str(text.as_str());
        },
    }
}

/// Writes the release of the record at `ptr_name`.
pub fn dealloc_three_usize_array(_config: &Config, buf: &mut IdentedWriter, ptr_name: &str)
    ensures
        final(buf)@ == old(buf)@.write(dealloc_three_text(ptr_name@)),
{
    let size = record_size_text();
    let mut text = String::from_str("this._dealloc(");
    text.append(ptr_name);
    text.append(", ");
    text.append(size.as_str());
    text.append(");\n");
    buf.write_str(text.as_str());
}

fn result_loop_head_string(temp_name: &str, length_name: &str) -> (head: String)
    ensures
        head@ == result_loop_head(temp_name@, length_name@),
{
    let mut head = String::from_str("for (var ");
    head.append(temp_name);
    head.append("_i = 0; ");
    head.append(temp_name);
    head.append("_i < ");
    head.append(length_name);
    head.append("; ");
    head.append(temp_name);
    head.append("_i++) {\n");
    head
}

/// Writes the statements that make the host's array `result_name` from the
/// elements at `ptr_name`.
pub fn copy_array_out(
    config: &Config,
    buf: &mut IdentedWriter,
    ptr_name: &str,
    length_name: &str,
    byte_length_name: &str,
    temp_name: &str,
    result_name: &str,
    int_ty: SupportedCopyTy,
)
    ensures
        final(buf)@ == old(buf)@.write(
            copy_array_out_text(
                config.indent as nat,
                config.access_style,
                ptr_name@,
                length_name@,
                byte_length_name@,
                temp_name@,
                result_name@,
                int_ty,
            ),
        ),
{
    let ghost start = buf@;
    let ghost indent = config.indent as nat;
    let head = result_loop_head_string(temp_name, length_name);
    match config.access_style {
        AccessStyle::TypedArrays => {
            match int_ty {
                SupportedCopyTy::Bool => {
                    let view = typed_view(int_ty, ptr_name, byte_length_name);
                    let mut text = String::from_str("let ");
                    text.append(temp_name);
                    text.append("_view = ");
                    text.append(view.as_str());
                    text.append(";\nlet ");
                    text.append(result_name);
                    text.append(" = [];\n");
                    text.append(head.as_str());
                    let mut push = String::from_str(result_name);
                    push.append(".push(Boolean(");
                    push.append(temp_name);
                    push.append("_view[");
                    push.append(temp_name);
                    push.append("_i]));\n");
                    buf.write_str(text.as_str());
                    buf.indented(config.indent as u64);
                    buf.write_str(push.as_str());
                    buf.dedented();
                    buf.write_str("}\n");
                    proof {
                        lemma_block(start, text@, indent, push@, "}\n"@);
                    }
                },
                _ => {
                    let mut text = String::from_str("let ");
                    text.append(result_name);
                    text.append(" = ");
                    let view = typed_view(int_ty, ptr_name, length_name);
                    text.append(javascript_typed_array_for_int(int_ty));
                    text.append(".from(");
                    text.append(view.as_str());
                    text.append(");\n");
                    buf.write_str(text.as_str());
                },
            }
        },
        AccessStyle::DataView => {
            let mut text = String::from_str("let ");
            text.append(result_name);
            text.append(" = [];\n");
            text.append(head.as_str());
            let mut push = String::from_str(result_name);
            push.append(".push(");
            let mut i_name = String::from_str(temp_name);
            i_name.append("_i");
            buf.write_str(text.as_str());
            buf.indented(config.indent as u64);
            buf.write_str(push.as_str());
            js_get_ith_ty_at(buf, "this._mem", int_ty, ptr_name, i_name.as_str());
            buf.write_str(");\n");
            buf.dedented();
            buf.write_str("}\n");
            proof {
                let load = get_ith_text("this._mem"@, int_ty, ptr_name@, i_name@);
                let scope = start.write(text@).enter(indent);
                lemma_write_concat(scope, push@, load);
                lemma_write_concat(scope, push@ + load, ");\n"@);
                lemma_block(start, text@, indent, push@ + load + ");\n"@, "}\n"@);
            }
        },
    }
}

/// Writes the statements that make `to_var` from the raw result
/// `from_var`. A `String` is refused, and nothing is written.
pub fn read_return_value_copy_into(
    config: &Config,
    buf: &mut IdentedWriter,
    ty: &SupportedRetType,
    from_var: &str,
    to_var: &str,
) -> (done: Result<(), MacroError>)
    ensures
        match done {
            Ok(_) => !(*ty is OwnedString) && final(buf)@ == old(buf)@.write(
                read_return_text(
                    config.indent as nat,
                    config.access_style,
                    *ty,
                    from_var@,
                    to_var@,
                ),
            ),
            Err(e) => *ty is OwnedString && refuses_string_result(e) && final(buf)@ == old(buf)@,
        },
{
    let ghost start = buf@;
    match *ty {
        SupportedRetType::OwnedString => {
            return Err(refuse_string_result());
        },
        SupportedRetType::Integer(SupportedCopyTy::Bool) => {
            let mut text = String::from_str("let ");
            text.append(to_var);
            text.append(" = Boolean(");
            text.append(from_var);
            text.append(");\n");
            buf.write_str(text.as_str());
        },
        SupportedRetType::Unit | SupportedRetType::Integer(_) => {
            let mut text = String::from_str("let ");
            text.append(to_var);
            text.append(" = ");
            text.append(from_var);
            text.append(";\n");
            buf.write_str(text.as_str());
        },
        SupportedRetType::IntegerVec(int_ty) => {
            let layout = record_layout();
            read_three_usize_array(
                config,
                buf,
                from_var,
                "result_temp",
                variable_for(layout[0]),
                variable_for(layout[1]),
                variable_for(layout[2]),
            );
            let width = width_text(int_ty);
            let mut sizes = String::from_str("let return_byte_len = ");
            sizes.append(variable_for(RecordField::Length));
            sizes.append(" * ");
            sizes.append(width.as_str());
            sizes.append(";\nlet return_byte_cap = ");
            sizes.append(variable_for(RecordField::Capacity));
            sizes.append(" * ");
            sizes.append(width.as_str());
            sizes.append(";\n");
            buf.write_str(sizes.as_str());
            copy_array_out(
                config,
                buf,
                variable_for(RecordField::Pointer),
                variable_for(RecordField::Length),
                "return_byte_len",
                "return_tmp",
                to_var,
                int_ty,
            );
            proof {
                let record = read_three_text(
                    config.access_style,
                    from_var@,
                    "result_temp"@,
                    record_variable(record_fields()[0]),
                    record_variable(record_fields()[1]),
                    record_variable(record_fields()[2]),
                );
                let copy = copy_array_out_text(
                    config.indent as nat,
                    config.access_style,
                    record_variable(RecordField::Pointer),
                    record_variable(RecordField::Length),
                    "return_byte_len"@,
                    "return_tmp"@,
                    to_var@,
                    int_ty,
                );
                lemma_write_concat(start, record, sizes@);
                lemma_write_concat(start, record + sizes@, copy);
            }
        },
    }
    Ok(())
}

/// Writes the release of what a returned vector occupied. A `String` is
/// refused, and nothing is written.
pub fn deallocate_return_allocation(
    config: &Config,
    buf: &mut IdentedWriter,
    from_var: &str,
    ty: &SupportedRetType,
) -> (done: Result<(), MacroError>)
    ensures
        match done {
            Ok(_) => !(*ty is OwnedString) && final(buf)@ == old(buf)@.write(
                deallocate_return_text(from_var@, *ty),
            ),
            Err(e) => *ty is OwnedString && refuses_string_result(e) && final(buf)@ == old(buf)@,
        },
{
    let ghost start = buf@;
    match *ty {
        SupportedRetType::OwnedString => Err(refuse_string_result()),
        SupportedRetType::Unit | SupportedRetType::Integer(_) => {
            proof {
                lemma_write_empty(start);
            }
            Ok(())
        },
        SupportedRetType::IntegerVec(_) => {
            let mut data = String::from_str("this._dealloc(");
            data.append(variable_for(RecordField::Pointer));
            data.append(", return_byte_cap);\n");
            buf.write_str(data.as_str());
            dealloc_three_usize_array(config, buf, from_var);
            proof {
                lemma_write_concat(start, data@, dealloc_three_text(from_var@));
            }
            Ok(())
        },
    }
}

} // verus!
