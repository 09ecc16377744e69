//! How often each piece of a generated method calls the module's allocator
//! and deallocator, as its text tells.

use crate::generation::access::{
    get_ith_text, getter_name, set_ith_text, setter_name, stored_value, typed_array_name,
    typed_view_text,
};
use crate::generation::argument::{
    allocation_text, deallocate_text, element_loop_head, element_of, prepare_text, propagate_text,
    reconstruct_text, validate_text, view_copy_back_loop, view_copy_in_text, view_count_name,
    view_element,
};
use crate::generation::calls::{
    alloc_word, allocator_calls, dealloc_word, deallocator_calls, dotless, group_sums,
    is_plain_name, lemma_plain_name, lemma_tally_dotless, lemma_tally_indent, lemma_tally_quiet,
    lemma_words, tally,
};
use crate::generation::laws::{
    allocations, buffer_count, deallocations, lemma_method_counts, step_allocations,
    step_deallocations,
};
use crate::generation::plan::{
    arg_name_text, call_arguments_text, failure_text, invoke_text, method_head, method_steps,
    method_text, parameters_text, raw_argument_text, step_text, steps_text, MethodStep,
};
use crate::generation::returned::{
    byte_sizes_text, copy_array_out_text, dealloc_three_text, deallocate_return_text,
    read_return_text, read_three_text, record_variable, record_words, result_loop_head,
    word_width,
};
use crate::indented_write::indent_text;
use crate::style::AccessStyle;
use crate::text::{decimal, is_digit, lemma_decimal_digits};
use crate::types::{SupportedArgumentType, SupportedCopyTy, SupportedRetType};
use crate::wire::{record_fields, RecordField};
use vstd::prelude::*;
use vstd::string::*;

verus! {

/// A number in decimal holds no `.`, and calls nothing.
pub proof fn lemma_decimal_dotless(n: nat)
    ensures
        dotless(decimal(n)),
        tally(decimal(n), 0, 0),
{
    lemma_decimal_digits(n);
    assert forall|k: int| 0 <= k < decimal(n).len() implies decimal(n)[k] != '.' by {
        assert(is_digit(decimal(n)[k]));
    }
    lemma_tally_dotless(decimal(n));
}

/// The name of a typed array calls nothing.
proof fn lemma_typed_array(ty: SupportedCopyTy)
    ensures
        tally(typed_array_name(ty), 0, 0),
{
    broadcast use group_sums;
    lemma_words();
    reveal_strlit("Float32Array");
    reveal_strlit("Float64Array");
    reveal_strlit("Int16Array");
    reveal_strlit("Int32Array");
    reveal_strlit("Int8Array");
    reveal_strlit("Uint16Array");
    reveal_strlit("Uint32Array");
    reveal_strlit("Uint8Array");
    lemma_tally_dotless(typed_array_name(ty));
}

/// A typed array over elements in module memory calls nothing.
proof fn lemma_typed_view(ty: SupportedCopyTy, ptr_name: Seq<char>, count_name: Seq<char>)
    requires
        tally(ptr_name, 0, 0),
        tally(count_name, 0, 0),
    ensures
        tally(typed_view_text(ty, ptr_name, count_name), 0, 0),
{
    broadcast use group_sums;
    lemma_words();
    lemma_typed_array(ty);
    assert(tally("new "@, 0, 0)) by {
        reveal_strlit("new ");
        lemma_tally_dotless("new "@);
    }
    assert(tally("(this._mem.buffer, "@, 0, 0)) by {
        reveal_strlit("(this._mem.buffer, ");
        lemma_tally_quiet("(this._mem.buffer, "@);
    }
    assert(tally(", "@, 0, 0)) by {
        reveal_strlit(", ");
        lemma_tally_dotless(", "@);
    }
    assert(tally(")"@, 0, 0)) by {
        reveal_strlit(")");
        lemma_tally_dotless(")"@);
    }
}

/// Reaching for a method of the `DataView` calls nothing.
proof fn lemma_dot_getter_name(ty: SupportedCopyTy)
    ensures
        tally("."@ + getter_name(ty), 0, 0),
{
    broadcast use group_sums;
    lemma_words();
    reveal_strlit(".");
    reveal_strlit("getFloat32");
    reveal_strlit("getFloat64");
    reveal_strlit("getInt16");
    reveal_strlit("getInt32");
    reveal_strlit("getInt8");
    reveal_strlit("getUint16");
    reveal_strlit("getUint32");
    reveal_strlit("getUint8");
    lemma_tally_quiet("."@ + getter_name(ty));
}

/// Reaching for a method of the `DataView` calls nothing.
proof fn lemma_dot_setter_name(ty: SupportedCopyTy)
    ensures
        tally("."@ + setter_name(ty), 0, 0),
{
    broadcast use group_sums;
    lemma_words();
    reveal_strlit(".");
    reveal_strlit("setFloat32");
    reveal_strlit("setFloat64");
    reveal_strlit("setInt16");
    reveal_strlit("setInt32");
    reveal_strlit("setInt8");
    reveal_strlit("setUint16");
    reveal_strlit("setUint32");
    reveal_strlit("setUint8");
    lemma_tally_quiet("."@ + setter_name(ty));
}

/// A value as it is stored calls what the value calls.
proof fn lemma_stored_value(ty: SupportedCopyTy, value: Seq<char>)
    requires
        tally(value, 0, 0),
    ensures
        tally(stored_value(ty, value), 0, 0),
{
    broadcast use group_sums;
    lemma_words();
    if ty == SupportedCopyTy::Bool {
        assert(tally("Boolean("@, 0, 0)) by {
            reveal_strlit("Boolean(");
            lemma_tally_dotless("Boolean("@);
        }
        assert(tally(")"@, 0, 0)) by {
            reveal_strlit(")");
            lemma_tally_dotless(")"@);
        }
    }
}

/// The statement that stores one element calls nothing.
proof fn lemma_set_ith(
    data_view_name: Seq<char>,
    ty: SupportedCopyTy,
    ptr_name: Seq<char>,
    i_name: Seq<char>,
    value: Seq<char>,
)
    requires
        tally(data_view_name, 0, 0),
        tally(ptr_name, 0, 0),
        tally(i_name, 0, 0),
        tally(value, 0, 0),
    ensures
        tally(set_ith_text(data_view_name, ty, ptr_name, i_name, value), 0, 0),
{
    broadcast use group_sums;
    lemma_words();
    lemma_dot_setter_name(ty);
    lemma_stored_value(ty, value);
    lemma_decimal_dotless(ty.width());
    let reach = "."@ + setter_name(ty);
    assert(tally("("@, 0, 0)) by {
        reveal_strlit("(");
        lemma_tally_dotless("("@);
    }
    assert(tally(" + "@, 0, 0)) by {
        reveal_strlit(" + ");
        lemma_tally_dotless(" + "@);
    }
    assert(tally(" * "@, 0, 0)) by {
        reveal_strlit(" * ");
        lemma_tally_dotless(" * "@);
    }
    assert(tally(", "@, 0, 0)) by {
        reveal_strlit(", ");
        lemma_tally_dotless(", "@);
    }
    assert(tally(", true);\n"@, 0, 0)) by {
        reveal_strlit(", true);\n");
        lemma_tally_dotless(", true);\n"@);
    }
    assert(
        data_view_name + reach + "("@ + ptr_name + " + "@ + decimal(ty.width()) + " * "@
        + i_name + ", "@ + stored_value(ty, value) + ", true);\n"@
            =~= set_ith_text(data_view_name, ty, ptr_name, i_name, value)
    );
}

/// The expression that loads one element calls nothing.
proof fn lemma_get_ith(
    data_view_name: Seq<char>,
    ty: SupportedCopyTy,
    ptr_name: Seq<char>,
    i_name: Seq<char>,
)
    requires
        tally(data_view_name, 0, 0),
        tally(ptr_name, 0, 0),
        tally(i_name, 0, 0),
    ensures
        tally(get_ith_text(data_view_name, ty, ptr_name, i_name), 0, 0),
{
    broadcast use group_sums;
    lemma_words();
    lemma_dot_getter_name(ty);
    lemma_decimal_dotless(ty.width());
    let reach = "."@ + getter_name(ty);
    if ty == SupportedCopyTy::Bool {
        assert(tally("Boolean("@, 0, 0)) by {
            reveal_strlit("Boolean(");
            lemma_tally_dotless("Boolean("@);
        }
        assert(tally("("@, 0, 0)) by {
            reveal_strlit("(");
            lemma_tally_dotless("("@);
        }
        assert(tally(" + "@, 0, 0)) by {
            reveal_strlit(" + ");
            lemma_tally_dotless(" + "@);
        }
        assert(tally(" * "@, 0, 0)) by {
            reveal_strlit(" * ");
            lemma_tally_dotless(" * "@);
        }
        assert(tally(", true))"@, 0, 0)) by {
            reveal_strlit(", true))");
            lemma_tally_dotless(", true))"@);
        }
        assert(
            "Boolean("@ + data_view_name + reach + "("@ + ptr_name + " + "@
            + decimal(ty.width()) + " * "@ + i_name + ", true))"@
                =~= get_ith_text(data_view_name, ty, ptr_name, i_name)
        );
    } else {
        assert(tally("("@, 0, 0)) by {
            reveal_strlit("(");
            lemma_tally_dotless("("@);
        }
        assert(tally(" + "@, 0, 0)) by {
            reveal_strlit(" + ");
            lemma_tally_dotless(" + "@);
        }
        assert(tally(" * "@, 0, 0)) by {
            reveal_strlit(" * ");
            lemma_tally_dotless(" * "@);
        }
        assert(tally(", true)"@, 0, 0)) by {
            reveal_strlit(", true)");
            lemma_tally_dotless(", true)"@);
        }
        assert(
            data_view_name + reach + "("@ + ptr_name + " + "@ + decimal(ty.width()) + " * "@
            + i_name + ", true)"@
                =~= get_ith_text(data_view_name, ty, ptr_name, i_name)
        );
    }
}

/// The variables that belong to an argument, and the memory, call nothing.
proof fn lemma_variables(arg_name: Seq<char>)
    requires
        dotless(arg_name),
    ensures
        tally(arg_name, 0, 0),
        tally(arg_name + "_ptr"@, 0, 0),
        tally(arg_name + "_i"@, 0, 0),
        tally(arg_name + "_view"@, 0, 0),
        tally(arg_name + "_len"@, 0, 0),
        tally(arg_name + "_byte_len"@, 0, 0),
        tally(arg_name + "["@ + arg_name + "_i]"@, 0, 0),
        tally("this._mem"@, 0, 0),
{
    broadcast use group_sums;
    lemma_words();
    assert(tally("_ptr"@, 0, 0)) by {
        reveal_strlit("_ptr");
        lemma_tally_dotless("_ptr"@);
    }
    assert(tally("_i"@, 0, 0)) by {
        reveal_strlit("_i");
        lemma_tally_dotless("_i"@);
    }
    assert(tally("_view"@, 0, 0)) by {
        reveal_strlit("_view");
        lemma_tally_dotless("_view"@);
    }
    assert(tally("_len"@, 0, 0)) by {
        reveal_strlit("_len");
        lemma_tally_dotless("_len"@);
    }
    assert(tally("_byte_len"@, 0, 0)) by {
        reveal_strlit("_byte_len");
        lemma_tally_dotless("_byte_len"@);
    }
    assert(tally("this._mem"@, 0, 0)) by {
        reveal_strlit("this._mem");
        lemma_tally_quiet("this._mem"@);
    }
    lemma_tally_dotless(arg_name);
    assert(tally("["@, 0, 0)) by {
        reveal_strlit("[");
        lemma_tally_dotless("["@);
    }
    assert(tally("_i]"@, 0, 0)) by {
        reveal_strlit("_i]");
        lemma_tally_dotless("_i]"@);
    }
}

/// The validation of an argument calls nothing.
proof fn lemma_validate(
    indent: nat,
    arg_name: Seq<char>,
    ty: SupportedArgumentType,
    failure: Seq<char>,
)
    requires
        dotless(arg_name),
        tally(failure, 0, 0),
    ensures
        tally(validate_text(indent, arg_name, ty, failure), 0, 0),
{
    broadcast use group_sums;
    lemma_words();
    lemma_tally_dotless(arg_name);
    assert(tally("\n"@, 0, 0)) by {
        reveal_strlit("\n");
        lemma_tally_dotless("\n"@);
    }
    lemma_tally_indent(failure + "\n"@, indent, true, 0, 0);
    let thrown = indent_text(failure + "\n"@, indent, true);
    if ty.is_buffer() {
        assert(tally("if ("@, 0, 0)) by {
            reveal_strlit("if (");
            lemma_tally_dotless("if ("@);
        }
        assert(tally(" == null || isNaN("@, 0, 0)) by {
            reveal_strlit(" == null || isNaN(");
            lemma_tally_dotless(" == null || isNaN("@);
        }
        assert(tally(".length)) {\n"@, 0, 0)) by {
            reveal_strlit(".length)) {\n");
            lemma_tally_quiet(".length)) {\n"@);
        }
        assert(tally("}\n"@, 0, 0)) by {
            reveal_strlit("}\n");
            lemma_tally_dotless("}\n"@);
        }
    } else if ty is Integer {
        assert(tally("if (isNaN("@, 0, 0)) by {
            reveal_strlit("if (isNaN(");
            lemma_tally_dotless("if (isNaN("@);
        }
        assert(tally(")) {\n"@, 0, 0)) by {
            reveal_strlit(")) {\n");
            lemma_tally_dotless(")) {\n"@);
        }
        assert(tally("}\n"@, 0, 0)) by {
            reveal_strlit("}\n");
            lemma_tally_dotless("}\n"@);
        }
    }
}

/// The request for a buffer calls the allocator once.
proof fn lemma_allocation(arg_name: Seq<char>, inner: SupportedCopyTy)
    requires
        dotless(arg_name),
    ensures
        tally(allocation_text(arg_name, inner), 1, 0),
{
    broadcast use group_sums;
    lemma_words();
    lemma_tally_dotless(arg_name);
    lemma_decimal_dotless(inner.width());
    assert(tally("let "@, 0, 0)) by {
        reveal_strlit("let ");
        lemma_tally_dotless("let "@);
    }
    assert(tally("_len = "@, 0, 0)) by {
        reveal_strlit("_len = ");
        lemma_tally_dotless("_len = "@);
    }
    assert(tally(".length;\nlet "@, 0, 0)) by {
        reveal_strlit(".length;\nlet ");
        lemma_tally_quiet(".length;\nlet "@);
    }
    assert(tally("_byte_len = "@, 0, 0)) by {
        reveal_strlit("_byte_len = ");
        lemma_tally_dotless("_byte_len = "@);
    }
    assert(tally("_len * "@, 0, 0)) by {
        reveal_strlit("_len * ");
        lemma_tally_dotless("_len * "@);
    }
    assert(tally(";\nlet "@, 0, 0)) by {
        reveal_strlit(";\nlet ");
        lemma_tally_dotless(";\nlet "@);
    }
    assert(tally("_ptr = this._alloc("@, 1, 0)) by {
        reveal_strlit("_ptr = this._alloc(");
        reveal_strlit("_ptr = this");
        reveal_strlit("._alloc(");
        lemma_tally_dotless("_ptr = this"@);
        assert("_ptr = this._alloc("@ =~= "_ptr = this"@ + alloc_word());
    }
    assert(tally("_byte_len);\n"@, 0, 0)) by {
        reveal_strlit("_byte_len);\n");
        lemma_tally_dotless("_byte_len);\n"@);
    }
}

/// The copy through a typed array calls nothing.
proof fn lemma_view_copy_in(arg_name: Seq<char>, inner: SupportedCopyTy)
    requires
        dotless(arg_name),
    ensures
        tally(view_copy_in_text(arg_name, inner), 0, 0),
{
    broadcast use group_sums;
    lemma_words();
    lemma_variables(arg_name);
    lemma_typed_view(inner, arg_name + "_ptr"@, arg_name + "_len"@);
    assert(tally("let "@, 0, 0)) by {
        reveal_strlit("let ");
        lemma_tally_dotless("let "@);
    }
    assert(tally("_view = "@, 0, 0)) by {
        reveal_strlit("_view = ");
        lemma_tally_dotless("_view = "@);
    }
    assert(tally(";\n"@, 0, 0)) by {
        reveal_strlit(";\n");
        lemma_tally_dotless(";\n"@);
    }
    assert(tally("_view.set("@, 0, 0)) by {
        reveal_strlit("_view.set(");
        lemma_tally_quiet("_view.set("@);
    }
    assert(tally(");\n"@, 0, 0)) by {
        reveal_strlit(");\n");
        lemma_tally_dotless(");\n"@);
    }
}

/// The head of a loop calls nothing.
proof fn lemma_loop_head(arg_name: Seq<char>)
    requires
        dotless(arg_name),
    ensures
        tally(element_loop_head(arg_name), 0, 0),
{
    broadcast use group_sums;
    lemma_words();
    lemma_tally_dotless(arg_name);
    assert(tally("for (var "@, 0, 0)) by {
        reveal_strlit("for (var ");
        lemma_tally_dotless("for (var "@);
    }
    assert(tally("_i = 0; "@, 0, 0)) by {
        reveal_strlit("_i = 0; ");
        lemma_tally_dotless("_i = 0; "@);
    }
    assert(tally("_i < "@, 0, 0)) by {
        reveal_strlit("_i < ");
        lemma_tally_dotless("_i < "@);
    }
    assert(tally("_len; "@, 0, 0)) by {
        reveal_strlit("_len; ");
        lemma_tally_dotless("_len; "@);
    }
    assert(tally("_i++) {\n"@, 0, 0)) by {
        reveal_strlit("_i++) {\n");
        lemma_tally_dotless("_i++) {\n"@);
    }
}

/// Allocation and copy-in call the allocator once for a buffer, and never
/// for anything else.
proof fn lemma_prepare(
    indent: nat,
    style: AccessStyle,
    arg_name: Seq<char>,
    ty: SupportedArgumentType,
)
    requires
        dotless(arg_name),
    ensures
        tally(
            prepare_text(indent, style, arg_name, ty),
            if ty.is_buffer() {
                1
            } else {
                0
            },
            0,
        ),
{
    broadcast use group_sums;
    lemma_words();
    if ty.is_buffer() {
        let inner = element_of(ty);
        lemma_allocation(arg_name, inner);
        match style {
            AccessStyle::TypedArrays => {
                lemma_view_copy_in(arg_name, inner);
            },
            AccessStyle::DataView => {
                lemma_variables(arg_name);
                lemma_loop_head(arg_name);
                let store = set_ith_text(
                    "this._mem"@,
                    inner,
                    arg_name + "_ptr"@,
                    arg_name + "_i"@,
                    arg_name + "["@ + arg_name + "_i]"@,
                );
                lemma_set_ith(
                    "this._mem"@,
                    inner,
                    arg_name + "_ptr"@,
                    arg_name + "_i"@,
                    arg_name + "["@ + arg_name + "_i]"@,
                );
                lemma_tally_indent(store, indent, true, 0, 0);
                assert(tally("this._check_mem_realloc();\n"@, 0, 0)) by {
                    reveal_strlit("this._check_mem_realloc();\n");
                    lemma_tally_quiet("this._check_mem_realloc();\n"@);
                }
                assert(tally("}\n"@, 0, 0)) by {
                    reveal_strlit("}\n");
                    lemma_tally_dotless("}\n"@);
                }
            },
        }
    }
}

/// The release of an argument calls the deallocator once for a buffer, and
/// never for anything else.
proof fn lemma_deallocate(arg_name: Seq<char>, ty: SupportedArgumentType)
    requires
        dotless(arg_name),
    ensures
        tally(
            deallocate_text(arg_name, ty),
            0,
            if ty.is_buffer() {
                1
            } else {
                0
            },
        ),
{
    broadcast use group_sums;
    lemma_words();
    if ty.is_buffer() {
        lemma_tally_dotless(arg_name);
        assert(tally("this._dealloc("@, 0, 1)) by {
            reveal_strlit("this._dealloc(");
            reveal_strlit("this");
            reveal_strlit("._dealloc(");
            lemma_tally_dotless("this"@);
            assert("this._dealloc("@ =~= "this"@ + dealloc_word());
        }
        assert(tally("_ptr, "@, 0, 0)) by {
            reveal_strlit("_ptr, ");
            lemma_tally_dotless("_ptr, "@);
        }
        assert(tally("_byte_len);\n"@, 0, 0)) by {
            reveal_strlit("_byte_len);\n");
            lemma_tally_dotless("_byte_len);\n"@);
        }
    }
}

/// The renewal of a typed array calls nothing.
proof fn lemma_reconstruct(
    indent: nat,
    view_name: Seq<char>,
    ptr_name: Seq<char>,
    length_name: Seq<char>,
    ty: SupportedCopyTy,
)
    requires
        tally(view_name, 0, 0),
        tally(ptr_name, 0, 0),
        tally(length_name, 0, 0),
    ensures
        tally(reconstruct_text(indent, view_name, ptr_name, length_name, ty), 0, 0),
{
    broadcast use group_sums;
    lemma_words();
    lemma_typed_view(ty, ptr_name, length_name);
    assert(tally(" = "@, 0, 0)) by {
        reveal_strlit(" = ");
        lemma_tally_dotless(" = "@);
    }
    assert(tally(";\n"@, 0, 0)) by {
        reveal_strlit(";\n");
        lemma_tally_dotless(";\n"@);
    }
    let renew = view_name + " = "@ + typed_view_text(ty, ptr_name, length_name) + ";\n"@;
    lemma_tally_indent(renew, indent, true, 0, 0);
    assert(tally("if ("@, 0, 0)) by {
        reveal_strlit("if (");
        lemma_tally_dotless("if ("@);
    }
    assert(tally(".buffer.byteLength != this._mem.buffer.byteLength) {\n"@, 0, 0)) by {
        reveal_strlit(".buffer.byteLength != this._mem.buffer.byteLength) {\n");
        lemma_tally_quiet(".buffer.byteLength != this._mem.buffer.byteLength) {\n"@);
    }
    assert(tally("}\n"@, 0, 0)) by {
        reveal_strlit("}\n");
        lemma_tally_dotless("}\n"@);
    }
}

/// An element of a typed array calls nothing.
proof fn lemma_view_element(arg_name: Seq<char>, inner: SupportedCopyTy)
    requires
        dotless(arg_name),
    ensures
        tally(view_element(arg_name, inner), 0, 0),
{
    broadcast use group_sums;
    lemma_words();
    lemma_tally_dotless(arg_name);
    if inner == SupportedCopyTy::Bool {
        assert(tally("Boolean("@, 0, 0)) by {
            reveal_strlit("Boolean(");
            lemma_tally_dotless("Boolean("@);
        }
        assert(tally("_view["@, 0, 0)) by {
            reveal_strlit("_view[");
            lemma_tally_dotless("_view["@);
        }
        assert(tally("_i])"@, 0, 0)) by {
            reveal_strlit("_i])");
            lemma_tally_dotless("_i])"@);
        }
    } else {
        assert(tally("_view["@, 0, 0)) by {
            reveal_strlit("_view[");
            lemma_tally_dotless("_view["@);
        }
        assert(tally("_i]"@, 0, 0)) by {
            reveal_strlit("_i]");
            lemma_tally_dotless("_i]"@);
        }
    }
}

/// The loop that copies back from a typed array calls nothing.
proof fn lemma_view_copy_back_loop(indent: nat, arg_name: Seq<char>, inner: SupportedCopyTy)
    requires
        dotless(arg_name),
    ensures
        tally(view_copy_back_loop(indent, arg_name, inner), 0, 0),
{
    broadcast use group_sums;
    lemma_words();
    lemma_tally_dotless(arg_name);
    lemma_loop_head(arg_name);
    lemma_view_element(arg_name, inner);
    assert(tally("["@, 0, 0)) by {
        reveal_strlit("[");
        lemma_tally_dotless("["@);
    }
    assert(tally("_i] = "@, 0, 0)) by {
        reveal_strlit("_i] = ");
        lemma_tally_dotless("_i] = "@);
    }
    assert(tally(";\n"@, 0, 0)) by {
        reveal_strlit(";\n");
        lemma_tally_dotless(";\n"@);
    }
    let assign = arg_name + "["@ + arg_name + "_i] = "@ + view_element(arg_name, inner) + ";\n"@;
    lemma_tally_indent(assign, indent, true, 0, 0);
    assert(tally("}\n"@, 0, 0)) by {
        reveal_strlit("}\n");
        lemma_tally_dotless("}\n"@);
    }
}

/// The copy back into the host's array calls nothing.
proof fn lemma_propagate(
    indent: nat,
    style: AccessStyle,
    arg_name: Seq<char>,
    ty: SupportedArgumentType,
)
    requires
        dotless(arg_name),
    ensures
        tally(propagate_text(indent, style, arg_name, ty), 0, 0),
{
    broadcast use group_sums;
    lemma_words();
    lemma_variables(arg_name);
    match ty {
        SupportedArgumentType::IntegerSliceMutRef(inner) => match style {
            AccessStyle::TypedArrays => {
                let renewed = reconstruct_text(
                    indent,
                    arg_name + "_view"@,
                    arg_name + "_ptr"@,
                    view_count_name(arg_name, inner),
                    inner,
                );
                lemma_reconstruct(
                    indent,
                    arg_name + "_view"@,
                    arg_name + "_ptr"@,
                    view_count_name(arg_name, inner),
                    inner,
                );
                assert(tally(".set("@, 0, 0)) by {
                    reveal_strlit(".set(");
                    lemma_tally_quiet(".set("@);
                }
                assert(tally("_view);\n"@, 0, 0)) by {
                    reveal_strlit("_view);\n");
                    lemma_tally_dotless("_view);\n"@);
                }
                let whole = arg_name + ".set("@ + arg_name + "_view);\n"@;
                lemma_tally_indent(whole, indent, true, 0, 0);
                let by_element = view_copy_back_loop(indent, arg_name, inner);
                lemma_view_copy_back_loop(indent, arg_name, inner);
                lemma_tally_indent(by_element, indent, true, 0, 0);
                assert(tally("if (typeof "@, 0, 0)) by {
                    reveal_strlit("if (typeof ");
                    lemma_tally_dotless("if (typeof "@);
                }
                assert(tally(".set == 'function') {"@, 0, 0)) by {
                    reveal_strlit(".set == 'function') {");
                    lemma_tally_quiet(".set == 'function') {"@);
                }
                assert(tally("} else {"@, 0, 0)) by {
                    reveal_strlit("} else {");
                    lemma_tally_dotless("} else {"@);
                }
                assert(tally("}\n"@, 0, 0)) by {
                    reveal_strlit("}\n");
                    lemma_tally_dotless("}\n"@);
                }
            },
            AccessStyle::DataView => {
                lemma_loop_head(arg_name);
                let load = get_ith_text("this._mem"@, inner, arg_name + "_ptr"@, arg_name + "_i"@);
                lemma_get_ith("this._mem"@, inner, arg_name + "_ptr"@, arg_name + "_i"@);
                assert(tally("["@, 0, 0)) by {
                    reveal_strlit("[");
                    lemma_tally_dotless("["@);
                }
                assert(tally("_i] = "@, 0, 0)) by {
                    reveal_strlit("_i] = ");
                    lemma_tally_dotless("_i] = "@);
                }
                assert(tally(";\n"@, 0, 0)) by {
                    reveal_strlit(";\n");
                    lemma_tally_dotless(";\n"@);
                }
                let assign = arg_name + "["@ + arg_name + "_i] = "@ + load + ";\n"@;
                lemma_tally_indent(assign, indent, true, 0, 0);
                assert(tally("}\n"@, 0, 0)) by {
                    reveal_strlit("}\n");
                    lemma_tally_dotless("}\n"@);
                }
            },
        },
        _ => {},
    }
}

/// Reading the record calls nothing.
proof fn lemma_read_three(
    style: AccessStyle,
    ptr_name: Seq<char>,
    temp_prefix: Seq<char>,
    item1: Seq<char>,
    item2: Seq<char>,
    item3: Seq<char>,
)
    requires
        tally(ptr_name, 0, 0),
        tally(temp_prefix, 0, 0),
        tally(item1, 0, 0),
        tally(item2, 0, 0),
        tally(item3, 0, 0),
    ensures
        tally(read_three_text(style, ptr_name, temp_prefix, item1, item2, item3), 0, 0),
{
    broadcast use group_sums;
    lemma_words();
    lemma_decimal_dotless(record_words());
    lemma_typed_view(SupportedCopyTy::USize, ptr_name, decimal(record_words()));
    lemma_decimal_dotless(word_width());
    lemma_decimal_dotless(2 * word_width());
    match style {
        AccessStyle::TypedArrays => {
            assert(tally("let "@, 0, 0)) by {
                reveal_strlit("let ");
                lemma_tally_dotless("let "@);
            }
            assert(tally("_view = "@, 0, 0)) by {
                reveal_strlit("_view = ");
                lemma_tally_dotless("_view = "@);
            }
            assert(tally(";\nlet "@, 0, 0)) by {
                reveal_strlit(";\nlet ");
                lemma_tally_dotless(";\nlet "@);
            }
            assert(tally(" = "@, 0, 0)) by {
                reveal_strlit(" = ");
                lemma_tally_dotless(" = "@);
            }
            assert(tally("_view[0];\nlet "@, 0, 0)) by {
                reveal_strlit("_view[0];\nlet ");
                lemma_tally_dotless("_view[0];\nlet "@);
            }
            assert(tally("_view[1];\nlet "@, 0, 0)) by {
                reveal_strlit("_view[1];\nlet ");
                lemma_tally_dotless("_view[1];\nlet "@);
            }
            assert(tally("_view[2];\n"@, 0, 0)) by {
                reveal_strlit("_view[2];\n");
                lemma_tally_dotless("_view[2];\n"@);
            }
        },
        AccessStyle::DataView => {
            assert(tally("\nlet "@, 0, 0)) by {
                reveal_strlit("\nlet ");
                lemma_tally_dotless("\nlet "@);
            }
            assert(tally(" = this._mem.getUint32("@, 0, 0)) by {
                reveal_strlit(" = this._mem.getUint32(");
                lemma_tally_quiet(" = this._mem.getUint32("@);
            }
            assert(tally(", true);\nlet "@, 0, 0)) by {
                reveal_strlit(", true);\nlet ");
                lemma_tally_dotless(", true);\nlet "@);
            }
            assert(tally(" + "@, 0, 0)) by {
                reveal_strlit(" + ");
                lemma_tally_dotless(" + "@);
            }
            assert(tally(", true);\n"@, 0, 0)) by {
                reveal_strlit(", true);\n");
                lemma_tally_dotless(", true);\n"@);
            }
        },
    }
}

/// The release of the record calls the deallocator once.
proof fn lemma_dealloc_three(ptr_name: Seq<char>)
    requires
        tally(ptr_name, 0, 0),
    ensures
        tally(dealloc_three_text(ptr_name), 0, 1),
{
    broadcast use group_sums;
    lemma_words();
    lemma_decimal_dotless(record_words() * word_width());
    assert(tally("this._dealloc("@, 0, 1)) by {
        reveal_strlit("this._dealloc(");
        reveal_strlit("this");
        reveal_strlit("._dealloc(");
        lemma_tally_dotless("this"@);
        assert("this._dealloc("@ =~= "this"@ + dealloc_word());
    }
    assert(tally(", "@, 0, 0)) by {
        reveal_strlit(", ");
        lemma_tally_dotless(", "@);
    }
    assert(tally(");\n"@, 0, 0)) by {
        reveal_strlit(");\n");
        lemma_tally_dotless(");\n"@);
    }
}

/// The head of the loop over a result calls nothing.
proof fn lemma_result_loop_head(temp_name: Seq<char>, length_name: Seq<char>)
    requires
        tally(temp_name, 0, 0),
        tally(length_name, 0, 0),
    ensures
        tally(result_loop_head(temp_name, length_name), 0, 0),
{
    broadcast use group_sums;
    lemma_words();
    assert(tally("for (var "@, 0, 0)) by {
        reveal_strlit("for (var ");
        lemma_tally_dotless("for (var "@);
    }
    assert(tally("_i = 0; "@, 0, 0)) by {
        reveal_strlit("_i = 0; ");
        lemma_tally_dotless("_i = 0; "@);
    }
    assert(tally("_i < "@, 0, 0)) by {
        reveal_strlit("_i < ");
        lemma_tally_dotless("_i < "@);
    }
    assert(tally("; "@, 0, 0)) by {
        reveal_strlit("; ");
        lemma_tally_dotless("; "@);
    }
    assert(tally("_i++) {\n"@, 0, 0)) by {
        reveal_strlit("_i++) {\n");
        lemma_tally_dotless("_i++) {\n"@);
    }
}

/// Copying a returned vector out calls nothing.
proof fn lemma_copy_array_out(
    indent: nat,
    style: AccessStyle,
    ptr_name: Seq<char>,
    length_name: Seq<char>,
    byte_length_name: Seq<char>,
    temp_name: Seq<char>,
    result_name: Seq<char>,
    int_ty: SupportedCopyTy,
)
    requires
        tally(ptr_name, 0, 0),
        tally(length_name, 0, 0),
        tally(byte_length_name, 0, 0),
        tally(temp_name, 0, 0),
        tally(result_name, 0, 0),
    ensures
        tally(
            copy_array_out_text(
                indent,
                style,
                ptr_name,
                length_name,
                byte_length_name,
                temp_name,
                result_name,
                int_ty,
            ),
            0,
            0,
        ),
{
    broadcast use group_sums;
    lemma_words();
    lemma_typed_array(int_ty);
    lemma_typed_view(int_ty, ptr_name, length_name);
    lemma_typed_view(int_ty, ptr_name, byte_length_name);
    lemma_result_loop_head(temp_name, length_name);
    match style {
        AccessStyle::TypedArrays => {
            if int_ty == SupportedCopyTy::Bool {
                assert(tally(".push(Boolean("@, 0, 0)) by {
                    reveal_strlit(".push(Boolean(");
                    lemma_tally_quiet(".push(Boolean("@);
                }
                assert(tally("_view["@, 0, 0)) by {
                    reveal_strlit("_view[");
                    lemma_tally_dotless("_view["@);
                }
                assert(tally("_i]));\n"@, 0, 0)) by {
                    reveal_strlit("_i]));\n");
                    lemma_tally_dotless("_i]));\n"@);
                }
                let push = result_name + ".push(Boolean("@ + temp_name + "_view["@ + temp_name
                    + "_i]));\n"@;
                lemma_tally_indent(push, indent, true, 0, 0);
                assert(tally("let "@, 0, 0)) by {
                    reveal_strlit("let ");
                    lemma_tally_dotless("let "@);
                }
                assert(tally("_view = "@, 0, 0)) by {
                    reveal_strlit("_view = ");
                    lemma_tally_dotless("_view = "@);
                }
                assert(tally(";\nlet "@, 0, 0)) by {
                    reveal_strlit(";\nlet ");
                    lemma_tally_dotless(";\nlet "@);
                }
                assert(tally(" = [];\n"@, 0, 0)) by {
                    reveal_strlit(" = [];\n");
                    lemma_tally_dotless(" = [];\n"@);
                }
                assert(tally("}\n"@, 0, 0)) by {
                    reveal_strlit("}\n");
                    lemma_tally_dotless("}\n"@);
                }
            } else {
                assert(tally("let "@, 0, 0)) by {
                    reveal_strlit("let ");
                    lemma_tally_dotless("let "@);
                }
                assert(tally(" = "@, 0, 0)) by {
                    reveal_strlit(" = ");
                    lemma_tally_dotless(" = "@);
                }
                assert(tally(".from("@, 0, 0)) by {
                    reveal_strlit(".from(");
                    lemma_tally_quiet(".from("@);
                }
                assert(tally(");\n"@, 0, 0)) by {
                    reveal_strlit(");\n");
                    lemma_tally_dotless(");\n"@);
                }
            }
        },
        AccessStyle::DataView => {
            assert(tally("_i"@, 0, 0)) by {
                reveal_strlit("_i");
                lemma_tally_dotless("_i"@);
            }
            assert(tally("this._mem"@, 0, 0)) by {
                reveal_strlit("this._mem");
                lemma_tally_quiet("this._mem"@);
            }
            let load = get_ith_text("this._mem"@, int_ty, ptr_name, temp_name + "_i"@);
            lemma_get_ith("this._mem"@, int_ty, ptr_name, temp_name + "_i"@);
            assert(tally(".push("@, 0, 0)) by {
                reveal_strlit(".push(");
                lemma_tally_quiet(".push("@);
            }
            assert(tally(");\n"@, 0, 0)) by {
                reveal_strlit(");\n");
                lemma_tally_dotless(");\n"@);
            }
            let push = result_name + ".push("@ + load + ");\n"@;
            lemma_tally_indent(push, indent, true, 0, 0);
            assert(tally("let "@, 0, 0)) by {
                reveal_strlit("let ");
                lemma_tally_dotless("let "@);
            }
            assert(tally(" = [];\n"@, 0, 0)) by {
                reveal_strlit(" = [];\n");
                lemma_tally_dotless(" = [];\n"@);
            }
            assert(tally("}\n"@, 0, 0)) by {
                reveal_strlit("}\n");
                lemma_tally_dotless("}\n"@);
            }
        },
    }
}

/// The variables of the record call nothing.
proof fn lemma_record_variable(field: RecordField)
    ensures
        tally(record_variable(field), 0, 0),
{
    broadcast use group_sums;
    lemma_words();
    reveal_strlit("return_ptr");
    reveal_strlit("return_len");
    reveal_strlit("return_cap");
    lemma_tally_dotless(record_variable(field));
}

/// Computing the sizes in bytes calls nothing.
proof fn lemma_byte_sizes(int_ty: SupportedCopyTy)
    ensures
        tally(byte_sizes_text(int_ty), 0, 0),
{
    broadcast use group_sums;
    lemma_words();
    lemma_record_variable(RecordField::Length);
    lemma_record_variable(RecordField::Capacity);
    lemma_decimal_dotless(int_ty.width());
    assert(tally("let return_byte_len = "@, 0, 0)) by {
        reveal_strlit("let return_byte_len = ");
        lemma_tally_dotless("let return_byte_len = "@);
    }
    assert(tally(" * "@, 0, 0)) by {
        reveal_strlit(" * ");
        lemma_tally_dotless(" * "@);
    }
    assert(tally(";\nlet return_byte_cap = "@, 0, 0)) by {
        reveal_strlit(";\nlet return_byte_cap = ");
        lemma_tally_dotless(";\nlet return_byte_cap = "@);
    }
    assert(tally(";\n"@, 0, 0)) by {
        reveal_strlit(";\n");
        lemma_tally_dotless(";\n"@);
    }
}

/// Reading the result calls nothing.
proof fn lemma_read_return(
    indent: nat,
    style: AccessStyle,
    ty: SupportedRetType,
    from_var: Seq<char>,
    to_var: Seq<char>,
)
    requires
        tally(from_var, 0, 0),
        tally(to_var, 0, 0),
    ensures
        tally(read_return_text(indent, style, ty, from_var, to_var), 0, 0),
{
    broadcast use group_sums;
    lemma_words();
    match ty {
        SupportedRetType::Unit => {
            assert(tally("let "@, 0, 0)) by {
                reveal_strlit("let ");
                lemma_tally_dotless("let "@);
            }
            assert(tally(" = "@, 0, 0)) by {
                reveal_strlit(" = ");
                lemma_tally_dotless(" = "@);
            }
            assert(tally(";\n"@, 0, 0)) by {
                reveal_strlit(";\n");
                lemma_tally_dotless(";\n"@);
            }
        },
        SupportedRetType::Integer(inner) => {
            if inner == SupportedCopyTy::Bool {
                assert(tally("let "@, 0, 0)) by {
                    reveal_strlit("let ");
                    lemma_tally_dotless("let "@);
                }
                assert(tally(" = Boolean("@, 0, 0)) by {
                    reveal_strlit(" = Boolean(");
                    lemma_tally_dotless(" = Boolean("@);
                }
                assert(tally(");\n"@, 0, 0)) by {
                    reveal_strlit(");\n");
                    lemma_tally_dotless(");\n"@);
                }
            } else {
                assert(tally("let "@, 0, 0)) by {
                    reveal_strlit("let ");
                    lemma_tally_dotless("let "@);
                }
                assert(tally(" = "@, 0, 0)) by {
                    reveal_strlit(" = ");
                    lemma_tally_dotless(" = "@);
                }
                assert(tally(";\n"@, 0, 0)) by {
                    reveal_strlit(";\n");
                    lemma_tally_dotless(";\n"@);
                }
            }
        },
        SupportedRetType::IntegerVec(inner) => {
            assert(tally("result_temp"@, 0, 0)) by {
                reveal_strlit("result_temp");
                lemma_tally_dotless("result_temp"@);
            }
            assert(tally("return_byte_len"@, 0, 0)) by {
                reveal_strlit("return_byte_len");
                lemma_tally_dotless("return_byte_len"@);
            }
            assert(tally("return_tmp"@, 0, 0)) by {
                reveal_strlit("return_tmp");
                lemma_tally_dotless("return_tmp"@);
            }
            lemma_record_variable(record_fields()[0]);
            lemma_record_variable(record_fields()[1]);
            lemma_record_variable(record_fields()[2]);
            lemma_record_variable(RecordField::Pointer);
            lemma_record_variable(RecordField::Length);
            let record = read_three_text(
                style,
                from_var,
                "result_temp"@,
                record_variable(record_fields()[0]),
                record_variable(record_fields()[1]),
                record_variable(record_fields()[2]),
            );
            lemma_read_three(
                style,
                from_var,
                "result_temp"@,
                record_variable(record_fields()[0]),
                record_variable(record_fields()[1]),
                record_variable(record_fields()[2]),
            );
            lemma_byte_sizes(inner);
            let copy = copy_array_out_text(
                indent,
                style,
                record_variable(RecordField::Pointer),
                record_variable(RecordField::Length),
                "return_byte_len"@,
                "return_tmp"@,
                to_var,
                inner,
            );
            lemma_copy_array_out(
                indent,
                style,
                record_variable(RecordField::Pointer),
                record_variable(RecordField::Length),
                "return_byte_len"@,
                "return_tmp"@,
                to_var,
                inner,
            );
        },
        SupportedRetType::OwnedString => {},
    }
}

/// The release of a returned vector calls the deallocator twice: for the
/// data and for the record. Other results call for nothing.
proof fn lemma_deallocate_return(from_var: Seq<char>, ty: SupportedRetType)
    requires
        tally(from_var, 0, 0),
    ensures
        tally(
            deallocate_return_text(from_var, ty),
            0,
            if ty is IntegerVec {
                2
            } else {
                0
            },
        ),
{
    broadcast use group_sums;
    lemma_words();
    match ty {
        SupportedRetType::IntegerVec(_) => {
            lemma_record_variable(RecordField::Pointer);
            lemma_dealloc_three(from_var);
            assert(tally("this._dealloc("@, 0, 1)) by {
                reveal_strlit("this._dealloc(");
                reveal_strlit("this");
                reveal_strlit("._dealloc(");
                lemma_tally_dotless("this"@);
                assert("this._dealloc("@ =~= "this"@ + dealloc_word());
            }
            assert(tally(", return_byte_cap);\n"@, 0, 0)) by {
                reveal_strlit(", return_byte_cap);\n");
                lemma_tally_dotless(", return_byte_cap);\n"@);
            }
        },
        _ => {},
    }
}

/// The name of an argument holds no `.`.
proof fn lemma_arg_name(index: nat)
    ensures
        dotless(arg_name_text(index)),
        tally(arg_name_text(index), 0, 0),
{
    reveal_strlit("arg");
    lemma_decimal_dotless(index);
    lemma_tally_dotless(arg_name_text(index));
}

/// The list of the parameters calls nothing.
proof fn lemma_parameters(n: nat)
    ensures
        tally(parameters_text(n), 0, 0),
    decreases n,
{
    broadcast use group_sums;
    lemma_words();
    if n > 0 {
        lemma_parameters((n - 1) as nat);
        lemma_arg_name((n - 1) as nat);
        assert(tally(", "@, 0, 0)) by {
            reveal_strlit(", ");
            lemma_tally_dotless(", "@);
        }
    }
}

/// What is handed over for one argument calls nothing.
proof fn lemma_raw_argument(index: nat, ty: SupportedArgumentType)
    ensures
        tally(raw_argument_text(index, ty), 0, 0),
{
    broadcast use group_sums;
    lemma_words();
    lemma_arg_name(index);
    assert(tally("_ptr, "@, 0, 0)) by {
        reveal_strlit("_ptr, ");
        lemma_tally_dotless("_ptr, "@);
    }
    assert(tally("_len"@, 0, 0)) by {
        reveal_strlit("_len");
        lemma_tally_dotless("_len"@);
    }
}

/// What is handed over for all arguments calls nothing.
proof fn lemma_call_arguments(args: Seq<SupportedArgumentType>)
    ensures
        tally(call_arguments_text(args), 0, 0),
    decreases args.len(),
{
    broadcast use group_sums;
    lemma_words();
    if args.len() > 0 {
        lemma_call_arguments(args.drop_last());
        lemma_raw_argument((args.len() - 1) as nat, args.last());
        assert(tally(", "@, 0, 0)) by {
            reveal_strlit(", ");
            lemma_tally_dotless(", "@);
        }
    }
}

/// The call of the module's function calls neither allocator nor
/// deallocator.
proof fn lemma_invoke(name: Seq<char>, args: Seq<SupportedArgumentType>)
    requires
        is_plain_name(name),
    ensures
        tally(invoke_text(name, args), 0, 0),
{
    broadcast use group_sums;
    lemma_words();
    lemma_call_arguments(args);
    lemma_plain_name(name);
    assert(tally("let result = this._funcs['"@, 0, 0)) by {
        reveal_strlit("let result = this._funcs['");
        lemma_tally_quiet("let result = this._funcs['"@);
    }
    assert(tally(");\n"@, 0, 0)) by {
        reveal_strlit(");\n");
        lemma_tally_dotless(");\n"@);
    }
    assert(invoke_text(name, args) =~= "let result = this._funcs['"@ + (name + "']("@)
        + call_arguments_text(args) + ");\n"@);
}

/// The first line of a method calls nothing.
proof fn lemma_method_head(name: Seq<char>, arity: nat)
    requires
        is_plain_name(name),
    ensures
        tally(method_head(name, arity), 0, 0),
{
    broadcast use group_sums;
    lemma_words();
    lemma_parameters(arity);
    lemma_plain_name(name);
    assert(tally("\n"@, 0, 0)) by {
        reveal_strlit("\n");
        lemma_tally_dotless("\n"@);
    }
    assert(tally(") {\n"@, 0, 0)) by {
        reveal_strlit(") {\n");
        lemma_tally_dotless(") {\n"@);
    }
    assert(method_head(name, arity) =~= "\n"@ + (name + "("@) + parameters_text(arity)
        + ") {\n"@);
}

/// The text of a step calls the allocator and the deallocator as often as
/// the step is counted for.
pub proof fn lemma_step_calls(
    indent: nat,
    style: AccessStyle,
    name: Seq<char>,
    args: Seq<SupportedArgumentType>,
    step: MethodStep,
)
    requires
        is_plain_name(name),
    ensures
        tally(
            step_text(indent, style, name, args, step),
            step_allocations(step),
            step_deallocations(step),
        ),
{
    lemma_words();
    match step {
        MethodStep::Validate { index, ty } => {
            lemma_arg_name(index);
            reveal_strlit("throw new Error();");
            lemma_tally_dotless(failure_text());
            lemma_validate(indent, arg_name_text(index), ty, failure_text());
        },
        MethodStep::CopyIn { index, ty } => {
            lemma_arg_name(index);
            lemma_prepare(indent, style, arg_name_text(index), ty);
        },
        MethodStep::Invoke => {
            lemma_invoke(name, args);
        },
        MethodStep::RefreshMemory => {
            assert(tally("this._check_mem_realloc();\n"@, 0, 0)) by {
                reveal_strlit("this._check_mem_realloc();\n");
                lemma_tally_quiet("this._check_mem_realloc();\n"@);
            }
        },
        MethodStep::CopyOut { index, ty } => {
            lemma_arg_name(index);
            lemma_propagate(indent, style, arg_name_text(index), ty);
        },
        MethodStep::ReadReturn { ret } => {
            reveal_strlit("result");
            reveal_strlit("return_value");
            lemma_tally_dotless("result"@);
            lemma_tally_dotless("return_value"@);
            lemma_read_return(indent, style, ret, "result"@, "return_value"@);
        },
        MethodStep::Release { index, ty } => {
            lemma_arg_name(index);
            lemma_deallocate(arg_name_text(index), ty);
        },
        MethodStep::ReleaseReturn { ret } => {
            assert(tally("result"@, 0, 0)) by {
                reveal_strlit("result");
                lemma_tally_dotless("result"@);
            }
            lemma_deallocate_return("result"@, ret);
        },
        MethodStep::Return => {
            assert(tally("return return_value;\n"@, 0, 0)) by {
                reveal_strlit("return return_value;\n");
                lemma_tally_dotless("return return_value;\n"@);
            }
        },
    }
}

/// The text of a run of steps calls the allocator and the deallocator as
/// often as its steps are counted for.
pub proof fn lemma_steps_calls(
    indent: nat,
    style: AccessStyle,
    name: Seq<char>,
    args: Seq<SupportedArgumentType>,
    steps: Seq<MethodStep>,
)
    requires
        is_plain_name(name),
    ensures
        tally(
            steps_text(indent, style, name, args, steps),
            allocations(steps),
            deallocations(steps),
        ),
    decreases steps.len(),
{
    broadcast use group_sums;
    lemma_words();
    if steps.len() > 0 {
        lemma_steps_calls(indent, style, name, args, steps.drop_last());
        lemma_step_calls(indent, style, name, args, steps.last());
    }
}

/// The text of a method calls the allocator once for each argument that
/// is a buffer, and the deallocator as often, and twice more where the
/// method returns a vector. This holds under both styles, and for every
/// function whose name spells no such call itself, not even with the
/// bracket that follows it; a name without a `.` is of that kind.
pub proof fn lemma_method_calls(
    indent: nat,
    style: AccessStyle,
    name: Seq<char>,
    args: Seq<SupportedArgumentType>,
    ret: SupportedRetType,
    after_call: bool,
)
    requires
        is_plain_name(name),
    ensures
        allocator_calls(method_text(indent, style, name, args, ret, after_call)) == buffer_count(
            args,
        ),
        deallocator_calls(method_text(indent, style, name, args, ret, after_call)) == buffer_count(
            args,
        ) + (if ret is IntegerVec {
            2nat
        } else {
            0nat
        }),
{
    broadcast use group_sums;
    lemma_words();
    let steps = method_steps(style, args, ret, after_call);
    let body = steps_text(indent, style, name, args, steps);
    lemma_method_counts(style, args, ret, after_call);
    lemma_steps_calls(indent, style, name, args, steps);
    lemma_tally_indent(body, indent, true, allocations(steps), deallocations(steps));
    lemma_method_head(name, args.len());
    assert(tally("}\n"@, 0, 0)) by {
        reveal_strlit("}\n");
        lemma_tally_dotless("}\n"@);
    }
}

/// The text of the method of a function whose arguments are all numbers
/// never calls the allocator.
pub proof fn lemma_scalars_never_call_the_allocator(
    indent: nat,
    style: AccessStyle,
    name: Seq<char>,
    args: Seq<SupportedArgumentType>,
    ret: SupportedRetType,
    after_call: bool,
)
    requires
        is_plain_name(name),
        forall|i: int| 0 <= i < args.len() ==> #[trigger] args[i] is Integer,
    ensures
        allocator_calls(method_text(indent, style, name, args, ret, after_call)) == 0,
{
    lemma_method_calls(indent, style, name, args, ret, after_call);
    crate::generation::laws::lemma_scalars_never_allocate(style, args, ret, after_call);
    lemma_method_counts(style, args, ret, after_call);
}

/// The text of the method of a function that does not return a vector
/// calls the deallocator exactly as often as the allocator, under both
/// styles.
pub proof fn lemma_calls_are_balanced(
    indent: nat,
    style: AccessStyle,
    name: Seq<char>,
    args: Seq<SupportedArgumentType>,
    ret: SupportedRetType,
    after_call: bool,
)
    requires
        is_plain_name(name),
        !(ret is IntegerVec),
    ensures
        allocator_calls(method_text(indent, style, name, args, ret, after_call))
            == deallocator_calls(method_text(indent, style, name, args, ret, after_call)),
{
    lemma_method_calls(indent, style, name, args, ret, after_call);
}

} // verus!
