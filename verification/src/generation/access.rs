//! Reading and writing single elements of module memory from the host, and
//! the typed array that belongs to each element type.

use crate::indented_write::IdentedWriter;
use crate::text::{decimal, decimal_string};
use crate::types::SupportedCopyTy;
use vstd::prelude::*;
use vstd::string::*;

verus! {

/// The host's typed array for elements of type `ty`. Booleans travel as
/// bytes.
pub open spec fn typed_array_name(ty: SupportedCopyTy) -> Seq<char> {
    match ty {
        SupportedCopyTy::U8 => "Uint8Array"@,
        SupportedCopyTy::U16 => "Uint16Array"@,
        SupportedCopyTy::U32 => "Uint32Array"@,
        SupportedCopyTy::I8 => "Int8Array"@,
        SupportedCopyTy::I16 => "Int16Array"@,
        SupportedCopyTy::I32 => "Int32Array"@,
        SupportedCopyTy::USize => "Uint32Array"@,
        SupportedCopyTy::ISize => "Int32Array"@,
        SupportedCopyTy::F32 => "Float32Array"@,
        SupportedCopyTy::F64 => "Float64Array"@,
        SupportedCopyTy::Bool => "Uint8Array"@,
    }
}

/// The typed array over `count_name` elements of type `ty` that lie in
/// module memory from `ptr_name` on. What is handed to the constructor
/// behind the pointer is a number of elements, not of bytes.
pub open spec fn typed_view_text(
    ty: SupportedCopyTy,
    ptr_name: Seq<char>,
    count_name: Seq<char>,
) -> Seq<char> {
    "new "@ + typed_array_name(ty) + "(this._mem.buffer, "@ + ptr_name + ", "@ + count_name + ")"@
}

/// The method of a `DataView` that writes one element of type `ty`.
pub open spec fn setter_name(ty: SupportedCopyTy) -> Seq<char> {
    match ty {
        SupportedCopyTy::Bool | SupportedCopyTy::U8 => "setUint8"@,
        SupportedCopyTy::U16 => "setUint16"@,
        SupportedCopyTy::USize | SupportedCopyTy::U32 => "setUint32"@,
        SupportedCopyTy::I8 => "setInt8"@,
        SupportedCopyTy::I16 => "setInt16"@,
        SupportedCopyTy::ISize | SupportedCopyTy::I32 => "setInt32"@,
        SupportedCopyTy::F32 => "setFloat32"@,
        SupportedCopyTy::F64 => "setFloat64"@,
    }
}

/// The method of a `DataView` that reads one element of type `ty`.
pub open spec fn getter_name(ty: SupportedCopyTy) -> Seq<char> {
    match ty {
        SupportedCopyTy::Bool | SupportedCopyTy::U8 => "getUint8"@,
        SupportedCopyTy::U16 => "getUint16"@,
        SupportedCopyTy::USize | SupportedCopyTy::U32 => "getUint32"@,
        SupportedCopyTy::I8 => "getInt8"@,
        SupportedCopyTy::I16 => "getInt16"@,
        SupportedCopyTy::ISize | SupportedCopyTy::I32 => "getInt32"@,
        SupportedCopyTy::F32 => "getFloat32"@,
        SupportedCopyTy::F64 => "getFloat64"@,
    }
}

/// A value as it is stored: a boolean is made one first.
pub open spec fn stored_value(ty: SupportedCopyTy, value: Seq<char>) -> Seq<char> {
    if ty == SupportedCopyTy::Bool {
        "Boolean("@ + value + ")"@
    } else {
        value
    }
}

/// The statement that stores `value` as element `i_name` of the buffer at
/// `ptr_name`: little-endian, at the pointer plus the index times the
/// element width.
pub open spec fn set_ith_text(
    data_view_name: Seq<char>,
    ty: SupportedCopyTy,
    ptr_name: Seq<char>,
    i_name: Seq<char>,
    value: Seq<char>,
) -> Seq<char> {
    data_view_name + "."@ + setter_name(ty) + "("@ + ptr_name + " + "@ + decimal(ty.width())
        + " * "@ + i_name + ", "@ + stored_value(ty, value) + ", true);\n"@
}

/// The expression that loads element `i_name` of the buffer at `ptr_name`,
/// made a boolean where the element is one.
pub open spec fn get_ith_text(
    data_view_name: Seq<char>,
    ty: SupportedCopyTy,
    ptr_name: Seq<char>,
    i_name: Seq<char>,
) -> Seq<char> {
    if ty == SupportedCopyTy::Bool {
        "Boolean("@ + data_view_name + "."@ + getter_name(ty) + "("@ + ptr_name + " + "@ + decimal(
            ty.width(),
        ) + " * "@ + i_name + ", true))"@
    } else {
        data_view_name + "."@ + getter_name(ty) + "("@ + ptr_name + " + "@ + decimal(ty.width())
            + " * "@ + i_name + ", true)"@
    }
}

/// A boolean crosses the boundary as a boolean in both directions: what is
/// stored is made one first, and what is loaded is made one after. For
/// every other element type the value is stored and loaded as it is.
pub proof fn lemma_booleans_stay_booleans(
    data_view_name: Seq<char>,
    ty: SupportedCopyTy,
    ptr_name: Seq<char>,
    i_name: Seq<char>,
    value: Seq<char>,
)
    ensures
        stored_value(SupportedCopyTy::Bool, value) == "Boolean("@ + value + ")"@,
        get_ith_text(data_view_name, SupportedCopyTy::Bool, ptr_name, i_name) == "Boolean("@ + (
        data_view_name + "."@ + getter_name(SupportedCopyTy::Bool) + "("@ + ptr_name + " + "@
            + decimal(SupportedCopyTy::Bool.width()) + " * "@ + i_name + ", true)"@) + ")"@,
        ty != SupportedCopyTy::Bool ==> stored_value(ty, value) == value,
{
    reveal_strlit(", true))");
    reveal_strlit(", true)");
    reveal_strlit(")");
    assert(", true))"@ =~= ", true)"@ + ")"@);
    let inner = data_view_name + "."@ + getter_name(SupportedCopyTy::Bool) + "("@ + ptr_name
        + " + "@ + decimal(SupportedCopyTy::Bool.width()) + " * "@ + i_name;
    assert(get_ith_text(data_view_name, SupportedCopyTy::Bool, ptr_name, i_name) =~= "Boolean("@
        + (inner + ", true)"@) + ")"@);
}

/// The host's typed array for elements of type `ty`.
pub fn javascript_typed_array_for_int(ty: SupportedCopyTy) -> (name: &'static str)
    ensures
        name@ == typed_array_name(ty),
{
    match ty {
        SupportedCopyTy::U8 => "Uint8Array",
        SupportedCopyTy::U16 => "Uint16Array",
        SupportedCopyTy::U32 => "Uint32Array",
        SupportedCopyTy::I8 => "Int8Array",
        SupportedCopyTy::I16 => "Int16Array",
        SupportedCopyTy::I32 => "Int32Array",
        SupportedCopyTy::USize => "Uint32Array",
        SupportedCopyTy::ISize => "Int32Array",
        SupportedCopyTy::F32 => "Float32Array",
        SupportedCopyTy::F64 => "Float64Array",
        SupportedCopyTy::Bool => "Uint8Array",
    }
}

/// The typed array over `count_name` elements of type `ty` at `ptr_name`.
pub fn typed_view(ty: SupportedCopyTy, ptr_name: &str, count_name: &str) -> (text: String)
    ensures
        text@ == typed_view_text(ty, ptr_name@, count_name@),
{
    let mut text = String::from_str("new ");
    text.append(javascript_typed_array_for_int(ty));
    text.append("(this._mem.buffer, ");
    text.append(ptr_name);
    text.append(", ");
    text.append(count_name);
    text.append(")");
    text
}

fn setter_for(ty: SupportedCopyTy) -> (name: &'static str)
    ensures
        name@ == setter_name(ty),
{
    match ty {
        SupportedCopyTy::Bool | SupportedCopyTy::U8 => "setUint8",
        SupportedCopyTy::U16 => "setUint16",
        SupportedCopyTy::USize | SupportedCopyTy::U32 => "setUint32",
        SupportedCopyTy::I8 => "setInt8",
        SupportedCopyTy::I16 => "setInt16",
        SupportedCopyTy::ISize | SupportedCopyTy::I32 => "setInt32",
        SupportedCopyTy::F32 => "setFloat32",
        SupportedCopyTy::F64 => "setFloat64",
    }
}

fn getter_for(ty: SupportedCopyTy) -> (name: &'static str)
    ensures
        name@ == getter_name(ty),
{
    match ty {
        SupportedCopyTy::Bool | SupportedCopyTy::U8 => "getUint8",
        SupportedCopyTy::U16 => "getUint16",
        SupportedCopyTy::USize | SupportedCopyTy::U32 => "getUint32",
        SupportedCopyTy::I8 => "getInt8",
        SupportedCopyTy::I16 => "getInt16",
        SupportedCopyTy::ISize | SupportedCopyTy::I32 => "getInt32",
        SupportedCopyTy::F32 => "getFloat32",
        SupportedCopyTy::F64 => "getFloat64",
    }
}

/// The width of an element of type `ty`, in decimal.
pub fn width_text(ty: SupportedCopyTy) -> (text: String)
    ensures
        text@ == decimal(ty.width()),
{
    decimal_string(ty.size_in_bytes() as u64)
}

/// Writes the statement that stores `value` as element `i_name` of the
/// buffer at `ptr_name`.
pub fn js_set_ith_ty_at(
    buf: &mut IdentedWriter,
    data_view_name: &str,
    ty: SupportedCopyTy,
    ptr_name: &str,
    i_name: &str,
    value: &str,
)
    ensures
        final(buf)@ == old(buf)@.write(
            set_ith_text(data_view_name@, ty, ptr_name@, i_name@, value@),
        ),
{
    let stored = match ty {
        SupportedCopyTy::Bool => {
            let mut s = String::from_str("Boolean(");
            s.append(value);
            s.append(")");
            s
        },
        _ => String::from_str(value),
    };
    let offset = width_text(ty);
    let mut line = String::from_str(data_view_name);
    line.append(".");
    line.append(setter_for(ty));
    line.append("(");
    line.append(ptr_name);
    line.append(" + ");
    line.append(offset.as_str());
    line.append(" * ");
    line.append(i_name);
    line.append(", ");
    line.append(stored.as_str());
    line.append(", true);\n");
    buf.write_str(line.as_str());
}

/// Writes the expression that loads element `i_name` of the buffer at
/// `ptr_name`.
pub fn js_get_ith_ty_at(
    buf: &mut IdentedWriter,
    data_view_name: &str,
    ty: SupportedCopyTy,
    ptr_name: &str,
    i_name: &str,
)
    ensures
        final(buf)@ == old(buf)@.write(get_ith_text(data_view_name@, ty, ptr_name@, i_name@)),
{
    let offset = width_text(ty);
    let mut load = match ty {
        SupportedCopyTy::Bool => {
            let mut s = String::from_str("Boolean(");
            s.append(data_view_name);
            s
        },
        _ => String::from_str(data_view_name),
    };
    load.append(".");
    load.append(getter_for(ty));
    load.append("(");
    load.append(ptr_name);
    load.append(" + ");
    load.append(offset.as_str());
    load.append(" * ");
    load.append(i_name);
    match ty {
        SupportedCopyTy::Bool => {
            load.append(", true))");
        },
        _ => {
            load.append(", true)");
        },
    }
    buf.write_str(load.as_str());
}

} // verus!
