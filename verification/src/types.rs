//! The closed set of types that can cross the module boundary, and the rules
//! by which a declared type is recognised as one of them.

use crate::error::MacroError;
use crate::syntax::{
    into_resolved, path_as_single_segment, resolve_parens, resolved, single_segment, DeclaredType,
    PathParameters, PathSegment,
};
use crate::text::str_eq;
use vstd::prelude::*;
use vstd::string::*;

verus! {

/// An element type that is copied bit-for-bit between host and module memory.
#[derive(Debug, Copy, Clone, PartialEq, Eq, Structural)]
pub enum SupportedCopyTy {
    U8,
    U16,
    U32,
    USize,
    I8,
    I16,
    I32,
    ISize,
    F32,
    F64,
    Bool,
}

impl SupportedCopyTy {
    /// The type that is written as `name`, if it is one of the eleven.
    pub open spec fn from_name(name: Seq<char>) -> Option<SupportedCopyTy> {
        if name == "u8"@ {
            Some(SupportedCopyTy::U8)
        } else if name == "u16"@ {
            Some(SupportedCopyTy::U16)
        } else if name == "u32"@ {
            Some(SupportedCopyTy::U32)
        } else if name == "usize"@ {
            Some(SupportedCopyTy::USize)
        } else if name == "i8"@ {
            Some(SupportedCopyTy::I8)
        } else if name == "i16"@ {
            Some(SupportedCopyTy::I16)
        } else if name == "i32"@ {
            Some(SupportedCopyTy::I32)
        } else if name == "isize"@ {
            Some(SupportedCopyTy::ISize)
        } else if name == "f32"@ {
            Some(SupportedCopyTy::F32)
        } else if name == "f64"@ {
            Some(SupportedCopyTy::F64)
        } else if name == "bool"@ {
            Some(SupportedCopyTy::Bool)
        } else {
            None
        }
    }

    /// How the type is written.
    pub open spec fn name(self) -> Seq<char> {
        match self {
            SupportedCopyTy::U8 => "u8"@,
            SupportedCopyTy::U16 => "u16"@,
            SupportedCopyTy::U32 => "u32"@,
            SupportedCopyTy::USize => "usize"@,
            SupportedCopyTy::I8 => "i8"@,
            SupportedCopyTy::I16 => "i16"@,
            SupportedCopyTy::I32 => "i32"@,
            SupportedCopyTy::ISize => "isize"@,
            SupportedCopyTy::F32 => "f32"@,
            SupportedCopyTy::F64 => "f64"@,
            SupportedCopyTy::Bool => "bool"@,
        }
    }

    /// The width of one element in the module's 32-bit linear memory.
    pub open spec fn width(self) -> nat {
        match self {
            SupportedCopyTy::Bool | SupportedCopyTy::U8 | SupportedCopyTy::I8 => 1,
            SupportedCopyTy::U16 | SupportedCopyTy::I16 => 2,
            SupportedCopyTy::USize | SupportedCopyTy::U32 => 4,
            SupportedCopyTy::ISize | SupportedCopyTy::I32 => 4,
            SupportedCopyTy::F32 => 4,
            SupportedCopyTy::F64 => 8,
        }
    }

    /// Recognises a type by the name it is written with.
    pub fn new(ident: &str) -> (ty: Option<Self>)
        ensures
            ty == Self::from_name(ident@),
    {
        if str_eq(ident, "u8") {
            Some(SupportedCopyTy::U8)
        } else if str_eq(ident, "u16") {
            Some(SupportedCopyTy::U16)
        } else if str_eq(ident, "u32") {
            Some(SupportedCopyTy::U32)
        } else if str_eq(ident, "usize") {
            Some(SupportedCopyTy::USize)
        } else if str_eq(ident, "i8") {
            Some(SupportedCopyTy::I8)
        } else if str_eq(ident, "i16") {
            Some(SupportedCopyTy::I16)
        } else if str_eq(ident, "i32") {
            Some(SupportedCopyTy::I32)
        } else if str_eq(ident, "isize") {
            Some(SupportedCopyTy::ISize)
        } else if str_eq(ident, "f32") {
            Some(SupportedCopyTy::F32)
        } else if str_eq(ident, "f64") {
            Some(SupportedCopyTy::F64)
        } else if str_eq(ident, "bool") {
            Some(SupportedCopyTy::Bool)
        } else {
            None
        }
    }

    /// Width in bytes inside the module, which is not the width on the
    /// machine that runs the generator.
    pub fn size_in_bytes(&self) -> (bytes: usize)
        ensures
            bytes == self.width(),
    {
        match *self {
            SupportedCopyTy::Bool | SupportedCopyTy::U8 => 1,
            SupportedCopyTy::U16 => 2,
            SupportedCopyTy::USize | SupportedCopyTy::U32 => 4,
            SupportedCopyTy::I8 => 1,
            SupportedCopyTy::I16 => 2,
            SupportedCopyTy::ISize | SupportedCopyTy::I32 => 4,
            SupportedCopyTy::F32 => 4,
            SupportedCopyTy::F64 => 8,
        }
    }

    /// How the type is written.
    pub fn as_str(&self) -> (name: &'static str)
        ensures
            name@ == self.name(),
    {
        match *self {
            SupportedCopyTy::U8 => "u8",
            SupportedCopyTy::U16 => "u16",
            SupportedCopyTy::U32 => "u32",
            SupportedCopyTy::USize => "usize",
            SupportedCopyTy::I8 => "i8",
            SupportedCopyTy::I16 => "i16",
            SupportedCopyTy::I32 => "i32",
            SupportedCopyTy::ISize => "isize",
            SupportedCopyTy::F32 => "f32",
            SupportedCopyTy::F64 => "f64",
            SupportedCopyTy::Bool => "bool",
        }
    }
}

/// The width of every element type is one of four fixed numbers, whatever
/// machine the generator runs on; a machine word of the module has four
/// bytes, a boolean one.
pub proof fn lemma_widths_are_fixed(ty: SupportedCopyTy)
    ensures
        ty.width() == 1 || ty.width() == 2 || ty.width() == 4 || ty.width() == 8,
        SupportedCopyTy::USize.width() == 4,
        SupportedCopyTy::ISize.width() == 4,
        SupportedCopyTy::Bool.width() == 1,
        ty.width() == match ty {
            SupportedCopyTy::U8 => 1nat,
            SupportedCopyTy::U16 => 2nat,
            SupportedCopyTy::U32 => 4nat,
            SupportedCopyTy::USize => 4nat,
            SupportedCopyTy::I8 => 1nat,
            SupportedCopyTy::I16 => 2nat,
            SupportedCopyTy::I32 => 4nat,
            SupportedCopyTy::ISize => 4nat,
            SupportedCopyTy::F32 => 4nat,
            SupportedCopyTy::F64 => 8nat,
            SupportedCopyTy::Bool => 1nat,
        },
{
}

/// Every element type is recognised by the name that it is written with:
/// no two of them are written alike.
pub proof fn lemma_names_are_recognised(ty: SupportedCopyTy)
    ensures
        SupportedCopyTy::from_name(ty.name()) == Some(ty),
{
    reveal_strlit("u8");
    reveal_strlit("u16");
    reveal_strlit("u32");
    reveal_strlit("usize");
    reveal_strlit("i8");
    reveal_strlit("i16");
    reveal_strlit("i32");
    reveal_strlit("isize");
    reveal_strlit("f32");
    reveal_strlit("f64");
    reveal_strlit("bool");
    assert("u8"@.len() == 2 && "u8"@[0] == 'u' && "u8"@[1] == '8');
    assert("u16"@.len() == 3 && "u16"@[0] == 'u' && "u16"@[1] == '1');
    assert("u32"@.len() == 3 && "u32"@[0] == 'u' && "u32"@[1] == '3');
    assert("usize"@.len() == 5 && "usize"@[0] == 'u' && "usize"@[1] == 's');
    assert("i8"@.len() == 2 && "i8"@[0] == 'i' && "i8"@[1] == '8');
    assert("i16"@.len() == 3 && "i16"@[0] == 'i' && "i16"@[1] == '1');
    assert("i32"@.len() == 3 && "i32"@[0] == 'i' && "i32"@[1] == '3');
    assert("isize"@.len() == 5 && "isize"@[0] == 'i' && "isize"@[1] == 's');
    assert("f32"@.len() == 3 && "f32"@[0] == 'f' && "f32"@[1] == '3');
    assert("f64"@.len() == 3 && "f64"@[0] == 'f' && "f64"@[1] == '6');
    assert("bool"@.len() == 4 && "bool"@[0] == 'b' && "bool"@[1] == 'o');
    let name = ty.name();
    assert(name[0] == 'u' || name[0] == 'i' || name[0] == 'f' || name[0] == 'b');
    assert(name[1] != name[0]);
}

/// The type of an argument that can cross the boundary.
#[derive(Debug, Copy, Clone, PartialEq, Eq, Structural)]
pub enum SupportedArgumentType {
    /// `&[T]`
    IntegerSliceRef(SupportedCopyTy),
    /// `&mut [T]`
    IntegerSliceMutRef(SupportedCopyTy),
    /// `Vec<T>`
    IntegerVec(SupportedCopyTy),
    /// `T`
    Integer(SupportedCopyTy),
    /// `String`
    OwnedString,
}

/// The type of a result that can cross the boundary.
#[derive(Debug, Copy, Clone, PartialEq, Eq, Structural)]
pub enum SupportedRetType {
    /// `Vec<T>`
    IntegerVec(SupportedCopyTy),
    /// `T`
    Integer(SupportedCopyTy),
    /// `()`
    Unit,
    /// `String`
    OwnedString,
}

/// The element type that `ty` names, where it is a bare name without
/// parameters.
pub open spec fn simple_integer(ty: DeclaredType) -> Option<SupportedCopyTy> {
    match single_segment(ty) {
        Some(segment) => if segment.parameters.is_none() {
            SupportedCopyTy::from_name(segment.ident@)
        } else {
            None
        },
        None => None,
    }
}

/// Whether `ty` is `u8`.
pub open spec fn names_u8(ty: DeclaredType) -> bool {
    match single_segment(ty) {
        Some(segment) => segment.ident@ == "u8"@ && segment.parameters.is_none(),
        None => false,
    }
}

/// The element type of `ty`, where it is `Vec<T>` with `T` a bare element
/// type.
pub open spec fn vec_simple_integer(ty: DeclaredType) -> Option<SupportedCopyTy> {
    match single_segment(ty) {
        Some(segment) => if segment.ident@ == "Vec"@ {
            match segment.parameters {
                PathParameters::AngleBracketed { lifetimes, types, bindings } => if lifetimes == 0
                    && bindings == 0 && types@.len() == 1 {
                    simple_integer(types@[0])
                } else {
                    None
                },
                PathParameters::Parenthesized => None,
            }
        } else {
            None
        },
        None => None,
    }
}

/// Whether `ty` is `&str`.
pub open spec fn names_string_slice(ty: DeclaredType) -> bool {
    match resolved(ty) {
        DeclaredType::Reference { mutable, target } => !mutable && match single_segment(*target) {
            Some(segment) => segment.ident@ == "str"@ && segment.parameters.is_none(),
            None => false,
        },
        _ => false,
    }
}

/// Whether `ty` is `String`.
pub open spec fn names_owned_string(ty: DeclaredType) -> bool {
    match single_segment(ty) {
        Some(segment) => segment.ident@ == "String"@ && segment.parameters.is_none(),
        None => false,
    }
}

/// The element type and mutability of `ty`, where it is a reference to a
/// slice of a bare element type.
pub open spec fn slice_reference(ty: DeclaredType) -> Option<(bool, SupportedCopyTy)> {
    match resolved(ty) {
        DeclaredType::Reference { mutable, target } => match resolved(*target) {
            DeclaredType::Slice(element) => match simple_integer(*element) {
                Some(inner) => Some((mutable, inner)),
                None => None,
            },
            _ => None,
        },
        _ => None,
    }
}

/// Whether `ty` is `u8`.
pub fn is_u8(ty: &DeclaredType) -> (yes: bool)
    ensures
        yes == names_u8(*ty),
{
    match path_as_single_segment(ty) {
        Some(segment) => str_eq(segment.ident.as_str(), "u8") && segment.parameters.is_empty(),
        None => false,
    }
}

/// The element type that `ty` names, where it is a bare name without
/// parameters.
pub fn as_simple_integer(ty: &DeclaredType) -> (found: Option<SupportedCopyTy>)
    ensures
        found == simple_integer(*ty),
{
    match path_as_single_segment(ty) {
        Some(segment) => {
            if segment.parameters.is_empty() {
                SupportedCopyTy::new(segment.ident.as_str())
            } else {
                None
            }
        },
        None => None,
    }
}

/// The element type of `ty`, where it is `Vec<T>` with `T` a bare element
/// type.
pub fn as_vec_simple_integer_type(ty: &DeclaredType) -> (found: Option<SupportedCopyTy>)
    ensures
        found == vec_simple_integer(*ty),
{
    match path_as_single_segment(ty) {
        Some(segment) => {
            if str_eq(segment.ident.as_str(), "Vec") {
                match &segment.parameters {
                    PathParameters::AngleBracketed { lifetimes, types, bindings } => {
                        if *lifetimes == 0 && *bindings == 0 && types.len() == 1 {
                            as_simple_integer(&types[0])
                        } else {
                            None
                        }
                    },
                    PathParameters::Parenthesized => None,
                }
            } else {
                None
            }
        },
        None => None,
    }
}

/// Whether `ty` is `&str`.
pub fn is_string_slice(ty: &DeclaredType) -> (yes: bool)
    ensures
        yes == names_string_slice(*ty),
{
    match resolve_parens(ty) {
        DeclaredType::Reference { mutable, target } => {
            if *mutable {
                false
            } else {
                match path_as_single_segment(target) {
                    Some(segment) => str_eq(segment.ident.as_str(), "str")
                        && segment.parameters.is_empty(),
                    None => false,
                }
            }
        },
        _ => false,
    }
}

/// Whether `ty` is `String`.
pub fn is_owned_string(ty: &DeclaredType) -> (yes: bool)
    ensures
        yes == names_owned_string(*ty),
{
    match path_as_single_segment(ty) {
        Some(segment) => str_eq(segment.ident.as_str(), "String") && segment.parameters.is_empty(),
        None => false,
    }
}

/// The type `String` as it is declared.
pub fn owned_string_type() -> (ty: DeclaredType)
    ensures
        names_owned_string(ty),
        ty is Path,
{
    let mut segments: Vec<PathSegment> = Vec::new();
    segments.push(
        PathSegment {
            ident: String::from_str("String"),
            parameters: PathParameters::AngleBracketed {
                lifetimes: 0,
                types: Vec::new(),
                bindings: 0,
            },
        },
    );
    DeclaredType::Path { qualified: false, segments }
}

/// Whether `e` refuses an argument for being a `String`.
pub open spec fn refuses_string_argument(e: MacroError) -> bool {
    match e {
        MacroError::UnhandledArgumentType { ty } => names_owned_string(ty),
        _ => false,
    }
}

/// Whether `e` refuses a result for being a `String`.
pub open spec fn refuses_string_result(e: MacroError) -> bool {
    match e {
        MacroError::UnhandledRetType { ty } => names_owned_string(ty),
        _ => false,
    }
}

fn as_slice_reference(ty: &DeclaredType) -> (found: Option<(bool, SupportedCopyTy)>)
    ensures
        found == slice_reference(*ty),
{
    match resolve_parens(ty) {
        DeclaredType::Reference { mutable, target } => match resolve_parens(target) {
            DeclaredType::Slice(element) => match as_simple_integer(element) {
                Some(inner) => Some((*mutable, inner)),
                None => None,
            },
            _ => None,
        },
        _ => None,
    }
}

impl SupportedArgumentType {
    /// What a declared argument type is recognised as. A reference to a
    /// slice is looked for first, then a bare element type, then a vector,
    /// then an owned string.
    pub open spec fn of(ty: DeclaredType) -> Option<SupportedArgumentType> {
        match slice_reference(ty) {
            Some((mutable, inner)) => if mutable {
                Some(SupportedArgumentType::IntegerSliceMutRef(inner))
            } else {
                Some(SupportedArgumentType::IntegerSliceRef(inner))
            },
            None => match simple_integer(ty) {
                Some(inner) => Some(SupportedArgumentType::Integer(inner)),
                None => match vec_simple_integer(ty) {
                    Some(inner) => Some(SupportedArgumentType::IntegerVec(inner)),
                    None => if names_owned_string(ty) {
                        Some(SupportedArgumentType::OwnedString)
                    } else {
                        None
                    },
                },
            },
        }
    }

    /// Whether a buffer in module memory stands for an argument of this
    /// type.
    pub open spec fn is_buffer(self) -> bool {
        self is IntegerSliceRef || self is IntegerSliceMutRef || self is IntegerVec
    }

    /// Recognises a declared argument type, or refuses it, out of its
    /// parentheses.
    pub fn new(ty: DeclaredType) -> (found: Result<Self, MacroError>)
        ensures
            found == match Self::of(ty) {
                Some(known) => Ok::<Self, MacroError>(known),
                None => Err(MacroError::UnhandledArgumentType { ty: resolved(ty) }),
            },
    {
        match as_slice_reference(&ty) {
            Some((mutable, inner)) => {
                return Ok(
                    if mutable {
                        SupportedArgumentType::IntegerSliceMutRef(inner)
                    } else {
                        SupportedArgumentType::IntegerSliceRef(inner)
                    },
                );
            },
            None => {},
        }
        match as_simple_integer(&ty) {
            Some(inner) => {
                return Ok(SupportedArgumentType::Integer(inner));
            },
            None => {},
        }
        match as_vec_simple_integer_type(&ty) {
            Some(inner) => {
                return Ok(SupportedArgumentType::IntegerVec(inner));
            },
            None => {},
        }
        if is_owned_string(&ty) {
            return Ok(SupportedArgumentType::OwnedString);
        }
        Err(MacroError::UnhandledArgumentType { ty: into_resolved(ty) })
    }
}

impl SupportedRetType {
    /// What a declared return type is recognised as. A borrowed string is
    /// not among them: nothing can own it once it has left the module.
    pub open spec fn of(ty: DeclaredType) -> Option<SupportedRetType> {
        match simple_integer(ty) {
            Some(inner) => Some(SupportedRetType::Integer(inner)),
            None => match vec_simple_integer(ty) {
                Some(inner) => Some(SupportedRetType::IntegerVec(inner)),
                None => match resolved(ty) {
                    DeclaredType::Tuple(items) => if items@.len() == 0 {
                        Some(SupportedRetType::Unit)
                    } else {
                        None
                    },
                    _ => if names_owned_string(ty) {
                        Some(SupportedRetType::OwnedString)
                    } else {
                        None
                    },
                },
            },
        }
    }

    /// Recognises a declared return type, or refuses it, out of its
    /// parentheses.
    pub fn new(ty: DeclaredType) -> (found: Result<Self, MacroError>)
        ensures
            found == match Self::of(ty) {
                Some(known) => Ok::<Self, MacroError>(known),
                None => Err(MacroError::UnhandledRetType { ty: resolved(ty) }),
            },
    {
        match as_simple_integer(&ty) {
            Some(inner) => {
                return Ok(SupportedRetType::Integer(inner));
            },
            None => {},
        }
        match as_vec_simple_integer_type(&ty) {
            Some(inner) => {
                return Ok(SupportedRetType::IntegerVec(inner));
            },
            None => {},
        }
        let is_unit = match resolve_parens(&ty) {
            DeclaredType::Tuple(items) => items.len() == 0,
            _ => false,
        };
        if is_unit {
            return Ok(SupportedRetType::Unit);
        }
        if is_owned_string(&ty) {
            return Ok(SupportedRetType::OwnedString);
        }
        Err(MacroError::UnhandledRetType { ty: into_resolved(ty) })
    }

    /// The type of a function that returns nothing.
    pub fn unit() -> (ty: Self)
        ensures
            ty == SupportedRetType::Unit,
    {
        SupportedRetType::Unit
    }
}

} // verus!
