//! The two forms of byte slice, the first types that could cross the
//! boundary.

use crate::error::MacroError;
use crate::syntax::{into_resolved, resolve_parens, resolved, DeclaredType};
use crate::text::str_eq;
use vstd::prelude::*;
use vstd::string::*;

verus! {

/// A reference to a slice of bytes.
#[derive(Debug, Copy, Clone, PartialEq, Eq, Structural)]
pub enum KnownArgumentType {
    /// `&[u8]`
    U8SliceRef,
    /// `&mut [u8]`
    U8SliceMutRef,
}

/// Whether `ty` is the path `u8`, of one segment without parameters.
pub open spec fn is_byte_path(ty: DeclaredType) -> bool {
    match resolved(ty) {
        DeclaredType::Path { qualified, segments } => !qualified && segments@.len() == 1
            && segments@[0].ident@ == "u8"@ && segments@[0].parameters.is_none(),
        _ => false,
    }
}

impl KnownArgumentType {
    /// What a declared type is recognised as: a reference, mutable or not,
    /// to a slice of `u8`, with parentheses anywhere around the three.
    pub open spec fn of(ty: DeclaredType) -> Option<KnownArgumentType> {
        match resolved(ty) {
            DeclaredType::Reference { mutable, target } => match resolved(*target) {
                DeclaredType::Slice(element) => if is_byte_path(*element) {
                    if mutable {
                        Some(KnownArgumentType::U8SliceMutRef)
                    } else {
                        Some(KnownArgumentType::U8SliceRef)
                    }
                } else {
                    None
                },
                _ => None,
            },
            _ => None,
        }
    }

    /// Recognises a declared type, or refuses it, out of its parentheses.
    pub fn new(ty: DeclaredType) -> (found: Result<Self, MacroError>)
        ensures
            found == match Self::of(ty) {
                Some(known) => Ok::<Self, MacroError>(known),
                None => Err(MacroError::UnhandledArgumentType { ty: resolved(ty) }),
            },
    {
        let known = match resolve_parens(&ty) {
            DeclaredType::Reference { mutable, target } => match resolve_parens(target) {
                DeclaredType::Slice(element) => match resolve_parens(element) {
                    DeclaredType::Path { qualified, segments } => {
                        if !*qualified && segments.len() == 1 && str_eq(
                            segments[0].ident.as_str(),
                            "u8",
                        ) && segments[0].parameters.is_empty() {
                            if *mutable {
                                Some(KnownArgumentType::U8SliceMutRef)
                            } else {
                                Some(KnownArgumentType::U8SliceRef)
                            }
                        } else {
                            None
                        }
                    },
                    _ => None,
                },
                _ => None,
            },
            _ => None,
        };
        match known {
            Some(known) => Ok(known),
            None => Err(MacroError::UnhandledArgumentType { ty: into_resolved(ty) }),
        }
    }
}

} // verus!
