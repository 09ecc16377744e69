//! Why a declared item cannot be translated.

use crate::syntax::{DeclaredType, FnArg, ItemKind};
use vstd::prelude::*;

verus! {

/// Why a declared item cannot be translated. Each variant holds the piece of
/// syntax that was refused.
#[derive(Debug, PartialEq, Eq)]
pub enum MacroError {
    /// The item is not a function.
    InvalidItemKind { kind: ItemKind },
    /// The function takes `self`.
    InvalidArgument { arg: FnArg },
    /// The type of an argument is not one that can cross the boundary.
    UnhandledArgumentType { ty: DeclaredType },
    /// The return type is not one that can cross the boundary.
    UnhandledRetType { ty: DeclaredType },
    /// The invocation does not consist of one delimited group: it holds
    /// `count` token trees.
    UnexpectedMultiTokenMacro { count: usize },
    /// The invocation consists of a single token.
    UnexpectedSingleToken,
    /// The tokens from position `from` on do not make a whole declaration.
    UnexpectedEndOfMacroInvocation { from: usize },
    /// What was put together from the invocation could not be read as an
    /// item.
    UnexpectedReparseFailure { err_msg: String },
}

} // verus!
