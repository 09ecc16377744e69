//! The parts of a declared function that the generators read: the shape of
//! its argument and return types, and of the item around them.

use vstd::prelude::*;

verus! {

/// A type as it is written in a function signature.
#[derive(Debug, PartialEq, Eq)]
pub enum DeclaredType {
    /// `[T]`
    Slice(Box<DeclaredType>),
    /// `&T` or `&mut T`
    Reference { mutable: bool, target: Box<DeclaredType> },
    /// `(A, B, ..)`, and `()` where there are no items
    Tuple(Vec<DeclaredType>),
    /// `a::b::C<..>`; `qualified` where it starts with `<T as Trait>::`
    Path { qualified: bool, segments: Vec<PathSegment> },
    /// `(T)`
    Paren(Box<DeclaredType>),
    /// Any other form of type, as it was written.
    Other(String),
}

/// One segment of a path, with what stands in brackets behind it.
#[derive(Debug, PartialEq, Eq)]
pub struct PathSegment {
    pub ident: String,
    pub parameters: PathParameters,
}

/// The parameters of one path segment.
#[derive(Debug, PartialEq, Eq)]
pub enum PathParameters {
    /// `<'a, T, A = B>`, in counts for lifetimes and bindings. A segment
    /// without brackets has this form with nothing in it.
    AngleBracketed { lifetimes: usize, types: Vec<DeclaredType>, bindings: usize },
    /// `(A, B) -> C`
    Parenthesized,
}

/// One parameter of a declared function.
#[derive(Debug, PartialEq, Eq)]
pub enum FnArg {
    /// `&self` or `&mut self`
    SelfRef,
    /// `self`
    SelfValue,
    /// `name: T`
    Captured(DeclaredType),
    /// `T` alone
    Ignored(DeclaredType),
}

/// What a declared function returns.
#[derive(Debug, PartialEq, Eq)]
pub enum FunctionRetTy {
    /// Nothing is written: the function returns `()`.
    Default,
    /// `-> T`
    Ty(DeclaredType),
}

/// The signature of a declared function.
#[derive(Debug, PartialEq, Eq)]
pub struct FnDecl {
    pub inputs: Vec<FnArg>,
    pub output: FunctionRetTy,
}

/// What kind of item was declared.
#[derive(Debug, PartialEq, Eq)]
pub enum ItemKind {
    /// A function.
    Fn(FnDecl),
    /// Anything else, as it was written.
    Other(String),
}

/// A declared item with its name.
#[derive(Debug, PartialEq, Eq)]
pub struct Item {
    pub ident: String,
    pub node: ItemKind,
}

impl PathParameters {
    /// Whether nothing stands in the brackets, or there are none.
    pub open spec fn is_none(self) -> bool {
        match self {
            PathParameters::AngleBracketed { lifetimes, types, bindings } => lifetimes == 0
                && types@.len() == 0 && bindings == 0,
            PathParameters::Parenthesized => false,
        }
    }

    /// Whether nothing stands in the brackets, or there are none.
    pub fn is_empty(&self) -> (empty: bool)
        ensures
            empty == self.is_none(),
    {
        match self {
            PathParameters::AngleBracketed { lifetimes, types, bindings } => *lifetimes == 0
                && types.len() == 0 && *bindings == 0,
            PathParameters::Parenthesized => false,
        }
    }
}

/// `ty` without the parentheses around it.
pub open spec fn resolved(ty: DeclaredType) -> DeclaredType
    decreases ty,
{
    match ty {
        DeclaredType::Paren(inner) => resolved(*inner),
        _ => ty,
    }
}

/// Looks through any number of parentheses around a type.
pub fn resolve_parens(ty: &DeclaredType) -> (inner: &DeclaredType)
    ensures
        *inner == resolved(*ty),
        !(*inner is Paren),
    decreases ty,
{
    match ty {
        DeclaredType::Paren(inner) => resolve_parens(inner),
        _ => ty,
    }
}

/// Takes a type out of any number of parentheses around it.
pub fn into_resolved(ty: DeclaredType) -> (inner: DeclaredType)
    ensures
        inner == resolved(ty),
    decreases ty,
{
    match ty {
        DeclaredType::Paren(inner) => into_resolved(*inner),
        other => other,
    }
}

/// The one segment of a path type that has one segment and is not
/// qualified.
pub open spec fn single_segment(ty: DeclaredType) -> Option<PathSegment> {
    match resolved(ty) {
        DeclaredType::Path { qualified, segments } => if !qualified && segments@.len() == 1 {
            Some(segments@[0])
        } else {
            None
        },
        _ => None,
    }
}

/// The one segment of a path type that has one segment and is not
/// qualified.
pub fn path_as_single_segment(ty: &DeclaredType) -> (segment: Option<&PathSegment>)
    ensures
        match segment {
            Some(s) => single_segment(*ty) == Some(*s),
            None => single_segment(*ty) is None,
        },
{
    match resolve_parens(ty) {
        DeclaredType::Path { qualified, segments } => {
            if !*qualified && segments.len() == 1 {
                Some(&segments[0])
            } else {
                None
            }
        },
        _ => None,
    }
}

} // verus!
