//! From a declared item to the signature that the generators work on.

use crate::error::MacroError;
use crate::syntax::{FnArg, FnDecl, FunctionRetTy, Item, ItemKind};
use crate::types::{
    refuses_string_argument, refuses_string_result, SupportedArgumentType, SupportedRetType,
};
use vstd::prelude::*;
use vstd::string::*;

verus! {

/// The signature of one function that is to be reachable from the host.
#[derive(Debug, Clone, PartialEq, Eq)]
pub struct JsFnInfo {
    /// The name that the function was declared with.
    pub rust_name: String,
    /// The types of its arguments, in order.
    pub args_ty: Vec<SupportedArgumentType>,
    /// The type of its result.
    pub ret_ty: SupportedRetType,
}

/// A signature as the generators see it: a name, the types of the
/// arguments in order, and the type of the result.
pub struct Signature {
    pub name: Seq<char>,
    pub args: Seq<SupportedArgumentType>,
    pub ret: SupportedRetType,
}

impl View for JsFnInfo {
    type V = Signature;

    open spec fn view(&self) -> Signature {
        Signature { name: self.rust_name@, args: self.args_ty@, ret: self.ret_ty }
    }
}

impl Signature {
    /// Whether every type of the signature has a form in module memory.
    /// A `String` has none.
    pub open spec fn is_marshaled(self) -> bool {
        &&& forall|i: int| 0 <= i < self.args.len() ==> !(#[trigger] self.args[i] is OwnedString)
        &&& !(self.ret is OwnedString)
    }

    /// Whether a `String` is among the arguments.
    pub open spec fn has_string_argument(self) -> bool {
        exists|i: int| 0 <= i < self.args.len() && #[trigger] self.args[i] is OwnedString
    }

    /// Whether `e` is the refusal that this signature calls for: that of a
    /// `String` argument where it has one, else that of its `String`
    /// result.
    pub open spec fn is_refused_by(self, e: MacroError) -> bool {
        if self.has_string_argument() {
            refuses_string_argument(e)
        } else {
            self.ret is OwnedString && refuses_string_result(e)
        }
    }
}

/// The signatures of a list of functions, in order.
pub open spec fn signatures(infos: Seq<JsFnInfo>) -> Seq<Signature> {
    Seq::new(infos.len(), |i: int| infos[i]@)
}

/// What one declared parameter is recognised as.
pub open spec fn argument_type(arg: FnArg) -> Result<SupportedArgumentType, MacroError> {
    match arg {
        FnArg::SelfRef | FnArg::SelfValue => Err(MacroError::InvalidArgument { arg }),
        FnArg::Captured(ty) | FnArg::Ignored(ty) => match SupportedArgumentType::of(ty) {
            Some(known) => Ok(known),
            None => Err(MacroError::UnhandledArgumentType { ty: crate::syntax::resolved(ty) }),
        },
    }
}

/// What the declared parameters are recognised as, in order, or the refusal
/// of the first of them that is refused.
pub open spec fn argument_types(inputs: Seq<FnArg>) -> Result<
    Seq<SupportedArgumentType>,
    MacroError,
>
    decreases inputs.len(),
{
    if inputs.len() == 0 {
        Ok(Seq::empty())
    } else {
        match argument_types(inputs.drop_last()) {
            Err(e) => Err(e),
            Ok(types) => match argument_type(inputs.last()) {
                Ok(known) => Ok(types.push(known)),
                Err(e) => Err(e),
            },
        }
    }
}

/// What the declared return type is recognised as.
pub open spec fn ret_type(output: FunctionRetTy) -> Result<SupportedRetType, MacroError> {
    match output {
        FunctionRetTy::Default => Ok(SupportedRetType::Unit),
        FunctionRetTy::Ty(ty) => match SupportedRetType::of(ty) {
            Some(known) => Ok(known),
            None => Err(MacroError::UnhandledRetType { ty: crate::syntax::resolved(ty) }),
        },
    }
}

/// The name and signature of an item that is a function.
pub fn extract_func_info(item: Item) -> (found: Result<(String, FnDecl), MacroError>)
    ensures
        found == match item.node {
            ItemKind::Fn(decl) => Ok::<(String, FnDecl), MacroError>((item.ident, decl)),
            other => Err(MacroError::InvalidItemKind { kind: other }),
        },
{
    let Item { ident, node } = item;
    match node {
        ItemKind::Fn(decl) => Ok((ident, decl)),
        other => Err(MacroError::InvalidItemKind { kind: other }),
    }
}

fn get_argument_type(arg: FnArg) -> (found: Result<SupportedArgumentType, MacroError>)
    ensures
        found == argument_type(arg),
{
    match arg {
        FnArg::SelfRef => Err(MacroError::InvalidArgument { arg: FnArg::SelfRef }),
        FnArg::SelfValue => Err(MacroError::InvalidArgument { arg: FnArg::SelfValue }),
        FnArg::Captured(ty) => SupportedArgumentType::new(ty),
        FnArg::Ignored(ty) => SupportedArgumentType::new(ty),
    }
}

/// The types of the arguments of a declared function, in order. The first
/// parameter that is `self`, or whose type cannot cross the boundary, is
/// refused, and with it the function.
pub fn get_argument_types(inputs: Vec<FnArg>) -> (found: Result<
    Vec<SupportedArgumentType>,
    MacroError,
>)
    ensures
        match found {
            Ok(types) => argument_types(inputs@) == Ok::<Seq<SupportedArgumentType>, MacroError>(
                types@,
            ),
            Err(e) => argument_types(inputs@) == Err::<Seq<SupportedArgumentType>, MacroError>(e),
        },
{
    let mut types: Vec<SupportedArgumentType> = Vec::new();
    let ghost all = inputs@;
    assert(all.take(0) =~= Seq::<FnArg>::empty());
    for arg in it: inputs
        invariant
            it.seq() == all,
            argument_types(all.take(it.index() as int)) == Ok::<
                Seq<SupportedArgumentType>,
                MacroError,
            >(types@),
    {
        let ghost upto = all.take(it.index() + 1);
        assert(upto.drop_last() =~= all.take(it.index() as int));
        assert(upto.last() == arg);
        match get_argument_type(arg) {
            Ok(known) => {
                types.push(known);
            },
            Err(e) => {
                proof {
                    lemma_refusal_stays(all, it.index() + 1);
                }
                return Err(e);
            },
        }
    }
    assert(all.take(all.len() as int) =~= all);
    Ok(types)
}

/// Once a parameter has been refused, the function stays refused however
/// many parameters follow.
proof fn lemma_refusal_stays(inputs: Seq<FnArg>, n: int)
    requires
        0 <= n <= inputs.len(),
        argument_types(inputs.take(n)) is Err,
    ensures
        argument_types(inputs) == argument_types(inputs.take(n)),
    decreases inputs.len() - n,
{
    if n == inputs.len() {
        assert(inputs.take(n) =~= inputs);
    } else {
        assert(inputs.drop_last().take(n) =~= inputs.take(n));
        lemma_refusal_stays(inputs.drop_last(), n);
    }
}

/// The type of the result of a declared function.
pub fn get_ret_type(output: FunctionRetTy) -> (found: Result<SupportedRetType, MacroError>)
    ensures
        found == ret_type(output),
{
    match output {
        FunctionRetTy::Default => Ok(SupportedRetType::unit()),
        FunctionRetTy::Ty(ty) => SupportedRetType::new(ty),
    }
}

impl JsFnInfo {
    /// What a declared item becomes: its signature, or the first reason
    /// why it has none. The kind of item is looked at first, then its
    /// parameters in order, then its return type.
    pub open spec fn of(item: Item) -> Result<Signature, MacroError> {
        match item.node {
            ItemKind::Fn(decl) => match argument_types(decl.inputs@) {
                Err(e) => Err(e),
                Ok(types) => match ret_type(decl.output) {
                    Err(e) => Err(e),
                    Ok(ret) => Ok(Signature { name: item.ident@, args: types, ret }),
                },
            },
            other => Err(MacroError::InvalidItemKind { kind: other }),
        }
    }

    /// The signature of a declared item, if it is a function whose types
    /// can all cross the boundary.
    pub fn try_from(item: Item) -> (found: Result<Self, MacroError>)
        ensures
            match found {
                Ok(info) => Self::of(item) == Ok::<Signature, MacroError>(info@),
                Err(e) => Self::of(item) == Err::<Signature, MacroError>(e),
            },
    {
        let (ident, decl) = match extract_func_info(item) {
            Ok(pair) => pair,
            Err(e) => {
                return Err(e);
            },
        };
        let FnDecl { inputs, output } = decl;
        let args_ty = match get_argument_types(inputs) {
            Ok(types) => types,
            Err(e) => {
                return Err(e);
            },
        };
        let ret_ty = match get_ret_type(output) {
            Ok(ret) => ret,
            Err(e) => {
                return Err(e);
            },
        };
        Ok(JsFnInfo { rust_name: ident, args_ty, ret_ty })
    }
}

/// The name that a function is exported from the module under.
#[derive(Debug, Clone)]
pub struct TransformedRustIdent<'a> {
    name: &'a str,
}

/// What is put before a function's name to make its exported name.
pub open spec fn transformed_prefix() -> Seq<char> {
    "__js_fn_"@
}

impl<'a> TransformedRustIdent<'a> {
    /// The name that this stands for.
    pub closed spec fn name(self) -> Seq<char> {
        self.name@
    }

    /// The exported name of the function that was declared as `name`.
    pub fn new(name: &'a str) -> (ident: TransformedRustIdent<'a>)
        ensures
            ident.name() == name@,
    {
        TransformedRustIdent { name }
    }

    /// The exported name written out: the prefix, then the declared name.
    pub fn to_text(&self) -> (text: String)
        ensures
            text@ == transformed_prefix() + self.name(),
    {
        let mut text = String::from_str("__js_fn_");
        text.append(self.name);
        text
    }
}

} // verus!
