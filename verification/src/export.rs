//! The raw signature that a function is exported from the module under:
//! pointers and lengths in place of buffers, and a pointer to a record of
//! three words in place of a returned vector.

use crate::error::MacroError;
use crate::naming::{suffix_capacity, ConstructedArgIdent, IdentParts};
use crate::processing::{transformed_prefix, JsFnInfo, Signature, TransformedRustIdent};
use crate::types::{
    owned_string_type, refuses_string_argument, refuses_string_result, SupportedArgumentType,
    SupportedCopyTy, SupportedRetType,
};
use vstd::prelude::*;
use vstd::string::*;

verus! {

/// The type of one raw parameter.
#[derive(Debug, Copy, Clone, PartialEq, Eq, Structural)]
pub enum RawType {
    /// `*const T`
    ConstPointer(SupportedCopyTy),
    /// `*mut T`
    MutPointer(SupportedCopyTy),
    /// `usize`: a count of elements, not of bytes
    Length,
    /// `T`
    Scalar(SupportedCopyTy),
}

/// One parameter of the exported function.
pub struct RawParameter {
    pub name: ConstructedArgIdent,
    pub ty: RawType,
}

/// One parameter of the exported function, by the parts of its name.
pub struct RawParameterView {
    pub name: IdentParts,
    pub ty: RawType,
}

impl View for RawParameter {
    type V = RawParameterView;

    open spec fn view(&self) -> RawParameterView {
        RawParameterView { name: self.name@, ty: self.ty }
    }
}

/// What the exported function is written to return.
#[derive(Debug, Copy, Clone, PartialEq, Eq, Structural)]
pub enum WrittenReturnType {
    /// Nothing is written: the function returns `()`.
    Nothing,
    /// `-> T`
    Scalar(SupportedCopyTy),
    /// `-> *const usize`: the address of the record of a vector
    RecordPointer,
}

/// How the exported function turns the result of the declared function
/// into what it returns.
#[derive(Debug, Copy, Clone, PartialEq, Eq, Structural)]
pub enum ReturnHandling {
    /// The result is returned as it is.
    PassThrough,
    /// The vector's pointer, length and capacity are put into a boxed
    /// record, in the order of `record_fields`, the vector is forgotten,
    /// and the address of the record is returned. Both now belong to the
    /// host.
    BoxedRecord(SupportedCopyTy),
}

/// How the exported function makes an argument of the declared function
/// from its raw parameters.
#[derive(Debug, Copy, Clone, PartialEq, Eq, Structural)]
pub enum SetupKind {
    /// `slice::from_raw_parts(ptr, len)`
    Slice,
    /// `slice::from_raw_parts_mut(ptr, len)`
    SliceMut,
    /// `slice::from_raw_parts(ptr, len).to_vec()`: a vector of its own, with
    /// the elements copied. The buffer stays the host's, which frees it.
    Vector,
}

/// The making of one argument that travels as a buffer.
pub struct ArgumentSetup {
    /// The argument that is made.
    pub target: ConstructedArgIdent,
    pub element: SupportedCopyTy,
    pub kind: SetupKind,
    /// The raw parameter that holds the address.
    pub ptr: ConstructedArgIdent,
    /// The raw parameter that holds the element count.
    pub len: ConstructedArgIdent,
}

/// The making of one argument, by the parts of the names.
pub struct ArgumentSetupView {
    pub target: IdentParts,
    pub element: SupportedCopyTy,
    pub kind: SetupKind,
    pub ptr: IdentParts,
    pub len: IdentParts,
}

impl View for ArgumentSetup {
    type V = ArgumentSetupView;

    open spec fn view(&self) -> ArgumentSetupView {
        ArgumentSetupView {
            target: self.target@,
            element: self.element,
            kind: self.kind,
            ptr: self.ptr@,
            len: self.len@,
        }
    }
}

/// All that is needed to write out the exported function.
pub struct ExportWrapper {
    /// The name that the function is exported under.
    pub name: String,
    /// The raw parameters, in order.
    pub parameters: Vec<RawParameter>,
    /// The making of the arguments that travel as buffers, in order.
    pub setups: Vec<ArgumentSetup>,
    /// The arguments of the declared function, in order.
    pub arguments: Vec<ConstructedArgIdent>,
    /// The type of the declared function's result.
    pub result: SupportedRetType,
    /// What the exported function is written to return.
    pub written_return: WrittenReturnType,
    /// How it gets there from the result.
    pub handling: ReturnHandling,
}

/// An exported function, by the parts of the names.
pub struct ExportWrapperView {
    pub name: Seq<char>,
    pub parameters: Seq<RawParameterView>,
    pub setups: Seq<ArgumentSetupView>,
    pub arguments: Seq<IdentParts>,
    pub result: SupportedRetType,
    pub written_return: WrittenReturnType,
    pub handling: ReturnHandling,
}

/// The raw parameters of a list, by the parts of their names.
pub open spec fn parameter_views(params: Seq<RawParameter>) -> Seq<RawParameterView> {
    Seq::new(params.len(), |i: int| params[i]@)
}

/// The setups of a list, by the parts of the names.
pub open spec fn setup_views(setups: Seq<ArgumentSetup>) -> Seq<ArgumentSetupView> {
    Seq::new(setups.len(), |i: int| setups[i]@)
}

/// The names of a list, by their parts.
pub open spec fn ident_views(idents: Seq<ConstructedArgIdent>) -> Seq<IdentParts> {
    Seq::new(idents.len(), |i: int| idents[i]@)
}

impl View for ExportWrapper {
    type V = ExportWrapperView;

    open spec fn view(&self) -> ExportWrapperView {
        ExportWrapperView {
            name: self.name@,
            parameters: parameter_views(self.parameters@),
            setups: setup_views(self.setups@),
            arguments: ident_views(self.arguments@),
            result: self.result,
            written_return: self.written_return,
            handling: self.handling,
        }
    }
}

/// The name of the argument at `index` inside the exported function.
pub open spec fn argument_ident(index: nat) -> IdentParts {
    IdentParts { base: "__arg"@, number: index, suffixes: Seq::empty() }
}

/// The raw parameters that stand for one argument: a number as it is; a
/// buffer as a pointer and an element count, the pointer to constant
/// elements only for an immutable slice.
pub open spec fn raw_parameters(name: IdentParts, ty: SupportedArgumentType) -> Seq<
    RawParameterView,
> {
    match ty {
        SupportedArgumentType::IntegerSliceRef(inner) => seq![
            RawParameterView { name: name.with_suffix("_ptr"@), ty: RawType::ConstPointer(inner) },
            RawParameterView { name: name.with_suffix("_len"@), ty: RawType::Length },
        ],
        SupportedArgumentType::IntegerSliceMutRef(inner)
        | SupportedArgumentType::IntegerVec(inner) => seq![
            RawParameterView { name: name.with_suffix("_ptr"@), ty: RawType::MutPointer(inner) },
            RawParameterView { name: name.with_suffix("_len"@), ty: RawType::Length },
        ],
        SupportedArgumentType::Integer(inner) => seq![
            RawParameterView { name, ty: RawType::Scalar(inner) },
        ],
        SupportedArgumentType::OwnedString => Seq::empty(),
    }
}

/// How one argument is made from its raw parameters, where it travels as a
/// buffer.
pub open spec fn argument_setup(name: IdentParts, ty: SupportedArgumentType) -> Option<
    ArgumentSetupView,
> {
    match ty {
        SupportedArgumentType::IntegerSliceRef(inner) => Some(
            ArgumentSetupView {
                target: name,
                element: inner,
                kind: SetupKind::Slice,
                ptr: name.with_suffix("_ptr"@),
                len: name.with_suffix("_len"@),
            },
        ),
        SupportedArgumentType::IntegerSliceMutRef(inner) => Some(
            ArgumentSetupView {
                target: name,
                element: inner,
                kind: SetupKind::SliceMut,
                ptr: name.with_suffix("_ptr"@),
                len: name.with_suffix("_len"@),
            },
        ),
        SupportedArgumentType::IntegerVec(inner) => Some(
            ArgumentSetupView {
                target: name,
                element: inner,
                kind: SetupKind::Vector,
                ptr: name.with_suffix("_ptr"@),
                len: name.with_suffix("_len"@),
            },
        ),
        _ => None,
    }
}

/// What the exported function is written to return for a result type.
pub open spec fn written_return(ty: SupportedRetType) -> WrittenReturnType {
    match ty {
        SupportedRetType::Integer(inner) => WrittenReturnType::Scalar(inner),
        SupportedRetType::IntegerVec(_) => WrittenReturnType::RecordPointer,
        _ => WrittenReturnType::Nothing,
    }
}

/// How the result gets out for a result type.
pub open spec fn handling_of(ty: SupportedRetType) -> ReturnHandling {
    match ty {
        SupportedRetType::IntegerVec(inner) => ReturnHandling::BoxedRecord(inner),
        _ => ReturnHandling::PassThrough,
    }
}

/// The raw parameters for the first `n` arguments, in order.
pub open spec fn all_raw_parameters(args: Seq<SupportedArgumentType>, n: nat) -> Seq<
    RawParameterView,
>
    decreases n,
{
    if n == 0 || n > args.len() {
        Seq::empty()
    } else {
        all_raw_parameters(args, (n - 1) as nat) + raw_parameters(
            argument_ident((n - 1) as nat),
            args[n - 1],
        )
    }
}

/// The setups for the first `n` arguments, in order.
pub open spec fn all_setups(args: Seq<SupportedArgumentType>, n: nat) -> Seq<ArgumentSetupView>
    decreases n,
{
    if n == 0 || n > args.len() {
        Seq::empty()
    } else {
        match argument_setup(argument_ident((n - 1) as nat), args[n - 1]) {
            Some(setup) => all_setups(args, (n - 1) as nat).push(setup),
            None => all_setups(args, (n - 1) as nat),
        }
    }
}

/// The exported function for a signature.
pub open spec fn export_of(sig: Signature) -> ExportWrapperView {
    ExportWrapperView {
        name: transformed_prefix() + sig.name,
        parameters: all_raw_parameters(sig.args, sig.args.len()),
        setups: all_setups(sig.args, sig.args.len()),
        arguments: Seq::new(sig.args.len(), |i: int| argument_ident(i as nat)),
        result: sig.ret,
        written_return: written_return(sig.ret),
        handling: handling_of(sig.ret),
    }
}

/// Adds the raw parameters that stand for one argument to `params`. A
/// `String` is refused, and nothing is added.
pub fn expand_argument_into(
    arg_name: &ConstructedArgIdent,
    type_type: &SupportedArgumentType,
    params: &mut Vec<RawParameter>,
) -> (done: Result<(), MacroError>)
    requires
        type_type.is_buffer() ==> arg_name@.suffixes.len() < suffix_capacity(),
    ensures
        match done {
            Ok(_) => !(*type_type is OwnedString) && parameter_views(final(params)@)
                == parameter_views(old(params)@) + raw_parameters(arg_name@, *type_type),
            Err(e) => *type_type is OwnedString && refuses_string_argument(e) && final(params)@
                == old(params)@,
        },
{
    let ghost before = parameter_views(params@);
    match *type_type {
        SupportedArgumentType::IntegerSliceRef(int_ty) => {
            let ptr_arg_name = arg_name.with_suffix("_ptr");
            let length_arg_name = arg_name.with_suffix("_len");
            params.push(RawParameter { name: ptr_arg_name, ty: RawType::ConstPointer(int_ty) });
            params.push(RawParameter { name: length_arg_name, ty: RawType::Length });
        },
        SupportedArgumentType::IntegerSliceMutRef(int_ty)
        | SupportedArgumentType::IntegerVec(int_ty) => {
            let ptr_arg_name = arg_name.with_suffix("_ptr");
            let length_arg_name = arg_name.with_suffix("_len");
            params.push(RawParameter { name: ptr_arg_name, ty: RawType::MutPointer(int_ty) });
            params.push(RawParameter { name: length_arg_name, ty: RawType::Length });
        },
        SupportedArgumentType::Integer(int_ty) => {
            params.push(RawParameter { name: arg_name.duplicate(), ty: RawType::Scalar(int_ty) });
        },
        SupportedArgumentType::OwnedString => {
            return Err(MacroError::UnhandledArgumentType { ty: owned_string_type() });
        },
    }
    assert(parameter_views(params@) =~= before + raw_parameters(arg_name@, *type_type));
    Ok(())
}

impl WrittenReturnType {
    /// What the exported function is written to return for a result type.
    /// A `String` is refused.
    pub fn new(ty: &SupportedRetType) -> (found: Result<Self, MacroError>)
        ensures
            match found {
                Ok(written) => !(*ty is OwnedString) && written == written_return(*ty),
                Err(e) => *ty is OwnedString && refuses_string_result(e),
            },
    {
        match *ty {
            SupportedRetType::Unit => Ok(WrittenReturnType::Nothing),
            SupportedRetType::Integer(int_ty) => Ok(WrittenReturnType::Scalar(int_ty)),
            SupportedRetType::IntegerVec(_) => Ok(WrittenReturnType::RecordPointer),
            SupportedRetType::OwnedString => Err(
                MacroError::UnhandledRetType { ty: owned_string_type() },
            ),
        }
    }
}

/// How one argument is made from its raw parameters; nothing for a number.
/// A `String` is refused.
pub fn setup_for_argument(arg_name: &ConstructedArgIdent, ty: &SupportedArgumentType) -> (found:
    Result<Option<ArgumentSetup>, MacroError>)
    requires
        ty.is_buffer() ==> arg_name@.suffixes.len() < suffix_capacity(),
    ensures
        match found {
            Ok(Some(setup)) => argument_setup(arg_name@, *ty) == Some(setup@),
            Ok(None) => *ty is Integer,
            Err(e) => *ty is OwnedString && refuses_string_argument(e),
        },
{
    let (element, kind) = match *ty {
        SupportedArgumentType::IntegerSliceRef(int_ty) => (int_ty, SetupKind::Slice),
        SupportedArgumentType::IntegerSliceMutRef(int_ty) => (int_ty, SetupKind::SliceMut),
        SupportedArgumentType::IntegerVec(int_ty) => (int_ty, SetupKind::Vector),
        SupportedArgumentType::Integer(_) => {
            return Ok(None);
        },
        SupportedArgumentType::OwnedString => {
            return Err(MacroError::UnhandledArgumentType { ty: owned_string_type() });
        },
    };
    let ptr_arg_name = arg_name.with_suffix("_ptr");
    let length_arg_name = arg_name.with_suffix("_len");
    Ok(
        Some(
            ArgumentSetup {
                target: arg_name.duplicate(),
                element,
                kind,
                ptr: ptr_arg_name,
                len: length_arg_name,
            },
        ),
    )
}

/// How the result gets out. A `String` is refused.
pub fn return_handling(ty: &SupportedRetType) -> (found: Result<ReturnHandling, MacroError>)
    ensures
        match found {
            Ok(handling) => !(*ty is OwnedString) && handling == handling_of(*ty),
            Err(e) => *ty is OwnedString && refuses_string_result(e),
        },
{
    match *ty {
        SupportedRetType::Unit | SupportedRetType::Integer(_) => Ok(ReturnHandling::PassThrough),
        SupportedRetType::IntegerVec(int_ty) => Ok(ReturnHandling::BoxedRecord(int_ty)),
        SupportedRetType::OwnedString => Err(
            MacroError::UnhandledRetType { ty: owned_string_type() },
        ),
    }
}

/// The exported function for a signature. A signature with a `String` in
/// it is refused.
pub fn generate_function_wrapper(info: &JsFnInfo) -> (found: Result<ExportWrapper, MacroError>)
    requires
        info.args_ty@.len() <= u32::MAX,
    ensures
        match found {
            Ok(wrapper) => info@.is_marshaled() && wrapper@ == export_of(info@),
            Err(e) => !info@.is_marshaled() && info@.is_refused_by(e),
        },
{
    let n = info.args_ty.len();
    let ghost args = info.args_ty@;
    let mut arguments: Vec<ConstructedArgIdent> = Vec::new();
    let mut setups: Vec<ArgumentSetup> = Vec::new();
    let mut parameters: Vec<RawParameter> = Vec::new();
    proof {
        assert(parameter_views(parameters@) =~= all_raw_parameters(args, 0));
        assert(setup_views(setups@) =~= all_setups(args, 0));
    }
    for i in 0..n
        invariant
            n == args.len(),
            n <= u32::MAX,
            args == info.args_ty@,
            arguments@.len() == i,
            forall|k: int| 0 <= k < i ==> (#[trigger] arguments@[k])@ == argument_ident(k as nat),
            forall|k: int| 0 <= k < i ==> !(#[trigger] args[k] is OwnedString),
            parameter_views(parameters@) == all_raw_parameters(args, i as nat),
            setup_views(setups@) == all_setups(args, i as nat),
    {
        let arg_name = ConstructedArgIdent::new("__arg", i as u32);
        let ghost setups_before = setup_views(setups@);
        match setup_for_argument(&arg_name, &info.args_ty[i]) {
            Ok(Some(setup)) => {
                setups.push(setup);
                assert(setup_views(setups@) =~= setups_before.push(setup@));
            },
            Ok(None) => {},
            Err(e) => {
                assert(info@.args[i as int] is OwnedString);
                return Err(e);
            },
        }
        match expand_argument_into(&arg_name, &info.args_ty[i], &mut parameters) {
            Ok(_) => {},
            Err(e) => {
                return Err(e);
            },
        }
        arguments.push(arg_name);
    }
    let written = match WrittenReturnType::new(&info.ret_ty) {
        Ok(written) => written,
        Err(e) => {
            return Err(e);
        },
    };
    let handling = match return_handling(&info.ret_ty) {
        Ok(handling) => handling,
        Err(e) => {
            return Err(e);
        },
    };
    let name = TransformedRustIdent::new(info.rust_name.as_str()).to_text();
    let wrapper = ExportWrapper {
        name,
        parameters,
        setups,
        arguments,
        result: info.ret_ty,
        written_return: written,
        handling,
    };
    proof {
        assert(wrapper@.arguments =~= export_of(info@).arguments);
    }
    Ok(wrapper)
}

/// Whether `name` is one of the names that stand for the arguments below
/// `bound`: the argument itself, its pointer or its element count.
pub open spec fn is_parameter_name(name: IdentParts, bound: nat) -> bool {
    &&& name.base == "__arg"@
    &&& name.number < bound
    &&& (name.suffixes == Seq::<Seq<char>>::empty() || name.suffixes == seq!["_ptr"@]
        || name.suffixes == seq!["_len"@])
}

/// Whether the raw parameter named `a` stands before the one named `b`: it
/// belongs to an earlier argument, or it is the pointer and `b` the element
/// count of the same one.
pub open spec fn stands_before(a: IdentParts, b: IdentParts) -> bool {
    a.number < b.number || (a.number == b.number && a.suffixes == seq!["_ptr"@] && b.suffixes
        == seq!["_len"@])
}

proof fn lemma_parameters_in_order(args: Seq<SupportedArgumentType>, n: nat)
    requires
        n <= args.len(),
    ensures
        forall|p: int|
            0 <= p < all_raw_parameters(args, n).len() ==> is_parameter_name(
                (#[trigger] all_raw_parameters(args, n)[p]).name,
                n,
            ),
        forall|p: int, q: int|
            0 <= p < q < all_raw_parameters(args, n).len() ==> stands_before(
                (#[trigger] all_raw_parameters(args, n)[p]).name,
                (#[trigger] all_raw_parameters(args, n)[q]).name,
            ),
    decreases n,
{
    if n > 0 {
        let before = all_raw_parameters(args, (n - 1) as nat);
        let added = raw_parameters(argument_ident((n - 1) as nat), args[n - 1]);
        let all = all_raw_parameters(args, n);
        lemma_parameters_in_order(args, (n - 1) as nat);
        assert(all == before + added);
        assert forall|p: int| 0 <= p < all.len() implies is_parameter_name(
            (#[trigger] all[p]).name,
            n,
        ) by {
            if p < before.len() {
                assert(all[p] == before[p]);
            } else {
                assert(all[p] == added[p - before.len()]);
            }
        }
        assert forall|p: int, q: int| 0 <= p < q < all.len() implies stands_before(
            (#[trigger] all[p]).name,
            (#[trigger] all[q]).name,
        ) by {
            if q < before.len() {
                assert(all[p] == before[p]);
                assert(all[q] == before[q]);
            } else if p < before.len() {
                assert(all[p] == before[p]);
                assert(all[q] == added[q - before.len()]);
                assert(is_parameter_name(before[p].name, (n - 1) as nat));
            } else {
                assert(all[p] == added[p - before.len()]);
                assert(all[q] == added[q - before.len()]);
            }
        }
    }
}

proof fn lemma_suffix_texts()
    ensures
        crate::naming::joined(Seq::empty()) == Seq::<char>::empty(),
        crate::naming::joined(seq!["_ptr"@]) == "_ptr"@,
        crate::naming::joined(seq!["_len"@]) == "_len"@,
        "_ptr"@ != "_len"@,
        "_ptr"@.len() > 0 && !crate::text::is_digit("_ptr"@[0]),
        "_len"@.len() > 0 && !crate::text::is_digit("_len"@[0]),
{
    reveal_strlit("_ptr");
    reveal_strlit("_len");
    assert(crate::naming::joined(Seq::empty()) == Seq::<char>::empty());
    assert(seq!["_ptr"@].drop_last() =~= Seq::<Seq<char>>::empty());
    assert(seq!["_len"@].drop_last() =~= Seq::<Seq<char>>::empty());
    assert(seq!["_ptr"@].last() == "_ptr"@);
    assert(seq!["_len"@].last() == "_len"@);
    assert(crate::naming::joined(seq!["_ptr"@]) =~= "_ptr"@);
    assert(crate::naming::joined(seq!["_len"@]) =~= "_len"@);
    assert("_ptr"@[1] != "_len"@[1]);
}

/// No two raw parameters of an exported function are written with the same
/// name.
pub proof fn lemma_parameter_names_differ(args: Seq<SupportedArgumentType>, p: int, q: int)
    requires
        0 <= p < q < all_raw_parameters(args, args.len()).len(),
    ensures
        all_raw_parameters(args, args.len())[p].name.text() != all_raw_parameters(
            args,
            args.len(),
        )[q].name.text(),
{
    let all = all_raw_parameters(args, args.len());
    let a = all[p].name;
    let b = all[q].name;
    lemma_parameters_in_order(args, args.len());
    lemma_suffix_texts();
    assert(is_parameter_name(a, args.len()));
    assert(is_parameter_name(b, args.len()));
    assert(stands_before(a, b));
    if a.text() == b.text() {
        crate::text::lemma_numbered_names(
            "__arg"@,
            a.number,
            crate::naming::joined(a.suffixes),
            b.number,
            crate::naming::joined(b.suffixes),
        );
    }
}

} // verus!
