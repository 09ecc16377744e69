//! The steps of a generated method, in the order in which it takes them,
//! and the text that each of them is written as.

use crate::generation::argument::{deallocate_text, prepare_text, propagate_text, validate_text};
use crate::generation::returned::{deallocate_return_text, read_return_text};
use crate::indented_write::indent_text;
use crate::style::AccessStyle;
use crate::text::decimal;
use crate::types::{SupportedArgumentType, SupportedRetType};
use vstd::prelude::*;

verus! {

/// One step of a generated method.
pub enum MethodStep {
    /// The argument is validated, and an error is thrown where it is not
    /// what it should be.
    Validate { index: nat, ty: SupportedArgumentType },
    /// A buffer is allocated for the argument and filled from it.
    CopyIn { index: nat, ty: SupportedArgumentType },
    /// The module's function is called.
    Invoke,
    /// The view of the memory is renewed if the memory has grown.
    RefreshMemory,
    /// The argument's buffer is copied back into the host's array.
    CopyOut { index: nat, ty: SupportedArgumentType },
    /// The result is read, and a returned vector is copied out.
    ReadReturn { ret: SupportedRetType },
    /// The argument's buffer is freed.
    Release { index: nat, ty: SupportedArgumentType },
    /// What a returned vector occupied is freed.
    ReleaseReturn { ret: SupportedRetType },
    /// The method returns what it has read.
    Return,
}

/// What the generated code does where an argument is not valid.
pub open spec fn failure_text() -> Seq<char> {
    "throw new Error();"@
}

/// The name of the argument at `index`.
pub open spec fn arg_name_text(index: nat) -> Seq<char> {
    "arg"@ + decimal(index)
}

/// The names of the first `n` arguments, with commas between them.
pub open spec fn parameters_text(n: nat) -> Seq<char>
    decreases n,
{
    if n == 0 {
        Seq::empty()
    } else if n == 1 {
        parameters_text(0) + arg_name_text(0)
    } else {
        parameters_text((n - 1) as nat) + ", "@ + arg_name_text((n - 1) as nat)
    }
}

/// What is handed to the module's function for one argument: a number as
/// it is, a buffer as its pointer and its element count.
pub open spec fn raw_argument_text(index: nat, ty: SupportedArgumentType) -> Seq<char> {
    if ty.is_buffer() {
        arg_name_text(index) + "_ptr, "@ + arg_name_text(index) + "_len"@
    } else {
        arg_name_text(index)
    }
}

/// What is handed to the module's function for all arguments, in order.
pub open spec fn call_arguments_text(args: Seq<SupportedArgumentType>) -> Seq<char>
    decreases args.len(),
{
    if args.len() == 0 {
        Seq::empty()
    } else if args.len() == 1 {
        call_arguments_text(args.drop_last()) + raw_argument_text(0, args.last())
    } else {
        call_arguments_text(args.drop_last()) + ", "@ + raw_argument_text(
            (args.len() - 1) as nat,
            args.last(),
        )
    }
}

/// The call of the module's function.
pub open spec fn invoke_text(name: Seq<char>, args: Seq<SupportedArgumentType>) -> Seq<char> {
    "let result = this._funcs['"@ + name + "']("@ + call_arguments_text(args) + ");\n"@
}

/// The text of one step.
pub open spec fn step_text(
    indent: nat,
    style: AccessStyle,
    name: Seq<char>,
    args: Seq<SupportedArgumentType>,
    step: MethodStep,
) -> Seq<char> {
    match step {
        MethodStep::Validate { index, ty } => validate_text(
            indent,
            arg_name_text(index),
            ty,
            failure_text(),
        ),
        MethodStep::CopyIn { index, ty } => prepare_text(indent, style, arg_name_text(index), ty),
        MethodStep::Invoke => invoke_text(name, args),
        MethodStep::RefreshMemory => "this._check_mem_realloc();\n"@,
        MethodStep::CopyOut { index, ty } => propagate_text(
            indent,
            style,
            arg_name_text(index),
            ty,
        ),
        MethodStep::ReadReturn { ret } => read_return_text(
            indent,
            style,
            ret,
            "result"@,
            "return_value"@,
        ),
        MethodStep::Release { index, ty } => deallocate_text(arg_name_text(index), ty),
        MethodStep::ReleaseReturn { ret } => deallocate_return_text("result"@, ret),
        MethodStep::Return => "return return_value;\n"@,
    }
}

/// The text of a run of steps: the text of each, one after the other.
pub open spec fn steps_text(
    indent: nat,
    style: AccessStyle,
    name: Seq<char>,
    args: Seq<SupportedArgumentType>,
    steps: Seq<MethodStep>,
) -> Seq<char>
    decreases steps.len(),
{
    if steps.len() == 0 {
        Seq::empty()
    } else {
        steps_text(indent, style, name, args, steps.drop_last()) + step_text(
            indent,
            style,
            name,
            args,
            steps.last(),
        )
    }
}

/// The text of two runs of steps, one after the other, is the text of the
/// first and then the text of the second.
pub proof fn lemma_steps_concat(
    indent: nat,
    style: AccessStyle,
    name: Seq<char>,
    args: Seq<SupportedArgumentType>,
    a: Seq<MethodStep>,
    b: Seq<MethodStep>,
)
    ensures
        steps_text(indent, style, name, args, a + b) == steps_text(indent, style, name, args, a)
            + steps_text(indent, style, name, args, b),
    decreases b.len(),
{
    if b.len() == 0 {
        assert(a + b =~= a);
        assert(steps_text(indent, style, name, args, a) + Seq::<char>::empty() =~= steps_text(
            indent,
            style,
            name,
            args,
            a,
        ));
    } else {
        lemma_steps_concat(indent, style, name, args, a, b.drop_last());
        assert((a + b).drop_last() =~= a + b.drop_last());
        assert((a + b).last() == b.last());
        let ta = steps_text(indent, style, name, args, a);
        let tb = steps_text(indent, style, name, args, b.drop_last());
        let tl = step_text(indent, style, name, args, b.last());
        assert((ta + tb) + tl =~= ta + (tb + tl));
    }
}

/// The validations of all arguments, in order.
pub open spec fn validations(args: Seq<SupportedArgumentType>) -> Seq<MethodStep> {
    Seq::new(args.len(), |i: int| MethodStep::Validate { index: i as nat, ty: args[i] })
}

/// Allocation and copy-in for all arguments, in order.
pub open spec fn copy_ins(args: Seq<SupportedArgumentType>) -> Seq<MethodStep> {
    Seq::new(args.len(), |i: int| MethodStep::CopyIn { index: i as nat, ty: args[i] })
}

/// The copies back out for all arguments, in order.
pub open spec fn copy_outs(args: Seq<SupportedArgumentType>) -> Seq<MethodStep> {
    Seq::new(args.len(), |i: int| MethodStep::CopyOut { index: i as nat, ty: args[i] })
}

/// The releases of all arguments' buffers, in order.
pub open spec fn releases(args: Seq<SupportedArgumentType>) -> Seq<MethodStep> {
    Seq::new(args.len(), |i: int| MethodStep::Release { index: i as nat, ty: args[i] })
}

/// The renewal of the memory view after the call: one step where it is
/// asked for and elements are reached through the one `DataView`, else
/// none.
pub open spec fn refresh(style: AccessStyle, after_call: bool) -> Seq<MethodStep> {
    if style == AccessStyle::DataView && after_call {
        seq![MethodStep::RefreshMemory]
    } else {
        Seq::empty()
    }
}

/// All steps of the method for a signature: every argument is validated
/// before anything is allocated; the buffers are filled; the function is
/// called; the memory view is renewed; mutable slices are copied back; the
/// result is read; and at last everything is freed.
pub open spec fn method_steps(
    style: AccessStyle,
    args: Seq<SupportedArgumentType>,
    ret: SupportedRetType,
    after_call: bool,
) -> Seq<MethodStep> {
    validations(args) + copy_ins(args) + seq![MethodStep::Invoke] + refresh(style, after_call)
        + copy_outs(args) + seq![MethodStep::ReadReturn { ret }] + releases(args)
        + seq![MethodStep::ReleaseReturn { ret }] + seq![MethodStep::Return]
}

/// The first line of a method.
pub open spec fn method_head(name: Seq<char>, arity: nat) -> Seq<char> {
    "\n"@ + name + "("@ + parameters_text(arity) + ") {\n"@
}

/// The whole method for a signature: its first line, its steps one scope
/// in, and the closing brace. `after_call` says whether the memory view is
/// to be renewed after the call.
pub open spec fn method_text(
    indent: nat,
    style: AccessStyle,
    name: Seq<char>,
    args: Seq<SupportedArgumentType>,
    ret: SupportedRetType,
    after_call: bool,
) -> Seq<char> {
    method_head(name, args.len()) + indent_text(
        steps_text(indent, style, name, args, method_steps(style, args, ret, after_call)),
        indent,
        true,
    ) + "}\n"@
}

} // verus!
