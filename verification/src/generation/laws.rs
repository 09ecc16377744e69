//! What holds of every generated method: how often it asks the module for
//! memory, how often it gives memory back, and in which order it goes
//! about it.

use crate::generation::argument::{deallocate_text, prepare_text, propagate_text};
use crate::generation::plan::{
    arg_name_text, copy_ins, copy_outs, method_steps, raw_argument_text, refresh, releases,
    validations, MethodStep,
};
use crate::style::AccessStyle;
use crate::text::{is_digit, lemma_numbered_names};
use crate::types::{SupportedArgumentType, SupportedRetType};
use vstd::prelude::*;

verus! {

/// How often one step calls the module's allocator: once where it copies a
/// buffer in, else never.
pub open spec fn step_allocations(step: MethodStep) -> nat {
    match step {
        MethodStep::CopyIn { index, ty } => if ty.is_buffer() {
            1
        } else {
            0
        },
        _ => 0,
    }
}

/// How often one step calls the module's deallocator: once where it frees
/// an argument's buffer, twice where it frees a returned vector (its data
/// and its record), else never.
pub open spec fn step_deallocations(step: MethodStep) -> nat {
    match step {
        MethodStep::Release { index, ty } => if ty.is_buffer() {
            1
        } else {
            0
        },
        MethodStep::ReleaseReturn { ret } => if ret is IntegerVec {
            2
        } else {
            0
        },
        _ => 0,
    }
}

/// How often a run of steps calls the module's allocator.
pub open spec fn allocations(steps: Seq<MethodStep>) -> nat
    decreases steps.len(),
{
    if steps.len() == 0 {
        0
    } else {
        allocations(steps.drop_last()) + step_allocations(steps.last())
    }
}

/// How often a run of steps calls the module's deallocator.
pub open spec fn deallocations(steps: Seq<MethodStep>) -> nat
    decreases steps.len(),
{
    if steps.len() == 0 {
        0
    } else {
        deallocations(steps.drop_last()) + step_deallocations(steps.last())
    }
}

/// How many of the arguments travel as buffers.
pub open spec fn buffer_count(args: Seq<SupportedArgumentType>) -> nat
    decreases args.len(),
{
    if args.len() == 0 {
        0
    } else if args.last().is_buffer() {
        buffer_count(args.drop_last()) + 1
    } else {
        buffer_count(args.drop_last())
    }
}

proof fn lemma_counts_concat(a: Seq<MethodStep>, b: Seq<MethodStep>)
    ensures
        allocations(a + b) == allocations(a) + allocations(b),
        deallocations(a + b) == deallocations(a) + deallocations(b),
    decreases b.len(),
{
    if b.len() == 0 {
        assert(a + b =~= a);
    } else {
        lemma_counts_concat(a, b.drop_last());
        assert((a + b).drop_last() =~= a + b.drop_last());
    }
}

proof fn lemma_counts_single(step: MethodStep)
    ensures
        allocations(seq![step]) == step_allocations(step),
        deallocations(seq![step]) == step_deallocations(step),
{
    assert(seq![step].drop_last() =~= Seq::<MethodStep>::empty());
    assert(allocations(seq![step].drop_last()) == 0);
    assert(deallocations(seq![step].drop_last()) == 0);
}

proof fn lemma_counts_per_argument(args: Seq<SupportedArgumentType>)
    ensures
        allocations(validations(args)) == 0,
        deallocations(validations(args)) == 0,
        allocations(copy_ins(args)) == buffer_count(args),
        deallocations(copy_ins(args)) == 0,
        allocations(copy_outs(args)) == 0,
        deallocations(copy_outs(args)) == 0,
        allocations(releases(args)) == 0,
        deallocations(releases(args)) == buffer_count(args),
    decreases args.len(),
{
    if args.len() > 0 {
        let rest = args.drop_last();
        lemma_counts_per_argument(rest);
        assert(validations(args).drop_last() =~= validations(rest));
        assert(copy_ins(args).drop_last() =~= copy_ins(rest));
        assert(copy_outs(args).drop_last() =~= copy_outs(rest));
        assert(releases(args).drop_last() =~= releases(rest));
    }
}

proof fn lemma_counts_refresh(style: AccessStyle, after_call: bool)
    ensures
        allocations(refresh(style, after_call)) == 0,
        deallocations(refresh(style, after_call)) == 0,
{
    if style == AccessStyle::DataView && after_call {
        lemma_counts_single(MethodStep::RefreshMemory);
    }
}

/// A method calls the allocator once for each argument that is a buffer,
/// and the deallocator as often, and twice more where it returns a vector:
/// the module has allocated the data and the record of one, and the method
/// frees both. This holds under both styles.
pub proof fn lemma_method_counts(
    style: AccessStyle,
    args: Seq<SupportedArgumentType>,
    ret: SupportedRetType,
    after_call: bool,
)
    ensures
        allocations(method_steps(style, args, ret, after_call)) == buffer_count(args),
        deallocations(method_steps(style, args, ret, after_call)) == buffer_count(args) + (if ret is IntegerVec {
            2nat
        } else {
            0nat
        }),
{
    let a = validations(args);
    let b = copy_ins(args);
    let c = seq![MethodStep::Invoke];
    let d = refresh(style, after_call);
    let e = copy_outs(args);
    let f = seq![MethodStep::ReadReturn { ret }];
    let g = releases(args);
    let h = seq![MethodStep::ReleaseReturn { ret }];
    let i = seq![MethodStep::Return];
    lemma_counts_per_argument(args);
    lemma_counts_refresh(style, after_call);
    lemma_counts_single(MethodStep::Invoke);
    lemma_counts_single(MethodStep::ReadReturn { ret });
    lemma_counts_single(MethodStep::ReleaseReturn { ret });
    lemma_counts_single(MethodStep::Return);
    lemma_counts_concat(a, b);
    lemma_counts_concat(a + b, c);
    lemma_counts_concat(a + b + c, d);
    lemma_counts_concat(a + b + c + d, e);
    lemma_counts_concat(a + b + c + d + e, f);
    lemma_counts_concat(a + b + c + d + e + f, g);
    lemma_counts_concat(a + b + c + d + e + f + g, h);
    lemma_counts_concat(a + b + c + d + e + f + g + h, i);
}

/// The method of a function whose arguments are all numbers never calls
/// the allocator.
pub proof fn lemma_scalars_never_allocate(
    style: AccessStyle,
    args: Seq<SupportedArgumentType>,
    ret: SupportedRetType,
    after_call: bool,
)
    requires
        forall|i: int| 0 <= i < args.len() ==> #[trigger] args[i] is Integer,
    ensures
        allocations(method_steps(style, args, ret, after_call)) == 0,
{
    lemma_method_counts(style, args, ret, after_call);
    lemma_no_buffers(args);
}

proof fn lemma_no_buffers(args: Seq<SupportedArgumentType>)
    requires
        forall|i: int| 0 <= i < args.len() ==> !(#[trigger] args[i]).is_buffer(),
    ensures
        buffer_count(args) == 0,
    decreases args.len(),
{
    if args.len() > 0 {
        assert(!args[args.len() - 1].is_buffer());
        lemma_no_buffers(args.drop_last());
    }
}

/// The method of a function that does not return a vector calls the
/// deallocator exactly as often as the allocator, under both styles: what
/// it has allocated it frees, and nothing else.
pub proof fn lemma_allocations_are_freed(
    style: AccessStyle,
    args: Seq<SupportedArgumentType>,
    ret: SupportedRetType,
    after_call: bool,
)
    requires
        !(ret is IntegerVec),
    ensures
        allocations(method_steps(style, args, ret, after_call)) == deallocations(
            method_steps(style, args, ret, after_call),
        ),
{
    lemma_method_counts(style, args, ret, after_call);
}

/// Whether the memory view is renewed after the call: 1 if so, else 0.
pub open spec fn refreshes(style: AccessStyle, after_call: bool) -> int {
    if style == AccessStyle::DataView && after_call {
        1
    } else {
        0
    }
}

/// Whether the four steps for the argument at `i` stand where they
/// belong among `steps`: its validation among the first steps, its copy in
/// behind all validations, its copy out behind the call and the `r` steps
/// that renew the memory view, and its release behind the reading of the
/// result.
pub open spec fn argument_steps_stand(
    steps: Seq<MethodStep>,
    args: Seq<SupportedArgumentType>,
    r: int,
    i: int,
) -> bool {
    let n = args.len() as int;
    &&& steps[i] == (MethodStep::Validate { index: i as nat, ty: args[i] })
    &&& steps[n + i] == (MethodStep::CopyIn { index: i as nat, ty: args[i] })
    &&& steps[2 * n + 1 + r + i] == (MethodStep::CopyOut { index: i as nat, ty: args[i] })
    &&& steps[3 * n + 2 + r + i] == (MethodStep::Release { index: i as nat, ty: args[i] })
}

/// Whether the steps that belong to no argument stand where they belong
/// among `steps`.
pub open spec fn single_steps_stand(
    steps: Seq<MethodStep>,
    n: int,
    r: int,
    ret: SupportedRetType,
) -> bool {
    &&& steps.len() == 4 * n + 4 + r
    &&& steps[2 * n] == MethodStep::Invoke
    &&& (r == 1 ==> steps[2 * n + 1] == MethodStep::RefreshMemory)
    &&& steps[3 * n + 1 + r] == (MethodStep::ReadReturn { ret })
    &&& steps[4 * n + 2 + r] == (MethodStep::ReleaseReturn { ret })
    &&& steps[4 * n + 3 + r] == MethodStep::Return
}

/// Every step of a method has its place. With `n` arguments the first `n`
/// steps validate them, in order; the next `n` copy them in; then the
/// function is called, and the memory view renewed where that is due; the
/// next `n` steps copy the arguments out; the result is read; the next `n`
/// steps free the arguments' buffers; then what a returned vector occupied
/// is freed; and the method returns. So the buffer of each argument is
/// allocated once, before the call, and freed once, after the result has
/// been read, and nothing is allocated before every argument is validated.
pub proof fn lemma_steps_in_order(
    style: AccessStyle,
    args: Seq<SupportedArgumentType>,
    ret: SupportedRetType,
    after_call: bool,
)
    ensures
        single_steps_stand(
            method_steps(style, args, ret, after_call),
            args.len() as int,
            refreshes(style, after_call),
            ret,
        ),
        forall|i: int|
            0 <= i < args.len() ==> #[trigger] argument_steps_stand(
                method_steps(style, args, ret, after_call),
                args,
                refreshes(style, after_call),
                i,
            ),
{
    let steps = method_steps(style, args, ret, after_call);
    let n = args.len() as int;
    let r = refreshes(style, after_call);
    assert(refresh(style, after_call).len() == r);
    assert forall|i: int| 0 <= i < n implies #[trigger] argument_steps_stand(
        steps,
        args,
        r,
        i,
    ) by {
        assert(steps[i] == validations(args)[i]);
        assert(steps[n + i] == copy_ins(args)[i]);
        assert(steps[2 * n + 1 + r + i] == copy_outs(args)[i]);
        assert(steps[3 * n + 2 + r + i] == releases(args)[i]);
    }
    if r == 1 {
        assert(steps[2 * n + 1] == refresh(style, after_call)[0]);
    }
}

/// A number needs no buffer: nothing is written to copy it in, to copy it
/// out or to free it, and it is handed to the module's function under its
/// own name.
pub proof fn lemma_scalar_passes_as_it_is(
    indent: nat,
    style: AccessStyle,
    index: nat,
    ty: SupportedArgumentType,
)
    requires
        ty is Integer,
    ensures
        prepare_text(indent, style, arg_name_text(index), ty) == Seq::<char>::empty(),
        propagate_text(indent, style, arg_name_text(index), ty) == Seq::<char>::empty(),
        deallocate_text(arg_name_text(index), ty) == Seq::<char>::empty(),
        raw_argument_text(index, ty) == arg_name_text(index),
{
}

/// The variables that a method makes for different arguments have
/// different names: whatever is put behind the name of an argument, be it
/// `_ptr`, `_len`, `_byte_len`, `_view`, `_i` or nothing, two such names
/// for two arguments are never the same, as long as what is put behind does
/// not begin with a digit.
pub proof fn lemma_argument_names_differ(i: nat, s: Seq<char>, j: nat, t: Seq<char>)
    requires
        i != j,
        s.len() > 0 ==> !is_digit(s[0]),
        t.len() > 0 ==> !is_digit(t[0]),
    ensures
        arg_name_text(i) + s != arg_name_text(j) + t,
{
    if arg_name_text(i) + s == arg_name_text(j) + t {
        lemma_numbered_names("arg"@, i, s, j, t);
    }
}

} // verus!
