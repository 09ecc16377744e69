//! Writes one method of the generated class.

use crate::error::MacroError;
use crate::generation::argument::{
    deallocate_argument_allocation, prepare_argument_allocation,
    propogate_argument_changes_outwards, validate_argument,
};
use crate::generation::plan::{
    arg_name_text, call_arguments_text, copy_ins, copy_outs, lemma_steps_concat, method_steps,
    method_text, parameters_text, raw_argument_text, refresh, releases, step_text, steps_text,
    validations, MethodStep,
};
use crate::generation::returned::{deallocate_return_allocation, read_return_value_copy_into};
use crate::generation::stats::FuncStats;
use crate::indented_write::{
    lemma_block, lemma_write_concat, lemma_write_empty, IdentedWriter, WriteExt, WriterState,
};
use crate::processing::JsFnInfo;
use crate::style::{AccessStyle, Config};
use crate::text::decimal_string;
use crate::types::{owned_string_type, SupportedArgumentType, SupportedRetType};
use vstd::prelude::*;
use vstd::string::*;

verus! {

/// The name of the argument at `index`.
pub fn argument_name(index: usize) -> (name: String)
    ensures
        name@ == arg_name_text(index as nat),
{
    let mut name = String::from_str("arg");
    let number = decimal_string(index as u64);
    name.append(number.as_str());
    name
}

fn parameters(n: usize) -> (list: String)
    ensures
        list@ == parameters_text(n as nat),
{
    let mut list = String::new();
    for i in 0..n
        invariant
            list@ == parameters_text(i as nat),
    {
        let name = argument_name(i);
        if i > 0 {
            list.append(", ");
        }
        list.append(name.as_str());
    }
    list
}

fn raw_argument(index: usize, ty: SupportedArgumentType) -> (text: String)
    ensures
        text@ == raw_argument_text(index as nat, ty),
{
    let mut text = argument_name(index);
    match ty {
        SupportedArgumentType::IntegerSliceRef(_)
        | SupportedArgumentType::IntegerSliceMutRef(_)
        | SupportedArgumentType::IntegerVec(_) => {
            let name = argument_name(index);
            text.append("_ptr, ");
            text.append(name.as_str());
            text.append("_len");
        },
        _ => {},
    }
    text
}

fn call_arguments(args: &Vec<SupportedArgumentType>) -> (list: String)
    ensures
        list@ == call_arguments_text(args@),
{
    let mut list = String::new();
    let n = args.len();
    assert(args@.take(0) =~= Seq::<SupportedArgumentType>::empty());
    for i in 0..n
        invariant
            n == args@.len(),
            list@ == call_arguments_text(args@.take(i as int)),
    {
        let raw = raw_argument(i, args[i]);
        if i > 0 {
            list.append(", ");
        }
        list.append(raw.as_str());
        assert(args@.take(i + 1).drop_last() =~= args@.take(i as int));
    }
    assert(args@.take(n as int) =~= args@);
    list
}

/// Looks for a `String` in a signature: among the arguments first, then in
/// the result.
pub fn require_marshaled(info: &JsFnInfo) -> (done: Result<(), MacroError>)
    ensures
        match done {
            Ok(_) => info@.is_marshaled(),
            Err(e) => !info@.is_marshaled() && info@.is_refused_by(e),
        },
{
    let n = info.args_ty.len();
    for i in 0..n
        invariant
            n == info.args_ty@.len(),
            forall|k: int| 0 <= k < i ==> !(#[trigger] info.args_ty@[k] is OwnedString),
    {
        match info.args_ty[i] {
            SupportedArgumentType::OwnedString => {
                assert(info@.args[i as int] is OwnedString);
                return Err(MacroError::UnhandledArgumentType { ty: owned_string_type() });
            },
            _ => {},
        }
    }
    match info.ret_ty {
        SupportedRetType::OwnedString => Err(
            MacroError::UnhandledRetType { ty: owned_string_type() },
        ),
        _ => Ok(()),
    }
}

proof fn lemma_step(
    scope: WriterState,
    indent: nat,
    style: AccessStyle,
    name: Seq<char>,
    args: Seq<SupportedArgumentType>,
    done: Seq<MethodStep>,
    step: MethodStep,
)
    ensures
        scope.write(steps_text(indent, style, name, args, done)).write(
            step_text(indent, style, name, args, step),
        ) == scope.write(steps_text(indent, style, name, args, done.push(step))),
{
    lemma_write_concat(
        scope,
        steps_text(indent, style, name, args, done),
        step_text(indent, style, name, args, step),
    );
    assert(done.push(step).drop_last() =~= done);
}

proof fn lemma_phase(
    scope: WriterState,
    indent: nat,
    style: AccessStyle,
    name: Seq<char>,
    args: Seq<SupportedArgumentType>,
    done: Seq<MethodStep>,
    phase: Seq<MethodStep>,
)
    ensures
        scope.write(steps_text(indent, style, name, args, done)).write(
            steps_text(indent, style, name, args, phase),
        ) == scope.write(steps_text(indent, style, name, args, done + phase)),
{
    lemma_write_concat(
        scope,
        steps_text(indent, style, name, args, done),
        steps_text(indent, style, name, args, phase),
    );
    lemma_steps_concat(indent, style, name, args, done, phase);
}

fn write_validations(config: &Config, buf: &mut IdentedWriter, info: &JsFnInfo) -> (done: Result<
    (),
    MacroError,
>)
    requires
        info@.is_marshaled(),
    ensures
        done is Ok,
        final(buf)@ == old(buf)@.write(
            steps_text(
                config.indent as nat,
                config.access_style,
                info@.name,
                info@.args,
                validations(info@.args),
            ),
        ),
{
    let ghost start = buf@;
    let ghost indent = config.indent as nat;
    let ghost style = config.access_style;
    let ghost name = info@.name;
    let ghost args = info@.args;
    let ghost mut steps: Seq<MethodStep> = Seq::empty();
    let n = info.args_ty.len();
    proof {
        lemma_write_empty(start);
        assert(validations(args).take(0) =~= steps);
    }
    for i in 0..n
        invariant
            n == args.len(),
            args == info.args_ty@,
            info@.is_marshaled(),
            steps == validations(args).take(i as int),
            buf@ == start.write(steps_text(indent, style, name, args, steps)),
            indent == config.indent as nat,
    {
        let arg = argument_name(i);
        let ghost step = MethodStep::Validate { index: i as nat, ty: args[i as int] };
        match validate_argument(config, buf, arg.as_str(), info.args_ty[i], "throw new Error();") {
            Ok(_) => {},
            Err(e) => {
                return Err(e);
            },
        }
        proof {
            lemma_step(start, indent, style, name, args, steps, step);
            steps = steps.push(step);
            assert(steps =~= validations(args).take(i + 1));
        }
    }
    proof {
        assert(validations(args).take(n as int) =~= validations(args));
    }
    Ok(())
}

fn write_copy_ins(config: &Config, buf: &mut IdentedWriter, info: &JsFnInfo) -> (done: Result<
    (),
    MacroError,
>)
    requires
        info@.is_marshaled(),
    ensures
        done is Ok,
        final(buf)@ == old(buf)@.write(
            steps_text(
                config.indent as nat,
                config.access_style,
                info@.name,
                info@.args,
                copy_ins(info@.args),
            ),
        ),
{
    let ghost start = buf@;
    let ghost indent = config.indent as nat;
    let ghost style = config.access_style;
    let ghost name = info@.name;
    let ghost args = info@.args;
    let ghost mut steps: Seq<MethodStep> = Seq::empty();
    let n = info.args_ty.len();
    proof {
        lemma_write_empty(start);
        assert(copy_ins(args).take(0) =~= steps);
    }
    for i in 0..n
        invariant
            n == args.len(),
            args == info.args_ty@,
            info@.is_marshaled(),
            steps == copy_ins(args).take(i as int),
            buf@ == start.write(steps_text(indent, style, name, args, steps)),
            indent == config.indent as nat,
            style == config.access_style,
    {
        let arg = argument_name(i);
        let ghost step = MethodStep::CopyIn { index: i as nat, ty: args[i as int] };
        match prepare_argument_allocation(config, buf, arg.as_str(), info.args_ty[i]) {
            Ok(_) => {},
            Err(e) => {
                return Err(e);
            },
        }
        proof {
            lemma_step(start, indent, style, name, args, steps, step);
            steps = steps.push(step);
            assert(steps =~= copy_ins(args).take(i + 1));
        }
    }
    proof {
        assert(copy_ins(args).take(n as int) =~= copy_ins(args));
    }
    Ok(())
}

fn write_copy_outs(config: &Config, buf: &mut IdentedWriter, info: &JsFnInfo) -> (done: Result<
    (),
    MacroError,
>)
    requires
        info@.is_marshaled(),
    ensures
        done is Ok,
        final(buf)@ == old(buf)@.write(
            steps_text(
                config.indent as nat,
                config.access_style,
                info@.name,
                info@.args,
                copy_outs(info@.args),
            ),
        ),
{
    let ghost start = buf@;
    let ghost indent = config.indent as nat;
    let ghost style = config.access_style;
    let ghost name = info@.name;
    let ghost args = info@.args;
    let ghost mut steps: Seq<MethodStep> = Seq::empty();
    let n = info.args_ty.len();
    proof {
        lemma_write_empty(start);
        assert(copy_outs(args).take(0) =~= steps);
    }
    for i in 0..n
        invariant
            n == args.len(),
            args == info.args_ty@,
            info@.is_marshaled(),
            steps == copy_outs(args).take(i as int),
            buf@ == start.write(steps_text(indent, style, name, args, steps)),
            indent == config.indent as nat,
            style == config.access_style,
    {
        let arg = argument_name(i);
        let ghost step = MethodStep::CopyOut { index: i as nat, ty: args[i as int] };
        match propogate_argument_changes_outwards(config, buf, arg.as_str(), info.args_ty[i]) {
            Ok(_) => {},
            Err(e) => {
                return Err(e);
            },
        }
        proof {
            lemma_step(start, indent, style, name, args, steps, step);
            steps = steps.push(step);
            assert(steps =~= copy_outs(args).take(i + 1));
        }
    }
    proof {
        assert(copy_outs(args).take(n as int) =~= copy_outs(args));
    }
    Ok(())
}

fn write_releases(config: &Config, buf: &mut IdentedWriter, info: &JsFnInfo) -> (done: Result<
    (),
    MacroError,
>)
    requires
        info@.is_marshaled(),
    ensures
        done is Ok,
        final(buf)@ == old(buf)@.write(
            steps_text(
                config.indent as nat,
                config.access_style,
                info@.name,
                info@.args,
                releases(info@.args),
            ),
        ),
{
    let ghost start = buf@;
    let ghost indent = config.indent as nat;
    let ghost style = config.access_style;
    let ghost name = info@.name;
    let ghost args = info@.args;
    let ghost mut steps: Seq<MethodStep> = Seq::empty();
    let n = info.args_ty.len();
    proof {
        lemma_write_empty(start);
        assert(releases(args).take(0) =~= steps);
    }
    for i in 0..n
        invariant
            n == args.len(),
            args == info.args_ty@,
            info@.is_marshaled(),
            steps == releases(args).take(i as int),
            buf@ == start.write(steps_text(indent, style, name, args, steps)),
            indent == config.indent as nat,
            style == config.access_style,
    {
        let arg = argument_name(i);
        let ghost step = MethodStep::Release { index: i as nat, ty: args[i as int] };
        match deallocate_argument_allocation(config, buf, arg.as_str(), info.args_ty[i]) {
            Ok(_) => {},
            Err(e) => {
                return Err(e);
            },
        }
        proof {
            lemma_step(start, indent, style, name, args, steps, step);
            steps = steps.push(step);
            assert(steps =~= releases(args).take(i + 1));
        }
    }
    proof {
        assert(releases(args).take(n as int) =~= releases(args));
    }
    Ok(())
}

fn write_call(config: &Config, buf: &mut IdentedWriter, info: &JsFnInfo, after_call: bool)
    ensures
        final(buf)@ == old(buf)@.write(
            steps_text(
                config.indent as nat,
                config.access_style,
                info@.name,
                info@.args,
                seq![MethodStep::Invoke] + refresh(config.access_style, after_call),
            ),
        ),
{
    let ghost start = buf@;
    let ghost indent = config.indent as nat;
    let ghost style = config.access_style;
    let ghost name = info@.name;
    let ghost args = info@.args;
    let raw = call_arguments(&info.args_ty);
    let mut call = String::from_str("let result = this._funcs['");
    call.append(info.rust_name.as_str());
    call.append("'](");
    call.append(raw.as_str());
    call.append(");\n");
    buf.write_str(call.as_str());
    let ghost mut steps: Seq<MethodStep> = Seq::empty();
    proof {
        lemma_write_empty(start);
        lemma_step(start, indent, style, name, args, steps, MethodStep::Invoke);
        steps = steps.push(MethodStep::Invoke);
    }
    if config.access_style == AccessStyle::DataView && after_call {
        buf.write_str("this._check_mem_realloc();\n");
        proof {
            lemma_step(start, indent, style, name, args, steps, MethodStep::RefreshMemory);
            steps = steps.push(MethodStep::RefreshMemory);
        }
    }
    proof {
        assert(steps =~= seq![MethodStep::Invoke] + refresh(style, after_call));
    }
}

fn write_results(config: &Config, buf: &mut IdentedWriter, info: &JsFnInfo) -> (done: Result<
    (),
    MacroError,
>)
    requires
        info@.is_marshaled(),
    ensures
        done is Ok,
        final(buf)@ == old(buf)@.write(
            steps_text(
                config.indent as nat,
                config.access_style,
                info@.name,
                info@.args,
                copy_outs(info@.args) + seq![MethodStep::ReadReturn { ret: info@.ret }],
            ),
        ),
{
    let ghost start = buf@;
    let ghost indent = config.indent as nat;
    let ghost style = config.access_style;
    let ghost name = info@.name;
    let ghost args = info@.args;
    match write_copy_outs(config, buf, info) {
        Ok(_) => {},
        Err(e) => {
            return Err(e);
        },
    }
    match read_return_value_copy_into(config, buf, &info.ret_ty, "result", "return_value") {
        Ok(_) => {},
        Err(e) => {
            return Err(e);
        },
    }
    proof {
        let step = MethodStep::ReadReturn { ret: info.ret_ty };
        lemma_step(start, indent, style, name, args, copy_outs(args), step);
        assert(copy_outs(args).push(step) =~= copy_outs(args) + seq![step]);
    }
    Ok(())
}

fn write_cleanup(config: &Config, buf: &mut IdentedWriter, info: &JsFnInfo) -> (done: Result<
    (),
    MacroError,
>)
    requires
        info@.is_marshaled(),
    ensures
        done is Ok,
        final(buf)@ == old(buf)@.write(
            steps_text(
                config.indent as nat,
                config.access_style,
                info@.name,
                info@.args,
                releases(info@.args) + seq![MethodStep::ReleaseReturn { ret: info@.ret }]
                    + seq![MethodStep::Return],
            ),
        ),
{
    let ghost start = buf@;
    let ghost indent = config.indent as nat;
    let ghost style = config.access_style;
    let ghost name = info@.name;
    let ghost args = info@.args;
    match write_releases(config, buf, info) {
        Ok(_) => {},
        Err(e) => {
            return Err(e);
        },
    }
    match deallocate_return_allocation(config, buf, "result", &info.ret_ty) {
        Ok(_) => {},
        Err(e) => {
            return Err(e);
        },
    }
    buf.write_str("return return_value;\n");
    proof {
        let free = MethodStep::ReleaseReturn { ret: info.ret_ty };
        lemma_step(start, indent, style, name, args, releases(args), free);
        lemma_step(start, indent, style, name, args, releases(args).push(free), MethodStep::Return);
        assert(releases(args).push(free).push(MethodStep::Return) =~= releases(args) + seq![free]
            + seq![MethodStep::Return]);
    }
    Ok(())
}

/// Writes the method for one function. `stats` says whether the memory
/// view is to be renewed after the call. A signature with a `String` in it
/// is refused, and nothing is written.
#[verifier::rlimit(40)]
pub fn write_method(
    config: &Config,
    buf: &mut IdentedWriter,
    info: &JsFnInfo,
    stats: &FuncStats,
) -> (done: Result<(), MacroError>)
    ensures
        match done {
            Ok(_) => info@.is_marshaled() && final(buf)@ == old(buf)@.write(
                method_text(
                    config.indent as nat,
                    config.access_style,
                    info@.name,
                    info@.args,
                    info@.ret,
                    stats.uses_post_function_memory_access,
                ),
            ),
            Err(e) => !info@.is_marshaled() && info@.is_refused_by(e) && final(buf)@ == old(buf)@,
        },
{
    match require_marshaled(info) {
        Ok(_) => {},
        Err(e) => {
            return Err(e);
        },
    }
    let ghost start = buf@;
    let ghost indent = config.indent as nat;
    let ghost style = config.access_style;
    let ghost name = info@.name;
    let ghost args = info@.args;
    let ghost after_call = stats.uses_post_function_memory_access;

    let list = parameters(info.args_ty.len());
    let mut head = String::from_str("\n");
    head.append(info.rust_name.as_str());
    head.append("(");
    head.append(list.as_str());
    head.append(") {\n");
    buf.write_str(head.as_str());
    buf.indented(config.indent as u64);
    let ghost scope = start.write(head@).enter(indent);

    match write_validations(config, buf, info) {
        Ok(_) => {},
        Err(e) => {
            return Err(e);
        },
    }
    match write_copy_ins(config, buf, info) {
        Ok(_) => {},
        Err(e) => {
            return Err(e);
        },
    }
    let ghost a = validations(args);
    let ghost b = copy_ins(args);
    proof {
        lemma_phase(scope, indent, style, name, args, a, b);
    }
    write_call(config, buf, info, stats.uses_post_function_memory_access);
    let ghost c = seq![MethodStep::Invoke] + refresh(style, after_call);
    proof {
        lemma_phase(scope, indent, style, name, args, a + b, c);
    }
    match write_results(config, buf, info) {
        Ok(_) => {},
        Err(e) => {
            return Err(e);
        },
    }
    let ghost d = copy_outs(args) + seq![MethodStep::ReadReturn { ret: info.ret_ty }];
    proof {
        lemma_phase(scope, indent, style, name, args, a + b + c, d);
    }
    match write_cleanup(config, buf, info) {
        Ok(_) => {},
        Err(e) => {
            return Err(e);
        },
    }
    let ghost e = releases(args) + seq![MethodStep::ReleaseReturn { ret: info.ret_ty }]
        + seq![MethodStep::Return];
    proof {
        lemma_phase(scope, indent, style, name, args, a + b + c + d, e);
        assert(a + b + c + d + e =~= method_steps(style, args, info.ret_ty, after_call));
    }
    buf.dedented();
    buf.write_str("}\n");
    proof {
        lemma_block(
            start,
            head@,
            indent,
            steps_text(indent, style, name, args, method_steps(style, args, info.ret_ty, after_call)),
            "}\n"@,
        );
    }
    Ok(())
}

} // verus!
