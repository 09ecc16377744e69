//! Writes the host-side class: its constructor, and one method for each
//! function of the module.

pub mod access;
pub mod argument;
pub mod calls;
pub mod class;
pub mod counts;
pub mod laws;
pub mod method;
pub mod plan;
pub mod returned;
pub mod stats;

use crate::error::MacroError;
use crate::generation::class::{
    finish_text, middle_text, opening_text, unexport_text,
    write_class_definition_finish, write_class_definition_post_exports_grabbing_up_to_methods,
    write_class_definition_up_to_exports_grabbing, write_func_unexport,
};
use crate::generation::method::write_method;
use crate::generation::plan::method_text;
use crate::generation::stats::{uses_memory, uses_memory_after_call, FuncStats};
use crate::indented_write::{
    indent_text, lemma_plain, lemma_scope, lemma_write_concat, lemma_write_empty, IdentedWriter,
    WriteExt,
};
use crate::processing::{signatures, JsFnInfo, Signature};
use crate::style::{AccessStyle, Config};
use vstd::prelude::*;

verus! {

/// Whether every type of every signature has a form in module memory.
pub open spec fn all_marshaled(sigs: Seq<Signature>) -> bool {
    forall|i: int| 0 <= i < sigs.len() ==> (#[trigger] sigs[i]).is_marshaled()
}

/// Whether `e` is the refusal of the signature at `k`, the first that has
/// a type without a form in module memory.
pub open spec fn is_first_refusal(sigs: Seq<Signature>, k: int, e: MacroError) -> bool {
    &&& 0 <= k < sigs.len()
    &&& forall|j: int| 0 <= j < k ==> (#[trigger] sigs[j]).is_marshaled()
    &&& !sigs[k].is_marshaled()
    &&& sigs[k].is_refused_by(e)
}

/// Whether the method of any of the signatures touches module memory.
pub open spec fn any_uses_memory(sigs: Seq<Signature>) -> bool {
    exists|i: int| 0 <= i < sigs.len() && uses_memory((#[trigger] sigs[i]).args, sigs[i].ret)
}

/// The entries of the table of functions, in order.
pub open spec fn unexports_text(sigs: Seq<Signature>) -> Seq<char>
    decreases sigs.len(),
{
    if sigs.len() == 0 {
        Seq::empty()
    } else {
        unexports_text(sigs.drop_last()) + unexport_text(sigs.last().name)
    }
}

/// The methods, in order. The memory view is renewed after the call in the
/// methods that touch memory after it.
pub open spec fn methods_text(indent: nat, style: AccessStyle, sigs: Seq<Signature>) -> Seq<char>
    decreases sigs.len(),
{
    if sigs.len() == 0 {
        Seq::empty()
    } else {
        methods_text(indent, style, sigs.drop_last()) + method_text(
            indent,
            style,
            sigs.last().name,
            sigs.last().args,
            sigs.last().ret,
            uses_memory_after_call(sigs.last().args, sigs.last().ret),
        )
    }
}

/// The whole generated source: the class with its constructor, the table
/// of functions three scopes in, the methods one scope in, and the export
/// of the class.
pub open spec fn class_text(
    class_name: Seq<char>,
    indent: nat,
    style: AccessStyle,
    sigs: Seq<Signature>,
) -> Seq<char> {
    opening_text(indent, style, class_name, any_uses_memory(sigs)) + indent_text(
        unexports_text(sigs),
        3 * indent,
        true,
    ) + middle_text(indent, style, any_uses_memory(sigs)) + indent_text(
        methods_text(indent, style, sigs),
        indent,
        true,
    ) + finish_text(class_name)
}

fn collect_stats<'a>(infos: &'a Vec<JsFnInfo>) -> (found: (Vec<FuncStats<'a>>, bool))
    ensures
        found.0@.len() == infos@.len(),
        forall|i: int|
            0 <= i < infos@.len() ==> {
                &&& (#[trigger] found.0@[i]).inner == &infos@[i]
                &&& found.0@[i].uses_post_function_memory_access == uses_memory_after_call(
                    infos@[i]@.args,
                    infos@[i]@.ret,
                )
            },
        found.1 == any_uses_memory(signatures(infos@)),
{
    let mut any_alloc = false;
    let mut func_stats: Vec<FuncStats<'a>> = Vec::new();
    let n = infos.len();
    for k in 0..n
        invariant
            n == infos@.len(),
            func_stats@.len() == k,
            forall|i: int|
                0 <= i < k ==> {
                    &&& (#[trigger] func_stats@[i]).inner == &infos@[i]
                    &&& func_stats@[i].uses_post_function_memory_access == uses_memory_after_call(
                        infos@[i]@.args,
                        infos@[i]@.ret,
                    )
                },
            any_alloc == exists|i: int|
                0 <= i < k && uses_memory(
                    (#[trigger] signatures(infos@)[i]).args,
                    signatures(infos@)[i].ret,
                ),
    {
        let stat = FuncStats::new(&infos[k]);
        proof {
            let sig = signatures(infos@)[k as int];
            assert(sig == infos@[k as int]@);
            assert(stat.uses_memory_access == uses_memory(sig.args, sig.ret));
        }
        if stat.uses_memory_access {
            any_alloc = true;
        }
        func_stats.push(stat);
    }
    (func_stats, any_alloc)
}

fn write_unexports(buf: &mut IdentedWriter, stats: &Vec<FuncStats>, Ghost(sigs): Ghost<
    Seq<Signature>,
>)
    requires
        stats@.len() == sigs.len(),
        forall|i: int| 0 <= i < sigs.len() ==> (#[trigger] stats@[i]).inner@ == sigs[i],
    ensures
        final(buf)@ == old(buf)@.write(unexports_text(sigs)),
{
    let ghost start = buf@;
    let n = stats.len();
    proof {
        lemma_write_empty(start);
        assert(sigs.take(0) =~= Seq::<Signature>::empty());
    }
    for k in 0..n
        invariant
            n == sigs.len(),
            stats@.len() == sigs.len(),
            forall|i: int| 0 <= i < sigs.len() ==> (#[trigger] stats@[i]).inner@ == sigs[i],
            buf@ == start.write(unexports_text(sigs.take(k as int))),
    {
        write_func_unexport(buf, stats[k].inner, &stats[k]);
        proof {
            lemma_write_concat(
                start,
                unexports_text(sigs.take(k as int)),
                unexport_text(sigs[k as int].name),
            );
            assert(sigs.take(k + 1).drop_last() =~= sigs.take(k as int));
        }
    }
    proof {
        assert(sigs.take(n as int) =~= sigs);
    }
}

fn write_methods(
    config: &Config,
    buf: &mut IdentedWriter,
    stats: &Vec<FuncStats>,
    Ghost(sigs): Ghost<Seq<Signature>>,
) -> (done: Result<(), MacroError>)
    requires
        stats@.len() == sigs.len(),
        forall|i: int|
            0 <= i < sigs.len() ==> {
                &&& (#[trigger] stats@[i]).inner@ == sigs[i]
                &&& stats@[i].uses_post_function_memory_access == uses_memory_after_call(
                    sigs[i].args,
                    sigs[i].ret,
                )
            },
    ensures
        match done {
            Ok(_) => all_marshaled(sigs) && final(buf)@ == old(buf)@.write(
                methods_text(config.indent as nat, config.access_style, sigs),
            ),
            Err(e) => exists|k: int| is_first_refusal(sigs, k, e),
        },
{
    let ghost start = buf@;
    let ghost indent = config.indent as nat;
    let ghost style = config.access_style;
    let n = stats.len();
    proof {
        lemma_write_empty(start);
        assert(sigs.take(0) =~= Seq::<Signature>::empty());
    }
    for k in 0..n
        invariant
            n == sigs.len(),
            stats@.len() == sigs.len(),
            indent == config.indent as nat,
            style == config.access_style,
            forall|i: int|
                0 <= i < sigs.len() ==> {
                    &&& (#[trigger] stats@[i]).inner@ == sigs[i]
                    &&& stats@[i].uses_post_function_memory_access == uses_memory_after_call(
                        sigs[i].args,
                        sigs[i].ret,
                    )
                },
            forall|i: int| 0 <= i < k ==> (#[trigger] sigs[i]).is_marshaled(),
            buf@ == start.write(methods_text(indent, style, sigs.take(k as int))),
    {
        match write_method(config, buf, stats[k].inner, &stats[k]) {
            Ok(_) => {},
            Err(e) => {
                assert(is_first_refusal(sigs, k as int, e));
                return Err(e);
            },
        }
        proof {
            let sig = sigs[k as int];
            lemma_write_concat(
                start,
                methods_text(indent, style, sigs.take(k as int)),
                method_text(
                    indent,
                    style,
                    sig.name,
                    sig.args,
                    sig.ret,
                    uses_memory_after_call(sig.args, sig.ret),
                ),
            );
            assert(sigs.take(k + 1).drop_last() =~= sigs.take(k as int));
        }
    }
    proof {
        assert(sigs.take(n as int) =~= sigs);
    }
    Ok(())
}

/// What generation yields for a list of signatures: the source of the
/// class where every type has a form in module memory, else the refusal of
/// the first signature with a `String` in it.
pub open spec fn is_generated(
    out: Result<String, MacroError>,
    config: Config,
    sigs: Seq<Signature>,
) -> bool {
    match out {
        Ok(text) => all_marshaled(sigs) && text@ == class_text(
            config.class_name@,
            config.indent as nat,
            config.access_style,
            sigs,
        ),
        Err(e) => exists|k: int| is_first_refusal(sigs, k, e),
    }
}

/// Generation is repeatable: whatever has been generated twice for the same
/// signatures under the same choices is the same text, character for
/// character. Both times a text is generated where no signature has a
/// `String` in it; else generation is refused both times.
pub proof fn lemma_generation_repeats(
    first: Result<String, MacroError>,
    second: Result<String, MacroError>,
    config1: Config,
    config2: Config,
    sigs: Seq<Signature>,
)
    requires
        config1.class_name@ == config2.class_name@,
        config1.indent == config2.indent,
        config1.access_style == config2.access_style,
        is_generated(first, config1, sigs),
        is_generated(second, config2, sigs),
    ensures
        first is Ok <==> second is Ok,
        first is Ok ==> first->Ok_0@ == second->Ok_0@,
        all_marshaled(sigs) ==> first is Ok && second is Ok,
{
    if first is Err {
        let k = choose|k: int| is_first_refusal(sigs, k, first->Err_0);
        assert(!sigs[k].is_marshaled());
    }
    if second is Err {
        let k = choose|k: int| is_first_refusal(sigs, k, second->Err_0);
        assert(!sigs[k].is_marshaled());
    }
}

/// Generates the source of the host-side class for a list of functions.
/// Where a `String` is among the types of any of them, nothing is
/// generated: no form in module memory is known for it.
pub fn generate_javascript(config: &Config, infos: &Vec<JsFnInfo>) -> (out: Result<
    String,
    MacroError,
>)
    ensures
        is_generated(out, *config, signatures(infos@)),
{
    let ghost sigs = signatures(infos@);
    let ghost indent = config.indent as nat;
    let ghost style = config.access_style;
    let (func_stats, any_alloc) = collect_stats(infos);
    let mut buf = IdentedWriter::new(String::new(), 0);
    let ghost start = buf@;

    write_class_definition_up_to_exports_grabbing(config, &mut buf, any_alloc);
    buf.indented(config.indent as u64 * 3);
    write_unexports(&mut buf, &func_stats, Ghost(sigs));
    buf.dedented();
    write_class_definition_post_exports_grabbing_up_to_methods(config, &mut buf, any_alloc);
    buf.indented(config.indent as u64);
    match write_methods(config, &mut buf, &func_stats, Ghost(sigs)) {
        Ok(_) => {},
        Err(e) => {
            return Err(e);
        },
    }
    buf.dedented();
    write_class_definition_finish(config, &mut buf);
    proof {
        let a = opening_text(indent, style, config.class_name@, any_alloc);
        let b = indent_text(unexports_text(sigs), 3 * indent, true);
        let c = middle_text(indent, style, any_alloc);
        let d = indent_text(methods_text(indent, style, sigs), indent, true);
        let e = finish_text(config.class_name@);
        lemma_scope(start.write(a), 3 * indent, unexports_text(sigs));
        lemma_write_concat(start, a, b);
        lemma_write_concat(start, a + b, c);
        lemma_scope(start.write(a + b + c), indent, methods_text(indent, style, sigs));
        lemma_write_concat(start, a + b + c, d);
        lemma_write_concat(start, a + b + c + d, e);
        lemma_plain(Seq::empty(), true, a + b + c + d + e);
        assert(Seq::<char>::empty() + (a + b + c + d + e) =~= a + b + c + d + e);
    }
    Ok(buf.into_inner())
}

} // verus!
