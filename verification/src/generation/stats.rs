//! What a function needs of the module's memory.

use crate::processing::JsFnInfo;
use crate::types::{SupportedArgumentType, SupportedRetType};
use vstd::prelude::*;

verus! {

/// A function's signature with what it needs of the module's memory.
pub struct FuncStats<'a> {
    pub inner: &'a JsFnInfo,
    /// True if the method touches module memory at all.
    pub uses_memory_access: bool,
    /// True if the method touches module memory after the call, when the
    /// memory may have grown.
    pub uses_post_function_memory_access: bool,
}

/// Whether a method for this signature touches module memory: it has a
/// buffer among its arguments, or returns a vector.
pub open spec fn uses_memory(args: Seq<SupportedArgumentType>, ret: SupportedRetType) -> bool {
    (exists|i: int| 0 <= i < args.len() && (#[trigger] args[i]).is_buffer()) || ret is IntegerVec
}

/// Whether a method for this signature touches module memory after the
/// call: it copies a mutable slice back, or reads a returned vector.
pub open spec fn uses_memory_after_call(
    args: Seq<SupportedArgumentType>,
    ret: SupportedRetType,
) -> bool {
    (exists|i: int| 0 <= i < args.len() && #[trigger] args[i] is IntegerSliceMutRef)
        || ret is IntegerVec
}

impl<'a> FuncStats<'a> {
    /// Looks through a signature once.
    pub fn new(stats: &'a JsFnInfo) -> (found: Self)
        ensures
            found.inner == stats,
            found.uses_memory_access == uses_memory(stats.args_ty@, stats.ret_ty),
            found.uses_post_function_memory_access == uses_memory_after_call(
                stats.args_ty@,
                stats.ret_ty,
            ),
    {
        let mut any_alloc = false;
        let mut post_func_mem_access = false;
        let n = stats.args_ty.len();
        for i in 0..n
            invariant
                n == stats.args_ty@.len(),
                any_alloc == exists|k: int|
                    0 <= k < i && (#[trigger] stats.args_ty@[k]).is_buffer(),
                post_func_mem_access == exists|k: int|
                    0 <= k < i && #[trigger] stats.args_ty@[k] is IntegerSliceMutRef,
        {
            match stats.args_ty[i] {
                SupportedArgumentType::Integer(_) | SupportedArgumentType::OwnedString => {},
                SupportedArgumentType::IntegerSliceRef(_)
                | SupportedArgumentType::IntegerVec(_) => {
                    any_alloc = true;
                },
                SupportedArgumentType::IntegerSliceMutRef(_) => {
                    any_alloc = true;
                    post_func_mem_access = true;
                },
            }
        }
        match stats.ret_ty {
            SupportedRetType::Unit
            | SupportedRetType::Integer(_)
            | SupportedRetType::OwnedString => {},
            SupportedRetType::IntegerVec(_) => {
                any_alloc = true;
                post_func_mem_access = true;
            },
        }
        FuncStats {
            inner: stats,
            uses_memory_access: any_alloc,
            uses_post_function_memory_access: post_func_mem_access,
        }
    }
}

} // verus!
