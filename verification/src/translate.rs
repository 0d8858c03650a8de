//! Per-function lowering decisions handed to the backend compiler.
//!
//! Function bodies are lowered by an outside code generator; the
//! decisions it needs — what a global read yields, what a function
//! reference is, how a direct call's argument list is formed — are
//! plain functions here, so that every rule of the restricted subset
//! is stated and checked once.

use vstd::prelude::*;

use crate::builder::ModuleDefs;
use crate::types::{ExternRef, FuncRef, GlobalValue, Signature};

verus! {

/// Lowering a reference to function index `i` produces the integer `i`
/// itself: the engine represents function references as plain indices
/// into the context's function table, not native pointers.  A
/// reference later handed back resolves to a function through the
/// table lookup of the execution context.
pub fn lower_ref_func(index: u32) -> (r: FuncRef)
    ensures
        r == FuncRef(index),
{
    FuncRef(index)
}

/// Reading a constant opaque-reference global is lowered to an inline
/// constant: the handle that carries the recorded constant as slot
/// index at generation zero, in its fixed-width encoding.
pub fn lower_global_get(globals: &Vec<GlobalValue>, index: usize) -> (r: u64)
    requires
        index < globals@.len(),
    ensures
        globals@[index as int] matches GlobalValue::Const(c) && r == (ExternRef {
            index: c,
            generation: 0,
        }).spec_bits(),
        globals@[index as int] matches GlobalValue::Const(c) && r == c as u64,
{
    match globals[index] {
        GlobalValue::Const(c) => ExternRef::from_const(c).to_bits(),
    }
}

/// The signature a direct call to function index `func_index` must be
/// emitted against.
pub fn direct_call_signature<'a>(defs: &'a ModuleDefs, func_index: usize) -> (r: &'a Signature)
    requires
        defs.wf(),
        func_index < defs.functions@.len(),
    ensures
        *r == defs.signatures@[defs.functions@[func_index as int] as int],
{
    let sig_index = defs.functions[func_index];
    &defs.signatures[sig_index]
}

/// The runtime argument list of a compiled call site: the execution
/// context pointer first, then the call's own arguments in order.
/// Every call, imported or internal, receives the context first.
pub fn with_context_argument<V: Copy>(context: V, arguments: &Vec<V>) -> (r: Vec<V>)
    ensures
        r@ == seq![context] + arguments@,
{
    let mut out: Vec<V> = Vec::new();
    out.push(context);
    let n = arguments.len();
    let mut i: usize = 0;
    while i < n
        invariant
            n == arguments@.len(),
            0 <= i <= n,
            out@ =~= seq![context] + arguments@.take(i as int),
        decreases n - i,
    {
        out.push(arguments[i]);
        assert(out@ =~= seq![context] + arguments@.take(i + 1 as int));
        i += 1;
    }
    assert(arguments@.take(n as int) =~= arguments@);
    out
}

} // verus!
