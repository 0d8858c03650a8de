//! The live, runnable instance of a loaded module.

use vstd::prelude::*;

use crate::externs::Externs;
use crate::memory::Memory;
use crate::types::{FuncRef, Function};

verus! {

/// An execution context: the object produced by the load driver and
/// owned thereafter by the host.
///
/// It aggregates the function table, the linear memory, the externs
/// arena and the host environment value.  An exclusive reference to the
/// context is passed as the implicit first argument to every native
/// function compiled from or imported into the module, so the host must
/// keep the context alive for as long as any entry point derived from
/// it may run, and must serialize calls that share one context.
pub struct VMContext<E, X> {
    /// The function table: imported functions first, in declaration
    /// order, then defined functions, in declaration order.
    pub functions: Vec<Option<Function>>,
    /// Linear memory instance associated with this module.
    pub memory: Memory,
    /// Arena holding the managed externals for this instance.
    pub externs: Externs<X>,
    /// Handle to the host environment.
    pub environment: E,
}

impl<E, X> VMContext<E, X> {
    /// The function a function reference designates: a table lookup by
    /// index, yielding nothing for an out-of-range or absent slot.
    pub fn function(&self, index: FuncRef) -> (r: Option<&Function>)
        ensures
            match r {
                Some(f) => {
                    &&& index.0 < self.functions@.len()
                    &&& self.functions@[index.0 as int] matches Some(g) && *f == g
                },
                None => {
                    index.0 >= self.functions@.len() || self.functions@[index.0 as int] is None
                },
            },
    {
        let i = index.0 as usize;
        if i < self.functions.len() {
            match &self.functions[i] {
                Some(f) => Some(f),
                None => None,
            }
        } else {
            None
        }
    }
}

} // verus!
