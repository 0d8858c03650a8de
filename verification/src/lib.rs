//! Core of a restricted WebAssembly execution engine.
//!
//! The engine parses a textual module, declares its signatures, imports,
//! memory and start routine, resolves imports against a host-supplied
//! environment, and plans the just-in-time compilation of its function
//! bodies under a context-threading calling convention: every native
//! function, imported or defined, receives a pointer to the owning
//! execution context as an implicit first argument.
//!
//! The supported module subset is deliberately small: a single linear
//! memory that is never grown, direct calls only, and immutable
//! opaque-reference constant globals.  Constructs outside the subset
//! (tables, indirect calls, memory growth, bulk-memory and atomic
//! operations) are reported as typed [`LoadError`] values rather
//! than aborting the process; a host that prefers abort semantics can
//! turn them into one.

mod builder;
mod context;
mod driver;
mod env;
mod error;
mod externs;
mod memory;
mod translate;
mod types;

pub use builder::{
    DataSegment, FunctionBody, ImportedFunction, MemoryDeclaration, ModuleDefs, ModuleEnv,
    TableDeclaration,
};
pub use context::VMContext;
pub use driver::{
    build_memory, covered, covered_before, covers, declaration_sequence, link, memory_extent,
    pair_disjoint, parse_source, segment_end, segments_disjoint, segments_fit, wat_binary,
    FuncDeclaration, SymbolLinkage,
};
pub use env::{resolve_func_import, resolve_global_import, Environment};
pub use error::{LoadError, MemoryError, UnsupportedConstruct};
pub use externs::{
    creation_post, lemma_handle_safety, removal_post, slot_free, slot_live, slot_value, ExternSlot,
    Externs,
};
pub use memory::{Loadable, Memory, ZString};
pub use translate::{
    direct_call_signature, lower_global_get, lower_ref_func, with_context_argument,
};
pub use types::{
    lemma_extern_ref_bits_roundtrip, native_of, sig_eq, ExternRef, FuncRef, Function,
    GlobalDescriptor, GlobalValue, NativeSignature, NativeType, Signature, WasmType,
};
