//! Typed failures of the engine.
//!
//! Two tiers are distinguished.  Load-time structural errors
//! ([`LoadError`]) are recoverable by the host: it may retry with a
//! different module or environment.  Memory-read failures
//! ([`MemoryError`]) are the one runtime condition reported as a value,
//! because guest-supplied offsets are expected to be occasionally
//! invalid and must not crash a well-behaved host.

use vstd::prelude::*;

verus! {

/// A WebAssembly construct outside the supported subset.
///
/// Supporting any of these silently would produce code that appears to
/// run but violates assumptions the rest of the engine depends on, so
/// meeting one is reported and never approximated.
#[derive(Clone, Copy, Debug, PartialEq, Eq, Structural)]
pub enum UnsupportedConstruct {
    TableImport,
    MemoryImport,
    Table,
    Heap,
    IndirectSignature,
    IndirectCall,
    MemoryGrow,
    MemorySize,
    MemoryCopy,
    MemoryFill,
    MemoryInit,
    DataDrop,
    TableSize,
    TableGrow,
    TableGet,
    TableSet,
    TableCopy,
    TableFill,
    TableInit,
    ElemDrop,
    GlobalSet,
    AtomicWait,
    AtomicNotify,
}

/// A typed reason why a load failed.
#[derive(Clone, Debug, PartialEq, Eq)]
pub enum LoadError {
    /// The source text is not a well-formed module.
    MalformedSource,
    /// The environment has no function under the named module and field.
    UnresolvedFunctionImport { module: String, field: String },
    /// The environment has no global under the named module and field.
    UnresolvedGlobalImport { module: String, field: String },
    /// The host-provided function's signature is not structurally
    /// compatible with the requested import type.
    IncompatibleImportSignature { module: String, field: String },
    /// A constant global import was requested at a type other than the
    /// opaque-reference type.
    NonExternRefConstant { module: String, field: String },
    /// A constant global import was declared mutable.
    MutableConstant { module: String, field: String },
    /// The module uses a construct outside the supported subset.
    Unsupported(UnsupportedConstruct),
    /// Two data segments cover a common byte of linear memory.
    DataSegmentOverlap,
    /// A data segment's end does not fit in an addressable offset.
    DataSegmentTooLarge,
}

/// A recoverable failure of a typed read from linear memory.
#[derive(Clone, Copy, Debug, PartialEq, Eq, Structural)]
pub enum MemoryError {
    /// The offset lies beyond the end of memory.
    OutOfBounds,
    /// No NUL terminator was found between the offset and the end of
    /// memory.
    MissingTerminator,
}

} // verus!
