//! The module environment builder: the single declarative pass over a
//! parsed module.
//!
//! The pass produces the module's signatures, function table layout,
//! constant globals, memory shape, data-segment placements and start
//! index, and resolves every import against the host environment's
//! answers, which the caller obtains from its [`Environment`] and
//! hands in with each import declaration.
//!
//! [`Environment`]: crate::env::Environment
//!
//! Function declaration order is the load-bearing invariant: imported
//! functions are declared first, in declaration order, then defined
//! functions, in declaration order, so that native symbol names line up
//! with compiled bodies during linking.

use vstd::prelude::*;
use vstd::string::StringExecFns;

use crate::env::{resolve_func_import, resolve_global_import};
use crate::error::{LoadError, UnsupportedConstruct};
use crate::types::{sig_eq, Function, GlobalDescriptor, GlobalValue, Signature, WasmType};

verus! {

/// The declared shape of a linear memory: its page counts and sharing
/// flag.  Only the shape is recorded; the memory built at link time is
/// sized by its data segments.
#[derive(Clone, Copy, Debug)]
pub struct MemoryDeclaration {
    pub minimum: u32,
    pub maximum: Option<u32>,
    pub shared: bool,
}

/// The declared shape of a table.  Tables are outside the supported
/// subset; a declaration is recorded nowhere and only tolerated where
/// it demands no runtime behavior.
#[derive(Clone, Copy, Debug)]
pub struct TableDeclaration {
    pub minimum: u32,
    pub maximum: Option<u32>,
}

/// A memory segment's initial contents: a byte slice placed at a
/// statically-known offset.
///
/// A base global alongside the fixed offset is recorded but never
/// honored: base-relative segments are outside the supported subset.
#[derive(Debug)]
pub struct DataSegment {
    pub base: Option<u32>,
    pub offset: usize,
    pub bytes: Vec<u8>,
}

/// The undecoded body of a defined function, with the code offset it
/// starts at in the binary module.
#[derive(Debug)]
pub struct FunctionBody {
    pub bytes: Vec<u8>,
    pub offset: usize,
}

/// A resolved function import: the names it was requested under and the
/// native entry point the host supplied for it.
#[derive(Debug)]
pub struct ImportedFunction {
    pub module: String,
    pub field: String,
    /// Address of the host-side native code, as a plain integer.
    pub pointer: usize,
}

impl ImportedFunction {
    /// The symbol name the import is registered under for linking.
    pub fn symbol_name(&self) -> (r: String)
        ensures
            r@ == self.module@ + ("::")@ + self.field@,
    {
        let mut s = String::from_str(self.module.as_str());
        s.append("::");
        s.append(self.field.as_str());
        s
    }
}

/// The module-level definitions shared by function translation and
/// linking: constant globals, the function table layout (one signature
/// index per function) and the signatures themselves.
#[derive(Debug)]
pub struct ModuleDefs {
    pub globals: Vec<GlobalValue>,
    pub functions: Vec<usize>,
    pub signatures: Vec<Signature>,
}

impl ModuleDefs {
    /// Every function's signature index designates a declared
    /// signature.
    pub open spec fn wf(self) -> bool {
        forall|i: int|
            0 <= i < self.functions@.len() ==> self.functions@[i] < self.signatures@.len()
    }
}

/// The module environment: accumulates one module's declarations over
/// the single pass, consuming the host environment's import answers as
/// it goes.
#[derive(Debug)]
pub struct ModuleEnv<E> {
    /// The host environment imports are resolved against.
    pub env: E,
    /// Definitions shared with function translation and linking.
    pub module: ModuleDefs,
    /// The optional entry point run automatically after load.
    pub start_func: Option<u32>,
    /// Declared memory shapes.
    pub memories: Vec<MemoryDeclaration>,
    /// Declared data-segment placements, in declaration order.
    pub data_initializations: Vec<DataSegment>,
    /// Resolved function imports, in declaration order.
    pub imported_functions: Vec<ImportedFunction>,
    /// Defined function bodies, in declaration order.
    pub defined_functions: Vec<FunctionBody>,
}

impl<E> ModuleEnv<E> {
    /// A builder with no declarations, over the given host environment.
    pub fn new(env: E) -> (r: ModuleEnv<E>)
        ensures
            r.env == env,
            r.module.globals@ == Seq::<GlobalValue>::empty(),
            r.module.functions@ == Seq::<usize>::empty(),
            r.module.signatures@ == Seq::<Signature>::empty(),
            r.start_func is None,
            r.memories@ == Seq::<MemoryDeclaration>::empty(),
            r.data_initializations@.len() == 0,
            r.imported_functions@.len() == 0,
            r.defined_functions@.len() == 0,
            r.wf(),
    {
        ModuleEnv {
            env,
            module: ModuleDefs { globals: Vec::new(), functions: Vec::new(), signatures: Vec::new() },
            start_func: None,
            memories: Vec::new(),
            data_initializations: Vec::new(),
            imported_functions: Vec::new(),
            defined_functions: Vec::new(),
        }
    }

    /// The builder's own invariant: signature indices are in range, and
    /// the function table never holds fewer entries than there are
    /// resolved imports — imports always form its prefix.
    pub open spec fn wf(self) -> bool {
        &&& self.module.wf()
        &&& self.imported_functions@.len() <= self.module.functions@.len()
    }

    /// Records a callable type; never fails.
    pub fn declare_signature(&mut self, signature: Signature)
        ensures
            final(self).module.signatures@ == old(self).module.signatures@.push(signature),
            final(self).module.functions@ == old(self).module.functions@,
            final(self).module.globals@ == old(self).module.globals@,
            final(self).start_func == old(self).start_func,
            final(self).memories@ == old(self).memories@,
            final(self).data_initializations@ == old(self).data_initializations@,
            final(self).imported_functions@ == old(self).imported_functions@,
            final(self).defined_functions@ == old(self).defined_functions@,
            old(self).wf() ==> final(self).wf(),
    {
        self.module.signatures.push(signature);
    }

    /// Registers the function the host environment exposes under
    /// `(module, field)` for linking.  The caller asks the environment
    /// and hands its answer in, so that the contract can tie what is
    /// registered to what the host supplied.
    ///
    /// The request fails with an unresolved-import error exactly when
    /// the answer is nothing, and with an incompatibility error exactly
    /// when the answered function's signature does not match the
    /// requested type; either way the declarations are left as they
    /// were.  Otherwise the answered function's signature is appended
    /// to the signature table, the function table gains its index, and
    /// the import's names and the answered native pointer — never a
    /// stub — are recorded for the linker.
    pub fn declare_func_import(
        &mut self,
        sig_index: usize,
        module: &str,
        field: &str,
        answer: Option<Function>,
    ) -> (r: Result<(), LoadError>)
        requires
            old(self).wf(),
            sig_index < old(self).module.signatures@.len(),
            old(self).module.functions@.len() == old(self).imported_functions@.len(),
        ensures
            final(self).wf(),
            match answer {
                None => {
                    &&& r matches Err(e)
                    &&& e matches LoadError::UnresolvedFunctionImport { module: m, field: f }
                    &&& m@ == module@
                    &&& f@ == field@
                    &&& final(self).module == old(self).module
                    &&& final(self).imported_functions@ == old(self).imported_functions@
                },
                Some(func) => {
                    if sig_eq(func.signature, old(self).module.signatures@[sig_index as int]) {
                        &&& r is Ok
                        &&& final(self).module.signatures@.len()
                            == old(self).module.signatures@.len() + 1
                        &&& final(self).module.signatures@.take(
                            old(self).module.signatures@.len() as int,
                        ) == old(self).module.signatures@
                        &&& final(self).module.signatures@.last() == func.signature
                        &&& final(self).module.functions@ == old(self).module.functions@.push(
                            old(self).module.signatures@.len() as usize,
                        )
                        &&& final(self).imported_functions@.len()
                            == old(self).imported_functions@.len() + 1
                        &&& final(self).imported_functions@.take(
                            old(self).imported_functions@.len() as int,
                        ) == old(self).imported_functions@
                        &&& final(self).imported_functions@.last().module@ == module@
                        &&& final(self).imported_functions@.last().field@ == field@
                        &&& final(self).imported_functions@.last().pointer == func.pointer
                        &&& final(self).module.functions@.len()
                            == final(self).imported_functions@.len()
                    } else {
                        &&& r matches Err(e)
                        &&& e matches LoadError::IncompatibleImportSignature { module: m, field: f }
                        &&& m@ == module@
                        &&& f@ == field@
                        &&& final(self).module == old(self).module
                        &&& final(self).imported_functions@ == old(self).imported_functions@
                    }
                },
            },
            final(self).module.globals@ == old(self).module.globals@,
            final(self).start_func == old(self).start_func,
            final(self).memories@ == old(self).memories@,
            final(self).data_initializations@ == old(self).data_initializations@,
            final(self).defined_functions@ == old(self).defined_functions@,
    {
        match resolve_func_import(&self.module.signatures[sig_index], answer, module, field) {
            Ok(func) => {
                let Function { signature, pointer } = func;
                let index = self.module.signatures.len();
                self.module.signatures.push(signature);
                self.module.functions.push(index);
                self.imported_functions.push(
                    ImportedFunction {
                        module: String::from_str(module),
                        field: String::from_str(field),
                        pointer,
                    },
                );
                Ok(())
            },
            Err(e) => Err(e),
        }
    }

    /// A table import is outside the supported subset: the load fails.
    pub fn declare_table_import(&mut self, _table: TableDeclaration, _module: &str, _field: &str)
        -> (r: Result<(), LoadError>)
        ensures
            *final(self) == *old(self),
            r == Err::<(), LoadError>(LoadError::Unsupported(UnsupportedConstruct::TableImport)),
    {
        Err(LoadError::Unsupported(UnsupportedConstruct::TableImport))
    }

    /// A memory import is outside the supported subset: the load fails.
    pub fn declare_memory_import(&mut self, _memory: MemoryDeclaration, _module: &str, _field: &str)
        -> (r: Result<(), LoadError>)
        ensures
            *final(self) == *old(self),
            r == Err::<(), LoadError>(LoadError::Unsupported(UnsupportedConstruct::MemoryImport)),
    {
        Err(LoadError::Unsupported(UnsupportedConstruct::MemoryImport))
    }

    /// Records the constant the host environment exposes under
    /// `(module, field)` as a module global.  The caller asks the
    /// environment and hands its answer in, so that the contract can
    /// tie the recorded constant to what the host supplied.
    ///
    /// The request fails if the answer is nothing, if the request is
    /// not at the opaque-reference type, or if it is marked mutable —
    /// only immutable opaque-reference constants are supported;
    /// otherwise the answered constant is appended unchanged.
    pub fn declare_global_import(
        &mut self,
        global: GlobalDescriptor,
        module: &str,
        field: &str,
        answer: Option<GlobalValue>,
    ) -> (r: Result<(), LoadError>)
        ensures
            match answer {
                None => {
                    &&& r matches Err(e)
                    &&& e matches LoadError::UnresolvedGlobalImport { module: m, field: f }
                    &&& m@ == module@
                    &&& f@ == field@
                    &&& final(self).module.globals@ == old(self).module.globals@
                },
                Some(value) => {
                    if global.ty != WasmType::ExternRef {
                        &&& r matches Err(e)
                        &&& e matches LoadError::NonExternRefConstant { module: m, field: f }
                        &&& m@ == module@
                        &&& f@ == field@
                        &&& final(self).module.globals@ == old(self).module.globals@
                    } else if global.mutable {
                        &&& r matches Err(e)
                        &&& e matches LoadError::MutableConstant { module: m, field: f }
                        &&& m@ == module@
                        &&& f@ == field@
                        &&& final(self).module.globals@ == old(self).module.globals@
                    } else {
                        &&& r is Ok
                        &&& final(self).module.globals@ == old(self).module.globals@.push(value)
                    }
                },
            },
            final(self).module.functions@ == old(self).module.functions@,
            final(self).module.signatures@ == old(self).module.signatures@,
            final(self).start_func == old(self).start_func,
            final(self).memories@ == old(self).memories@,
            final(self).data_initializations@ == old(self).data_initializations@,
            final(self).imported_functions@ == old(self).imported_functions@,
            final(self).defined_functions@ == old(self).defined_functions@,
            old(self).wf() ==> final(self).wf(),
    {
        match resolve_global_import(&global, answer, module, field) {
            Ok(value) => {
                self.module.globals.push(value);
                Ok(())
            },
            Err(e) => Err(e),
        }
    }

    /// Declares the type of a defined function: the function table
    /// gains the signature index.
    pub fn declare_func_type(&mut self, sig_index: usize)
        requires
            sig_index < old(self).module.signatures@.len(),
        ensures
            final(self).module.functions@ == old(self).module.functions@.push(sig_index),
            final(self).module.signatures@ == old(self).module.signatures@,
            final(self).module.globals@ == old(self).module.globals@,
            final(self).start_func == old(self).start_func,
            final(self).memories@ == old(self).memories@,
            final(self).data_initializations@ == old(self).data_initializations@,
            final(self).imported_functions@ == old(self).imported_functions@,
            final(self).defined_functions@ == old(self).defined_functions@,
            old(self).wf() ==> final(self).wf(),
    {
        self.module.functions.push(sig_index);
    }

    /// A table declaration demands no runtime behavior by itself and is
    /// silently accepted as a no-op.
    pub fn declare_table(&mut self, _table: TableDeclaration)
        ensures
            *final(self) == *old(self),
    {
    }

    /// Records a memory's declared shape.
    pub fn declare_memory(&mut self, memory: MemoryDeclaration)
        ensures
            final(self).memories@ == old(self).memories@.push(memory),
            final(self).module == old(self).module,
            final(self).start_func == old(self).start_func,
            final(self).data_initializations@ == old(self).data_initializations@,
            final(self).imported_functions@ == old(self).imported_functions@,
            final(self).defined_functions@ == old(self).defined_functions@,
            old(self).wf() ==> final(self).wf(),
    {
        self.memories.push(memory);
    }

    /// A module-defined global is never read by the supported subset
    /// and is silently accepted as a no-op.
    pub fn declare_global(&mut self, _global: GlobalDescriptor)
        ensures
            *final(self) == *old(self),
    {
    }

    /// Exports are irrelevant to this engine and silently accepted.
    pub fn declare_func_export(&mut self, _func_index: u32, _name: &str)
        ensures
            *final(self) == *old(self),
    {
    }

    /// Exports are irrelevant to this engine and silently accepted.
    pub fn declare_table_export(&mut self, _table_index: u32, _name: &str)
        ensures
            *final(self) == *old(self),
    {
    }

    /// Exports are irrelevant to this engine and silently accepted.
    pub fn declare_memory_export(&mut self, _memory_index: u32, _name: &str)
        ensures
            *final(self) == *old(self),
    {
    }

    /// Exports are irrelevant to this engine and silently accepted.
    pub fn declare_global_export(&mut self, _global_index: u32, _name: &str)
        ensures
            *final(self) == *old(self),
    {
    }

    /// Records the optional entry point run automatically after load.
    pub fn declare_start_func(&mut self, index: u32)
        ensures
            final(self).start_func == Some(index),
            final(self).module == old(self).module,
            final(self).memories@ == old(self).memories@,
            final(self).data_initializations@ == old(self).data_initializations@,
            final(self).imported_functions@ == old(self).imported_functions@,
            final(self).defined_functions@ == old(self).defined_functions@,
            old(self).wf() ==> final(self).wf(),
    {
        self.start_func = Some(index);
    }

    /// Table elements demand no runtime behavior in the supported
    /// subset and are silently accepted.
    pub fn declare_table_elements(
        &mut self,
        _table_index: u32,
        _base: Option<u32>,
        _offset: usize,
        _elements: Vec<u32>,
    )
        ensures
            *final(self) == *old(self),
    {
    }

    /// A passive element segment is never referenced by the supported
    /// subset and is silently accepted.
    pub fn declare_passive_element(&mut self, _index: u32, _elements: Vec<u32>)
        ensures
            *final(self) == *old(self),
    {
    }

    /// A passive data segment is never referenced by the supported
    /// subset and is silently accepted.
    pub fn declare_passive_data(&mut self, _index: u32, _data: &[u8])
        ensures
            *final(self) == *old(self),
    {
    }

    /// Records one defined function's body for later translation.
    pub fn define_function_body(&mut self, bytes: Vec<u8>, offset: usize)
        ensures
            final(self).defined_functions@.len() == old(self).defined_functions@.len() + 1,
            final(self).defined_functions@.take(old(self).defined_functions@.len() as int)
                == old(self).defined_functions@,
            final(self).defined_functions@.last().bytes@ == bytes@,
            final(self).defined_functions@.last().offset == offset,
            final(self).module == old(self).module,
            final(self).start_func == old(self).start_func,
            final(self).memories@ == old(self).memories@,
            final(self).data_initializations@ == old(self).data_initializations@,
            final(self).imported_functions@ == old(self).imported_functions@,
            old(self).wf() ==> final(self).wf(),
    {
        self.defined_functions.push(FunctionBody { bytes, offset });
    }

    /// Records a data segment's placement.  Only the statically-known
    /// offset is honored; a base global is recorded for inspection but
    /// base-relative placement is outside the supported subset.
    pub fn declare_data_initialization(&mut self, base: Option<u32>, offset: usize, bytes: Vec<u8>)
        ensures
            final(self).data_initializations@.len() == old(self).data_initializations@.len() + 1,
            final(self).data_initializations@.take(old(self).data_initializations@.len() as int)
                == old(self).data_initializations@,
            final(self).data_initializations@.last().base == base,
            final(self).data_initializations@.last().offset == offset,
            final(self).data_initializations@.last().bytes@ == bytes@,
            final(self).module == old(self).module,
            final(self).start_func == old(self).start_func,
            final(self).memories@ == old(self).memories@,
            final(self).imported_functions@ == old(self).imported_functions@,
            final(self).defined_functions@ == old(self).defined_functions@,
            old(self).wf() ==> final(self).wf(),
    {
        self.data_initializations.push(DataSegment { base, offset, bytes });
    }
}

} // verus!
