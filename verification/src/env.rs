//! The host environment capability and import resolution.
//!
//! The host implements [`Environment`]; the load driver asks it for
//! each declared import and hands the answer to the module environment
//! builder.  Absence of a requested import is not itself an error at
//! the environment layer — the resolution functions here turn it into
//! a typed load failure.

use vstd::prelude::*;
use vstd::string::StringExecFns;

use crate::error::LoadError;
use crate::types::{sig_eq, Function, GlobalDescriptor, GlobalValue, Signature, WasmType};

verus! {

/// A handle to the host environment, used while loading a module to
/// resolve its import requests.
///
/// Nothing is assumed of an implementation: the resolution functions
/// below state what the builder does for every possible answer.
pub trait Environment {
    /// The function the host exposes under `(module, name)`, if any.
    fn import_function(&mut self, module: &str, name: &str) -> Option<Function>;

    /// The constant global the host exposes under `(module, name)`, if
    /// any.
    fn import_global(&mut self, module: &str, name: &str) -> Option<GlobalValue>;
}

/// Resolves one function import request against the environment's
/// answer.
///
/// The request fails with an unresolved-import error naming module and
/// field exactly when the environment returned nothing; a function the
/// environment did return is handed back unchanged — never a stub —
/// when its signature is structurally compatible with the requested
/// type, and rejected otherwise.
pub fn resolve_func_import(
    requested: &Signature,
    answer: Option<Function>,
    module: &str,
    field: &str,
) -> (r: Result<Function, LoadError>)
    ensures
        match answer {
            None => r matches Err(e) && e matches LoadError::UnresolvedFunctionImport {
                module: m,
                field: f,
            } && m@ == module@ && f@ == field@,
            Some(func) => {
                if sig_eq(func.signature, *requested) {
                    r matches Ok(g) && g == func
                } else {
                    r matches Err(e) && e matches LoadError::IncompatibleImportSignature {
                        module: m,
                        field: f,
                    } && m@ == module@ && f@ == field@
                }
            },
        },
{
    match answer {
        Some(func) => {
            if func.signature.compatible(requested) {
                Ok(func)
            } else {
                Err(
                    LoadError::IncompatibleImportSignature {
                        module: String::from_str(module),
                        field: String::from_str(field),
                    },
                )
            }
        },
        None => Err(
            LoadError::UnresolvedFunctionImport {
                module: String::from_str(module),
                field: String::from_str(field),
            },
        ),
    }
}

/// Resolves one global import request against the environment's answer.
///
/// The request fails with an unresolved-import error exactly when the
/// environment returned nothing.  A returned constant is accepted only
/// as an immutable opaque-reference global: a request at any other
/// value type, or a request marked mutable, is rejected.
pub fn resolve_global_import(
    global: &GlobalDescriptor,
    answer: Option<GlobalValue>,
    module: &str,
    field: &str,
) -> (r: Result<GlobalValue, LoadError>)
    ensures
        match answer {
            None => r matches Err(e) && e matches LoadError::UnresolvedGlobalImport {
                module: m,
                field: f,
            } && m@ == module@ && f@ == field@,
            Some(value) => {
                if global.ty != WasmType::ExternRef {
                    r matches Err(e) && e matches LoadError::NonExternRefConstant {
                        module: m,
                        field: f,
                    } && m@ == module@ && f@ == field@
                } else if global.mutable {
                    r matches Err(e) && e matches LoadError::MutableConstant {
                        module: m,
                        field: f,
                    } && m@ == module@ && f@ == field@
                } else {
                    r == Ok::<GlobalValue, LoadError>(value)
                }
            },
        },
{
    match answer {
        Some(value) => {
            match value {
                GlobalValue::Const(_) => {
                    if !matches!(global.ty, WasmType::ExternRef) {
                        Err(
                            LoadError::NonExternRefConstant {
                                module: String::from_str(module),
                                field: String::from_str(field),
                            },
                        )
                    } else if global.mutable {
                        Err(
                            LoadError::MutableConstant {
                                module: String::from_str(module),
                                field: String::from_str(field),
                            },
                        )
                    } else {
                        Ok(value)
                    }
                },
            }
        },
        None => Err(
            LoadError::UnresolvedGlobalImport {
                module: String::from_str(module),
                field: String::from_str(field),
            },
        ),
    }
}

} // verus!
