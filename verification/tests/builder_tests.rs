use fabric_runtime::{
    Environment, Function, GlobalDescriptor, GlobalValue, LoadError, MemoryDeclaration, ModuleEnv,
    Signature, TableDeclaration, UnsupportedConstruct, WasmType,
};

struct TestEnv {
    functions: Vec<(&'static str, &'static str, Signature, usize)>,
    globals: Vec<(&'static str, &'static str, GlobalValue)>,
}

impl TestEnv {
    fn empty() -> TestEnv {
        TestEnv { functions: Vec::new(), globals: Vec::new() }
    }
}

impl Environment for TestEnv {
    fn import_function(&mut self, module: &str, name: &str) -> Option<Function> {
        for (m, f, signature, pointer) in &self.functions {
            if *m == module && *f == name {
                return Some(Function {
                    signature: Signature {
                        params: signature.params.clone(),
                        results: signature.results.clone(),
                    },
                    pointer: *pointer,
                });
            }
        }
        None
    }

    fn import_global(&mut self, module: &str, name: &str) -> Option<GlobalValue> {
        for (m, f, value) in &self.globals {
            if *m == module && *f == name {
                return Some(*value);
            }
        }
        None
    }
}

fn sig(params: Vec<WasmType>, results: Vec<WasmType>) -> Signature {
    Signature { params, results }
}

#[test]
fn func_import_resolves_against_environment() {
    let env = TestEnv {
        functions: vec![("host", "print", sig(vec![WasmType::I32], vec![]), 0x1000)],
        globals: Vec::new(),
    };
    let mut builder = ModuleEnv::new(env);
    builder.declare_signature(sig(vec![WasmType::I32], vec![]));
    let answer = builder.env.import_function("host", "print");
    builder.declare_func_import(0, "host", "print", answer).unwrap();
    assert_eq!(builder.imported_functions.len(), 1);
    assert_eq!(builder.imported_functions[0].module, "host");
    assert_eq!(builder.imported_functions[0].field, "print");
    assert_eq!(builder.imported_functions[0].pointer, 0x1000);
    assert_eq!(builder.imported_functions[0].symbol_name(), "host::print");
    // The host signature was registered and the function table points
    // at it.
    assert_eq!(builder.module.functions, vec![1]);
    assert_eq!(builder.module.signatures.len(), 2);
}

#[test]
fn unresolved_func_import_names_module_and_field() {
    let mut builder = ModuleEnv::new(TestEnv::empty());
    builder.declare_signature(sig(vec![], vec![]));
    let answer = builder.env.import_function("host", "missing");
    let err = builder.declare_func_import(0, "host", "missing", answer).unwrap_err();
    assert_eq!(
        err,
        LoadError::UnresolvedFunctionImport {
            module: String::from("host"),
            field: String::from("missing"),
        }
    );
    // Nothing was registered: no stub is silently substituted.
    assert_eq!(builder.imported_functions.len(), 0);
    assert_eq!(builder.module.functions.len(), 0);
}

#[test]
fn incompatible_func_import_signature_is_rejected() {
    let env = TestEnv {
        functions: vec![("host", "print", sig(vec![WasmType::I64], vec![]), 0x1000)],
        globals: Vec::new(),
    };
    let mut builder = ModuleEnv::new(env);
    builder.declare_signature(sig(vec![WasmType::I32], vec![]));
    let answer = builder.env.import_function("host", "print");
    let err = builder.declare_func_import(0, "host", "print", answer).unwrap_err();
    assert_eq!(
        err,
        LoadError::IncompatibleImportSignature {
            module: String::from("host"),
            field: String::from("print"),
        }
    );
    assert_eq!(builder.imported_functions.len(), 0);
}

#[test]
fn global_import_accepts_immutable_externref_constant() {
    let env = TestEnv {
        functions: Vec::new(),
        globals: vec![("host", "self", GlobalValue::Const(42))],
    };
    let mut builder = ModuleEnv::new(env);
    let answer = builder.env.import_global("host", "self");
    builder
        .declare_global_import(
            GlobalDescriptor { ty: WasmType::ExternRef, mutable: false },
            "host",
            "self",
            answer,
        )
        .unwrap();
    assert_eq!(builder.module.globals, vec![GlobalValue::Const(42)]);
}

#[test]
fn global_import_rejects_wrong_type() {
    let env = TestEnv {
        functions: Vec::new(),
        globals: vec![("host", "self", GlobalValue::Const(42))],
    };
    let mut builder = ModuleEnv::new(env);
    let answer = builder.env.import_global("host", "self");
    let err = builder
        .declare_global_import(
            GlobalDescriptor { ty: WasmType::I32, mutable: false },
            "host",
            "self",
            answer,
        )
        .unwrap_err();
    assert_eq!(
        err,
        LoadError::NonExternRefConstant {
            module: String::from("host"),
            field: String::from("self"),
        }
    );
    assert_eq!(builder.module.globals.len(), 0);
}

#[test]
fn global_import_rejects_mutable_constant() {
    let env = TestEnv {
        functions: Vec::new(),
        globals: vec![("host", "self", GlobalValue::Const(42))],
    };
    let mut builder = ModuleEnv::new(env);
    let answer = builder.env.import_global("host", "self");
    let err = builder
        .declare_global_import(
            GlobalDescriptor { ty: WasmType::ExternRef, mutable: true },
            "host",
            "self",
            answer,
        )
        .unwrap_err();
    assert_eq!(
        err,
        LoadError::MutableConstant { module: String::from("host"), field: String::from("self") }
    );
}

#[test]
fn unresolved_global_import_names_module_and_field() {
    let mut builder = ModuleEnv::new(TestEnv::empty());
    let answer = builder.env.import_global("host", "nothing");
    let err = builder
        .declare_global_import(
            GlobalDescriptor { ty: WasmType::ExternRef, mutable: false },
            "host",
            "nothing",
            answer,
        )
        .unwrap_err();
    assert_eq!(
        err,
        LoadError::UnresolvedGlobalImport {
            module: String::from("host"),
            field: String::from("nothing"),
        }
    );
}

#[test]
fn table_and_memory_imports_are_unsupported() {
    let mut builder = ModuleEnv::new(TestEnv::empty());
    let err = builder
        .declare_table_import(TableDeclaration { minimum: 0, maximum: None }, "host", "table")
        .unwrap_err();
    assert_eq!(err, LoadError::Unsupported(UnsupportedConstruct::TableImport));
    let err = builder
        .declare_memory_import(
            MemoryDeclaration { minimum: 1, maximum: None, shared: false },
            "host",
            "memory",
        )
        .unwrap_err();
    assert_eq!(err, LoadError::Unsupported(UnsupportedConstruct::MemoryImport));
}

#[test]
fn start_function_is_recorded() {
    let mut builder = ModuleEnv::new(TestEnv::empty());
    assert_eq!(builder.start_func, None);
    builder.declare_start_func(2);
    assert_eq!(builder.start_func, Some(2));
}

#[test]
fn data_initializations_are_recorded_in_order() {
    let mut builder = ModuleEnv::new(TestEnv::empty());
    builder.declare_data_initialization(None, 0, vec![1, 2, 3]);
    builder.declare_data_initialization(None, 10, vec![9, 9]);
    assert_eq!(builder.data_initializations.len(), 2);
    assert_eq!(builder.data_initializations[0].offset, 0);
    assert_eq!(builder.data_initializations[0].bytes, vec![1, 2, 3]);
    assert_eq!(builder.data_initializations[1].offset, 10);
    assert_eq!(builder.data_initializations[1].bytes, vec![9, 9]);
}

#[test]
fn function_bodies_are_recorded_in_order() {
    let mut builder = ModuleEnv::new(TestEnv::empty());
    builder.define_function_body(vec![0x0b], 17);
    builder.define_function_body(vec![0x01, 0x0b], 25);
    assert_eq!(builder.defined_functions.len(), 2);
    assert_eq!(builder.defined_functions[0].bytes, vec![0x0b]);
    assert_eq!(builder.defined_functions[1].offset, 25);
}
