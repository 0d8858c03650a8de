use fabric_runtime::{
    build_memory, declaration_sequence, link, lower_global_get, lower_ref_func, parse_source,
    with_context_argument, DataSegment, Environment, ExternRef, FuncRef, Function, GlobalValue,
    LoadError, ModuleDefs, ModuleEnv, NativeType, Signature, SymbolLinkage, VMContext, WasmType,
};

fn segment(offset: usize, bytes: Vec<u8>) -> DataSegment {
    DataSegment { base: None, offset, bytes }
}

#[test]
fn two_segments_fill_memory_exactly() {
    let segments = vec![segment(0, vec![1, 2, 3]), segment(10, vec![9, 9])];
    let memory = build_memory(&segments).unwrap();
    assert_eq!(memory, vec![1, 2, 3, 0, 0, 0, 0, 0, 0, 0, 9, 9]);
}

#[test]
fn no_segments_build_empty_memory() {
    let memory = build_memory(&Vec::new()).unwrap();
    assert_eq!(memory, Vec::<u8>::new());
}

#[test]
fn overlapping_segments_are_a_construction_error() {
    let segments = vec![segment(0, vec![1, 2, 3]), segment(2, vec![4, 5])];
    let err = build_memory(&segments).unwrap_err();
    assert_eq!(err, LoadError::DataSegmentOverlap);
}

#[test]
fn segment_past_addressable_memory_is_a_construction_error() {
    let segments = vec![segment(usize::MAX, vec![1, 2])];
    let err = build_memory(&segments).unwrap_err();
    assert_eq!(err, LoadError::DataSegmentTooLarge);
}

#[test]
fn parse_source_accepts_a_module() {
    let binary = parse_source("(module)").unwrap();
    // The binary encoding of a module starts with the format magic.
    assert_eq!(&binary[..4], b"\0asm");
}

#[test]
fn parse_source_rejects_malformed_text() {
    let err = parse_source("(not a module").unwrap_err();
    assert_eq!(err, LoadError::MalformedSource);
}

#[test]
fn declarations_list_imports_before_defined_functions() {
    let defs = ModuleDefs {
        globals: Vec::new(),
        // Two imports (signatures 0 and 1), then two defined functions.
        functions: vec![0, 1, 0, 1],
        signatures: vec![
            Signature { params: vec![], results: vec![] },
            Signature { params: vec![WasmType::I32], results: vec![] },
        ],
    };
    let declarations = declaration_sequence(&defs, 2);
    assert_eq!(declarations.len(), 4);
    assert_eq!(declarations[0].linkage, SymbolLinkage::Import);
    assert_eq!(declarations[0].import, Some(0));
    assert_eq!(declarations[0].body, None);
    assert_eq!(declarations[1].linkage, SymbolLinkage::Import);
    assert_eq!(declarations[1].import, Some(1));
    assert_eq!(declarations[2].linkage, SymbolLinkage::Export);
    assert_eq!(declarations[2].import, None);
    assert_eq!(declarations[2].body, Some(0));
    assert_eq!(declarations[3].linkage, SymbolLinkage::Export);
    assert_eq!(declarations[3].body, Some(1));
    assert_eq!(declarations[3].sig_index, 1);
}

struct NoEnv;

impl Environment for NoEnv {
    fn import_function(&mut self, _module: &str, _name: &str) -> Option<Function> {
        None
    }

    fn import_global(&mut self, _module: &str, _name: &str) -> Option<GlobalValue> {
        None
    }
}

struct OneImportEnv;

impl Environment for OneImportEnv {
    fn import_function(&mut self, module: &str, name: &str) -> Option<Function> {
        if module == "host" && name == "beep" {
            Some(Function {
                signature: Signature { params: vec![], results: vec![] },
                pointer: 0xbeef,
            })
        } else {
            None
        }
    }

    fn import_global(&mut self, _module: &str, _name: &str) -> Option<GlobalValue> {
        None
    }
}

#[test]
fn linked_table_lists_imports_before_defined_functions() {
    // Declare one import and one defined function through the builder,
    // then link with one compiled entry point.
    let mut builder = ModuleEnv::new(OneImportEnv);
    builder.declare_signature(Signature { params: vec![], results: vec![] });
    let answer = builder.env.import_function("host", "beep");
    builder.declare_func_import(0, "host", "beep", answer).unwrap();
    builder.declare_func_type(0);
    let ModuleEnv { module: defs, imported_functions, .. } = builder;
    let entry_points = vec![0xc0de];
    let ctx: VMContext<(), u8> = link((), &defs, &imported_functions, &entry_points, Vec::new());
    assert_eq!(ctx.functions.len(), 2);
    // Imported function first, from its host pointer, under its
    // declared signature.
    let imported = ctx.function(FuncRef(0)).unwrap();
    assert_eq!(imported.pointer, 0xbeef);
    assert!(imported.signature.params.is_empty());
    assert!(imported.signature.results.is_empty());
    // Defined function after every import, from its compiled entry
    // point.
    let defined = ctx.function(FuncRef(1)).unwrap();
    assert_eq!(defined.pointer, 0xc0de);
    // Out-of-range references resolve to nothing.
    assert!(ctx.function(FuncRef(2)).is_none());
}

#[test]
fn linked_context_carries_memory_and_environment() {
    let defs = ModuleDefs { globals: Vec::new(), functions: Vec::new(), signatures: Vec::new() };
    let ctx: VMContext<u32, u8> = link(7, &defs, &Vec::new(), &Vec::new(), vec![1, 2]);
    assert_eq!(ctx.environment, 7);
    assert_eq!(ctx.memory.size(), 2);
    assert_eq!(ctx.externs.slot_count(), 0);
}

#[test]
fn call_arguments_get_the_context_first() {
    // A two-argument call carries three native arguments: the context,
    // then the call's own arguments in order.
    let args = vec![11u64, 22u64];
    let lowered = with_context_argument(99u64, &args);
    assert_eq!(lowered, vec![99, 11, 22]);
}

#[test]
fn native_signature_prepends_the_context_pointer() {
    // A two-parameter imported function is called with three native
    // arguments: the context pointer and the two parameters.
    let signature = Signature { params: vec![WasmType::I32, WasmType::I64], results: vec![] };
    let native = signature.native();
    assert_eq!(native.params.len(), 3);
    assert_eq!(native.params[0], NativeType::Pointer);
    assert_eq!(native.params[1], NativeType::Int32);
    assert_eq!(native.params[2], NativeType::Int64);
    assert_eq!(native.results.len(), 0);
}

#[test]
fn opaque_references_lower_to_integers() {
    assert_eq!(lower_ref_func(3), FuncRef(3));
    let globals = vec![GlobalValue::Const(42)];
    assert_eq!(lower_global_get(&globals, 0), 42u64);
}

#[test]
fn extern_ref_bits_roundtrip() {
    let r = ExternRef { index: 42, generation: 7 };
    let bits = r.to_bits();
    assert_eq!(bits, (7u64 << 32) | 42);
    assert_eq!(ExternRef::from_bits(bits), r);
    assert_eq!(ExternRef::from_const(42).to_bits(), 42u64);
}

#[test]
fn start_index_survives_the_declarative_pass() {
    // A start function declared by the module is what the driver runs
    // once, through the context-threading convention, before handing
    // the context back.
    let mut builder = ModuleEnv::new(NoEnv);
    builder.declare_signature(Signature { params: vec![], results: vec![] });
    builder.declare_func_type(0);
    builder.declare_start_func(0);
    assert_eq!(builder.start_func, Some(0));
    // The sole argument of the start call is the context itself.
    let start_args = with_context_argument(0xabcdusize, &Vec::new());
    assert_eq!(start_args, vec![0xabcd]);
}
