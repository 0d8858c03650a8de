//! Value types, signatures and handle types of the engine.

use vstd::prelude::*;

verus! {

/// A WebAssembly value type, as it appears in a function signature or a
/// global declaration.
#[derive(Clone, Copy, Debug, PartialEq, Eq, Structural)]
pub enum WasmType {
    I32,
    I64,
    F32,
    F64,
    V128,
    FuncRef,
    ExternRef,
}

/// A native machine-level value type, as it appears in the calling
/// convention of compiled code.
#[derive(Clone, Copy, Debug, PartialEq, Eq, Structural)]
pub enum NativeType {
    /// A pointer-sized integer; the execution-context argument has this type.
    Pointer,
    Int32,
    Int64,
    Float32,
    Float64,
    Vector128,
}

/// The native type that a WebAssembly value type is lowered to.
///
/// Opaque references are carried as plain integers: an extern reference is
/// a 64-bit packed slot-and-generation handle, a function reference is the
/// 32-bit index of the function in the context's function table.
pub open spec fn native_of(t: WasmType) -> NativeType {
    match t {
        WasmType::I32 => NativeType::Int32,
        WasmType::I64 => NativeType::Int64,
        WasmType::F32 => NativeType::Float32,
        WasmType::F64 => NativeType::Float64,
        WasmType::V128 => NativeType::Vector128,
        WasmType::FuncRef => NativeType::Int32,
        WasmType::ExternRef => NativeType::Int64,
    }
}

/// A handle to a function in an execution context's function table; the
/// engine represents function references as plain table indices.
#[derive(Clone, Copy, Debug, PartialEq, Eq, Structural)]
pub struct FuncRef(pub u32);

/// A generation-tagged handle to a slot of the externs arena.
///
/// The handle is valid only while the slot's generation matches; a stale
/// handle is detectable instead of silently aliasing whatever value later
/// occupies the slot.
#[derive(Clone, Copy, Debug, PartialEq, Eq, Structural)]
pub struct ExternRef {
    /// Index of the arena slot.
    pub index: u32,
    /// Generation of the slot at the time the handle was minted.
    pub generation: u32,
}

impl ExternRef {
    /// The fixed-width integer carrying this handle across the native
    /// boundary: the slot index in the low 32 bits, the generation in the
    /// high 32 bits.
    pub open spec fn spec_bits(self) -> u64 {
        ((self.generation as u64) << 32) | (self.index as u64)
    }

    /// The handle encoded by a fixed-width integer.
    pub open spec fn spec_from_bits(bits: u64) -> ExternRef {
        ExternRef { index: (bits & 0xffff_ffff) as u32, generation: (bits >> 32) as u32 }
    }

    /// Packs the handle into the fixed-width integer used at the native
    /// boundary.
    pub fn to_bits(self) -> (r: u64)
        ensures
            r == self.spec_bits(),
    {
        ((self.generation as u64) << 32) | (self.index as u64)
    }

    /// Recovers a handle from its fixed-width encoding.
    pub fn from_bits(bits: u64) -> (r: ExternRef)
        ensures
            r == ExternRef::spec_from_bits(bits),
    {
        ExternRef { index: (bits & 0xffff_ffff) as u32, generation: (bits >> 32) as u32 }
    }

    /// A constant opaque-reference global is lowered to the handle with
    /// the constant as slot index at generation zero.
    pub fn from_const(value: u32) -> (r: ExternRef)
        ensures
            r.index == value,
            r.generation == 0,
            r.spec_bits() == value as u64,
    {
        proof {
            assert(((0u64 << 32) | (value as u64)) == value as u64) by (bit_vector);
        }
        ExternRef { index: value, generation: 0 }
    }
}

/// Packing a handle and decoding the result yields the handle back:
/// the encoding loses nothing.
pub proof fn lemma_extern_ref_bits_roundtrip(r: ExternRef)
    ensures
        ExternRef::spec_from_bits(r.spec_bits()) == r,
{
    let i = r.index;
    let g = r.generation;
    assert(((((g as u64) << 32) | (i as u64)) & 0xffff_ffff) as u32 == i) by (bit_vector);
    assert(((((g as u64) << 32) | (i as u64)) >> 32) as u32 == g) by (bit_vector);
}

/// A function's type: its WebAssembly signature.
#[derive(Debug)]
pub struct Signature {
    pub params: Vec<WasmType>,
    pub results: Vec<WasmType>,
}

/// Structural compatibility of two signatures: the same parameter list
/// and the same result list.
pub open spec fn sig_eq(a: Signature, b: Signature) -> bool {
    a.params@ == b.params@ && a.results@ == b.results@
}

fn types_eq(a: &Vec<WasmType>, b: &Vec<WasmType>) -> (r: bool)
    ensures
        r <==> a@ =~= b@,
{
    if a.len() != b.len() {
        return false;
    }
    let n = a.len();
    let mut i: usize = 0;
    while i < n
        invariant
            n == a@.len(),
            n == b@.len(),
            0 <= i <= n,
            forall|j: int| 0 <= j < i ==> a@[j] == b@[j],
        decreases n - i,
    {
        if a[i] != b[i] {
            return false;
        }
        i += 1;
    }
    true
}

fn copy_types(v: &Vec<WasmType>) -> (r: Vec<WasmType>)
    ensures
        r@ =~= v@,
{
    let mut out: Vec<WasmType> = Vec::new();
    let n = v.len();
    let mut i: usize = 0;
    while i < n
        invariant
            n == v@.len(),
            0 <= i <= n,
            out@ =~= v@.take(i as int),
        decreases n - i,
    {
        out.push(v[i]);
        assert(out@ =~= v@.take(i + 1 as int));
        i += 1;
    }
    assert(v@.take(n as int) =~= v@);
    out
}

impl Signature {
    /// Whether a host-provided signature is structurally compatible with a
    /// requested import type.
    pub fn compatible(&self, other: &Signature) -> (r: bool)
        ensures
            r <==> sig_eq(*self, *other),
    {
        let p = types_eq(&self.params, &other.params);
        let q = types_eq(&self.results, &other.results);
        p && q
    }

    /// An equal copy of the signature.
    pub fn duplicate(&self) -> (r: Signature)
        ensures
            sig_eq(r, *self),
    {
        Signature { params: copy_types(&self.params), results: copy_types(&self.results) }
    }

    /// The native calling-convention descriptor of the signature: the
    /// implicit execution-context pointer first, then each parameter
    /// lowered to its native type.
    pub fn native(&self) -> (r: NativeSignature)
        ensures
            r.params@.len() == 1 + self.params@.len(),
            r.params@[0] == NativeType::Pointer,
            forall|i: int| 0 <= i < self.params@.len() ==> r.params@[i + 1] == native_of(
                self.params@[i],
            ),
            r.results@.len() == self.results@.len(),
            forall|i: int| 0 <= i < self.results@.len() ==> r.results@[i] == native_of(
                self.results@[i],
            ),
    {
        let mut params: Vec<NativeType> = Vec::new();
        params.push(NativeType::Pointer);
        let n = self.params.len();
        let mut i: usize = 0;
        while i < n
            invariant
                n == self.params@.len(),
                0 <= i <= n,
                params@.len() == 1 + i,
                params@[0] == NativeType::Pointer,
                forall|j: int| 0 <= j < i ==> params@[j + 1] == native_of(self.params@[j]),
            decreases n - i,
        {
            params.push(lower_type(self.params[i]));
            i += 1;
        }
        let mut results: Vec<NativeType> = Vec::new();
        let m = self.results.len();
        let mut k: usize = 0;
        while k < m
            invariant
                m == self.results@.len(),
                0 <= k <= m,
                results@.len() == k,
                forall|j: int| 0 <= j < k ==> results@[j] == native_of(self.results@[j]),
            decreases m - k,
        {
            results.push(lower_type(self.results[k]));
            k += 1;
        }
        NativeSignature { params, results }
    }
}

fn lower_type(t: WasmType) -> (r: NativeType)
    ensures
        r == native_of(t),
{
    match t {
        WasmType::I32 => NativeType::Int32,
        WasmType::I64 => NativeType::Int64,
        WasmType::F32 => NativeType::Float32,
        WasmType::F64 => NativeType::Float64,
        WasmType::V128 => NativeType::Vector128,
        WasmType::FuncRef => NativeType::Int32,
        WasmType::ExternRef => NativeType::Int64,
    }
}

/// The native calling-convention shape of a compiled or imported function.
#[derive(Debug)]
pub struct NativeSignature {
    pub params: Vec<NativeType>,
    pub results: Vec<NativeType>,
}

/// A resolved callable: its WebAssembly signature and the address of its
/// native entry point.
#[derive(Debug)]
pub struct Function {
    pub signature: Signature,
    /// Address of the native code, as a plain integer.
    pub pointer: usize,
}

/// A module-level constant global value.  Only constant opaque-reference
/// globals are supported, carried as a plain 32-bit constant.
#[derive(Clone, Copy, Debug, PartialEq, Eq, Structural)]
pub enum GlobalValue {
    Const(u32),
}

/// The declared shape of a global import request: its value type and
/// whether the module expects it to be mutable.
#[derive(Clone, Copy, Debug, PartialEq, Eq, Structural)]
pub struct GlobalDescriptor {
    pub ty: WasmType,
    pub mutable: bool,
}

} // verus!
