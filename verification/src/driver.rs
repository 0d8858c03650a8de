//! The load/link driver: parse, declare, compile, link, initialize
//! memory, construct the context.
//!
//! The backend code generator itself is an outside collaborator; the
//! driver's own decisions are here.  [`parse_source`] turns source
//! text into the binary module fed to the declarative pass of
//! [`crate::builder::ModuleEnv`]; [`declaration_sequence`] fixes the
//! order and linkage under which every function is declared to the
//! code generator; [`build_memory`] assembles the initial linear
//! memory from the declared data segments; [`link`] constructs the
//! execution context over the resolved imports and the compiled entry
//! points.

use vstd::prelude::*;

use crate::builder::{DataSegment, ImportedFunction, ModuleDefs};
use crate::context::VMContext;
use crate::error::LoadError;
use crate::externs::{ExternSlot, Externs};
use crate::memory::Memory;
use crate::types::{sig_eq, Function};

verus! {

/// The binary module a piece of source text encodes, if it is
/// well-formed.
pub uninterp spec fn wat_binary(source: Seq<char>) -> Option<Seq<u8>>;

/// Relies on wat::parse_str: translates the textual module format into
/// its binary encoding; the result is a function of the source text
/// alone, and parsing fails exactly on text that encodes no module.
#[verifier::external_body]
fn parse_wat(source: &str) -> (r: Result<Vec<u8>, LoadError>)
    ensures
        match r {
            Ok(b) => wat_binary(source@) == Some(b@),
            Err(e) => e == LoadError::MalformedSource && wat_binary(source@) is None,
        },
{
    match wat::parse_str(source) {
        Ok(bytes) => Ok(bytes),
        Err(_) => Err(LoadError::MalformedSource),
    }
}

/// Parses module source text into the binary module that the
/// declarative pass consumes.  Fails with the malformed-source error
/// exactly when the text encodes no module.
pub fn parse_source(source: &str) -> (r: Result<Vec<u8>, LoadError>)
    ensures
        match r {
            Ok(b) => wat_binary(source@) == Some(b@),
            Err(e) => e == LoadError::MalformedSource && wat_binary(source@) is None,
        },
{
    parse_wat(source)
}

/// Linkage under which a function is declared to the code generator.
#[derive(Clone, Copy, Debug, PartialEq, Eq, Structural)]
pub enum SymbolLinkage {
    /// The function is resolved by the linker against a registered
    /// host symbol.
    Import,
    /// The function's body is compiled and exported under a
    /// placeholder name.
    Export,
}

/// One entry of the declaration plan: how function index `i` is
/// declared to the code generator.
#[derive(Clone, Copy, Debug)]
pub struct FuncDeclaration {
    pub linkage: SymbolLinkage,
    /// Index into the resolved imports, for an imported function.
    pub import: Option<usize>,
    /// Index into the defined function bodies, for a defined function.
    pub body: Option<usize>,
    /// Index of the function's signature.
    pub sig_index: usize,
}

/// The order and linkage under which the driver declares every
/// function to the code generator: imported functions first, in
/// declaration order, then defined functions, in declaration order —
/// so the linker maps each name to the right symbol.
pub fn declaration_sequence(defs: &ModuleDefs, imported_count: usize) -> (r: Vec<FuncDeclaration>)
    requires
        imported_count <= defs.functions@.len(),
    ensures
        r@.len() == defs.functions@.len(),
        forall|i: int|
            0 <= i < imported_count ==> {
                &&& (#[trigger] r@[i]).linkage == SymbolLinkage::Import
                &&& r@[i].import == Some(i as usize)
                &&& r@[i].body is None
                &&& r@[i].sig_index == defs.functions@[i]
            },
        forall|i: int|
            imported_count <= i < defs.functions@.len() ==> {
                &&& (#[trigger] r@[i]).linkage == SymbolLinkage::Export
                &&& r@[i].import is None
                &&& r@[i].body == Some((i - imported_count) as usize)
                &&& r@[i].sig_index == defs.functions@[i]
            },
{
    let n = defs.functions.len();
    let mut out: Vec<FuncDeclaration> = Vec::new();
    let mut i: usize = 0;
    while i < n
        invariant
            n == defs.functions@.len(),
            imported_count <= n,
            0 <= i <= n,
            out@.len() == i,
            forall|j: int|
                0 <= j < i && j < imported_count ==> {
                    &&& (#[trigger] out@[j]).linkage == SymbolLinkage::Import
                    &&& out@[j].import == Some(j as usize)
                    &&& out@[j].body is None
                    &&& out@[j].sig_index == defs.functions@[j]
                },
            forall|j: int|
                imported_count <= j < i ==> {
                    &&& (#[trigger] out@[j]).linkage == SymbolLinkage::Export
                    &&& out@[j].import is None
                    &&& out@[j].body == Some((j - imported_count) as usize)
                    &&& out@[j].sig_index == defs.functions@[j]
                },
        decreases n - i,
    {
        let sig_index = defs.functions[i];
        if i < imported_count {
            out.push(
                FuncDeclaration {
                    linkage: SymbolLinkage::Import,
                    import: Some(i),
                    body: None,
                    sig_index,
                },
            );
        } else {
            out.push(
                FuncDeclaration {
                    linkage: SymbolLinkage::Export,
                    import: None,
                    body: Some(i - imported_count),
                    sig_index,
                },
            );
        }
        i += 1;
    }
    out
}

/// The byte index one past a segment's last byte.
pub open spec fn segment_end(s: DataSegment) -> int {
    s.offset + s.bytes@.len()
}

/// Whether a segment covers byte index `i` of linear memory.
pub open spec fn covers(s: DataSegment, i: int) -> bool {
    s.offset <= i < segment_end(s)
}

/// Whether two segments cover no common byte.
pub open spec fn pair_disjoint(s: DataSegment, t: DataSegment) -> bool {
    segment_end(s) <= t.offset || segment_end(t) <= s.offset
}

/// Whether some segment among the first `k` covers byte index `i`.
pub open spec fn covered_before(segments: Seq<DataSegment>, k: int, i: int) -> bool {
    exists|s: int| 0 <= s < k && covers(segments[s], i)
}

/// Whether some segment covers byte index `i`.
pub open spec fn covered(segments: Seq<DataSegment>, i: int) -> bool {
    covered_before(segments, segments.len() as int, i)
}

/// The size of the linear memory: exactly large enough to contain
/// every declared data segment.
pub open spec fn memory_extent(segments: Seq<DataSegment>) -> int
    decreases segments.len(),
{
    if segments.len() == 0 {
        0
    } else {
        let rest = memory_extent(segments.drop_last());
        let e = segment_end(segments.last());
        if e > rest {
            e
        } else {
            rest
        }
    }
}

/// No two segments cover a common byte.
pub open spec fn segments_disjoint(segments: Seq<DataSegment>) -> bool {
    forall|a: int, b: int|
        0 <= a < b < segments.len() ==> pair_disjoint(segments[a], segments[b])
}

/// Every segment's end is an addressable offset.
pub open spec fn segments_fit(segments: Seq<DataSegment>) -> bool {
    forall|k: int| 0 <= k < segments.len() ==> segment_end(segments[k]) <= usize::MAX
}

proof fn lemma_extent_covers(segments: Seq<DataSegment>, k: int)
    requires
        0 <= k < segments.len(),
    ensures
        segment_end(segments[k]) <= memory_extent(segments),
    decreases segments.len(),
{
    if k < segments.len() - 1 {
        lemma_extent_covers(segments.drop_last(), k);
    }
}

fn compute_extent(segments: &Vec<DataSegment>) -> (r: Result<usize, LoadError>)
    ensures
        match r {
            Ok(n) => segments_fit(segments@) && n == memory_extent(segments@),
            Err(e) => e == LoadError::DataSegmentTooLarge && !segments_fit(segments@),
        },
{
    let n = segments.len();
    let mut max: usize = 0;
    let mut k: usize = 0;
    while k < n
        invariant
            n == segments@.len(),
            0 <= k <= n,
            forall|j: int| 0 <= j < k ==> segment_end(segments@[j]) <= usize::MAX,
            max == memory_extent(segments@.take(k as int)),
        decreases n - k,
    {
        let seg = &segments[k];
        match seg.offset.checked_add(seg.bytes.len()) {
            Some(end) => {
                if end > max {
                    max = end;
                }
            },
            None => {
                return Err(LoadError::DataSegmentTooLarge);
            },
        }
        proof {
            assert(segments@.take(k + 1 as int).drop_last() =~= segments@.take(k as int));
            assert(segments@.take(k + 1 as int).last() == segments@[k as int]);
        }
        k += 1;
    }
    proof {
        assert(segments@.take(n as int) =~= segments@);
    }
    Ok(max)
}

fn check_disjoint(segments: &Vec<DataSegment>) -> (r: bool)
    requires
        segments_fit(segments@),
    ensures
        r == segments_disjoint(segments@),
{
    let n = segments.len();
    let mut a: usize = 0;
    while a < n
        invariant
            n == segments@.len(),
            segments_fit(segments@),
            0 <= a <= n,
            forall|x: int, y: int|
                0 <= x < y < n && x < a ==> pair_disjoint(segments@[x], segments@[y]),
        decreases n - a,
    {
        let mut b: usize = a + 1;
        while b < n
            invariant
                n == segments@.len(),
                segments_fit(segments@),
                0 <= a < b,
                a + 1 <= b <= n,
                forall|x: int, y: int|
                    0 <= x < y < n && x < a ==> pair_disjoint(segments@[x], segments@[y]),
                forall|y: int| a < y < b ==> pair_disjoint(segments@[a as int], segments@[y]),
            decreases n - b,
        {
            let s = &segments[a];
            let t = &segments[b];
            proof {
                assert(segment_end(segments@[a as int]) <= usize::MAX);
                assert(segment_end(segments@[b as int]) <= usize::MAX);
            }
            let s_end = s.offset + s.bytes.len();
            let t_end = t.offset + t.bytes.len();
            if !(s_end <= t.offset || t_end <= s.offset) {
                assert(!pair_disjoint(segments@[a as int], segments@[b as int]));
                return false;
            }
            b += 1;
        }
        a += 1;
    }
    true
}

fn zero_memory(n: usize) -> (m: Vec<u8>)
    ensures
        m@.len() == n,
        forall|i: int| 0 <= i < n ==> m@[i] == 0,
{
    let mut m: Vec<u8> = Vec::new();
    let mut i: usize = 0;
    while i < n
        invariant
            0 <= i <= n,
            m@.len() == i,
            forall|j: int| 0 <= j < i ==> m@[j] == 0,
        decreases n - i,
    {
        m.push(0);
        i += 1;
    }
    m
}

/// Builds the initial linear memory: a zero-filled buffer exactly
/// large enough to contain every data segment, with each segment's
/// bytes copied at its declared offset.  Overlapping segments, or a
/// segment reaching past the largest addressable offset, are a
/// construction error.
pub fn build_memory(segments: &Vec<DataSegment>) -> (r: Result<Vec<u8>, LoadError>)
    ensures
        r is Ok <==> segments_fit(segments@) && segments_disjoint(segments@),
        match r {
            Ok(m) => {
                &&& m@.len() == memory_extent(segments@)
                &&& forall|k: int, i: int|
                    0 <= k < segments@.len() && covers(segments@[k], i) ==> m@[i]
                        == segments@[k].bytes@[i - segments@[k].offset]
                &&& forall|i: int| 0 <= i < m@.len() && !covered(segments@, i) ==> m@[i] == 0
            },
            Err(e) => {
                &&& (e == LoadError::DataSegmentTooLarge <==> !segments_fit(segments@))
                &&& e == LoadError::DataSegmentOverlap ==> !segments_disjoint(segments@)
                &&& (e == LoadError::DataSegmentTooLarge || e == LoadError::DataSegmentOverlap)
            },
        },
{
    let extent = match compute_extent(segments) {
        Ok(extent) => extent,
        Err(e) => {
            return Err(e);
        },
    };
    if !check_disjoint(segments) {
        return Err(LoadError::DataSegmentOverlap);
    }
    let nsegs = segments.len();
    let mut m = zero_memory(extent);
    proof {
        assert forall|s: int| 0 <= s < nsegs implies segment_end(segments@[s]) <= extent by {
            lemma_extent_covers(segments@, s);
        }
    }
    let mut k: usize = 0;
    while k < nsegs
        invariant
            nsegs == segments@.len(),
            0 <= k <= nsegs,
            segments_fit(segments@),
            segments_disjoint(segments@),
            extent == memory_extent(segments@),
            m@.len() == extent,
            forall|s: int| 0 <= s < nsegs ==> segment_end(segments@[s]) <= extent,
            forall|s: int, i: int|
                0 <= s < k && covers(segments@[s], i) ==> m@[i] == segments@[s].bytes@[i
                    - segments@[s].offset],
            forall|i: int| 0 <= i < extent && !covered_before(segments@, k as int, i) ==> m@[i]
                == 0,
        decreases nsegs - k,
    {
        let seg_off = segments[k].offset;
        let seg_len = segments[k].bytes.len();
        let mut j: usize = 0;
        while j < seg_len
            invariant
                nsegs == segments@.len(),
                0 <= k < nsegs,
                0 <= j <= seg_len,
                seg_off == segments@[k as int].offset,
                seg_len == segments@[k as int].bytes@.len(),
                segments_fit(segments@),
                segments_disjoint(segments@),
                extent == memory_extent(segments@),
                m@.len() == extent,
                seg_off + seg_len <= extent,
                forall|s: int| 0 <= s < nsegs ==> segment_end(segments@[s]) <= extent,
                forall|s: int, i: int|
                    0 <= s < k && covers(segments@[s], i) ==> m@[i] == segments@[s].bytes@[i
                        - segments@[s].offset],
                forall|i: int|
                    seg_off <= i < seg_off + j ==> m@[i] == segments@[k as int].bytes@[i
                        - seg_off],
                forall|i: int|
                    0 <= i < extent && !covered_before(segments@, k as int, i) && !(seg_off <= i
                        < seg_off + j) ==> m@[i] == 0,
            decreases seg_len - j,
        {
            let value = segments[k].bytes[j];
            let ghost m_pre = m@;
            let idx = seg_off + j;
            let slot = &mut m[idx];
            *slot = value;
            proof {
                assert(m@ == m_pre.update(idx as int, value));
                assert(covers(segments@[k as int], idx as int));
                assert forall|s: int, i: int|
                    0 <= s < k && covers(segments@[s], i) implies m@[i] == segments@[s].bytes@[i
                    - segments@[s].offset] by {
                    if i == idx as int {
                        assert(pair_disjoint(segments@[s], segments@[k as int]));
                        assert(false);
                    } else {
                        assert(m_pre.update(idx as int, value)[i] == m_pre[i]);
                        assert(m@[i] == m_pre[i]);
                    }
                }
                assert forall|i: int|
                    seg_off <= i < seg_off + (j + 1) implies m@[i] == segments@[k as int].bytes@[
                    i - seg_off] by {
                    if i != idx as int {
                        assert(m_pre.update(idx as int, value)[i] == m_pre[i]);
                        assert(m@[i] == m_pre[i]);
                    }
                }
                assert forall|i: int|
                    0 <= i < extent && !covered_before(segments@, k as int, i) && !(seg_off <= i
                        < seg_off + (j + 1)) implies m@[i] == 0 by {
                    assert(m_pre.update(idx as int, value)[i] == m_pre[i]);
                    assert(m@[i] == m_pre[i]);
                }
            }
            j += 1;
        }
        proof {
            assert forall|s: int, i: int|
                0 <= s < k + 1 && covers(segments@[s], i) implies m@[i] == segments@[s].bytes@[i
                - segments@[s].offset] by {
                if s == k {
                    assert(seg_off <= i < seg_off + seg_len);
                }
            }
            assert forall|i: int|
                0 <= i < extent && !covered_before(segments@, k + 1 as int, i) implies m@[i]
                == 0 by {
                assert(!covers(segments@[k as int], i)) by {
                    if covers(segments@[k as int], i) {
                        assert(covered_before(segments@, k + 1 as int, i));
                    }
                }
                assert(!covered_before(segments@, k as int, i)) by {
                    if covered_before(segments@, k as int, i) {
                        let s = choose|s: int| 0 <= s < k && covers(segments@[s], i);
                        assert(covers(segments@[s], i));
                        assert(covered_before(segments@, k + 1 as int, i));
                    }
                }
            }
        }
        k += 1;
    }
    Ok(m)
}

/// Constructs the execution context: the function table in the
/// invariant order — every imported function first, from its host
/// pointer, then every defined function, from its compiled entry
/// point, each under its declared signature — over the given memory,
/// an empty externs arena and the host environment value.
pub fn link<E, X>(
    environment: E,
    defs: &ModuleDefs,
    imported: &Vec<ImportedFunction>,
    entry_points: &Vec<usize>,
    memory: Vec<u8>,
) -> (ctx: VMContext<E, X>)
    requires
        defs.wf(),
        imported@.len() + entry_points@.len() == defs.functions@.len(),
    ensures
        ctx.functions@.len() == defs.functions@.len(),
        forall|i: int|
            0 <= i < imported@.len() ==> {
                &&& (#[trigger] ctx.functions@[i]) matches Some(f)
                &&& f.pointer == imported@[i].pointer
                &&& sig_eq(f.signature, defs.signatures@[defs.functions@[i] as int])
            },
        forall|i: int|
            imported@.len() <= i < defs.functions@.len() ==> {
                &&& (#[trigger] ctx.functions@[i]) matches Some(f)
                &&& f.pointer == entry_points@[i - imported@.len()]
                &&& sig_eq(f.signature, defs.signatures@[defs.functions@[i] as int])
            },
        ctx.memory@ == memory@,
        ctx.externs@ == Seq::<ExternSlot<X>>::empty(),
        ctx.environment == environment,
{
    let n = defs.functions.len();
    let n_imported = imported.len();
    let mut functions: Vec<Option<Function>> = Vec::new();
    let mut i: usize = 0;
    while i < n
        invariant
            n == defs.functions@.len(),
            n_imported == imported@.len(),
            n_imported + entry_points@.len() == n,
            defs.wf(),
            0 <= i <= n,
            functions@.len() == i,
            forall|j: int|
                0 <= j < i && j < n_imported ==> {
                    &&& (#[trigger] functions@[j]) matches Some(f)
                    &&& f.pointer == imported@[j].pointer
                    &&& sig_eq(f.signature, defs.signatures@[defs.functions@[j] as int])
                },
            forall|j: int|
                n_imported <= j < i ==> {
                    &&& (#[trigger] functions@[j]) matches Some(f)
                    &&& f.pointer == entry_points@[j - n_imported]
                    &&& sig_eq(f.signature, defs.signatures@[defs.functions@[j] as int])
                },
        decreases n - i,
    {
        let sig_index = defs.functions[i];
        let signature = defs.signatures[sig_index].duplicate();
        let pointer = if i < n_imported {
            imported[i].pointer
        } else {
            entry_points[i - n_imported]
        };
        functions.push(Some(Function { signature, pointer }));
        i += 1;
    }
    VMContext { functions, memory: Memory::new(memory), externs: Externs::new(), environment }
}

} // verus!
