//! Generation-tagged arena for passing host objects into guest code.
//!
//! Host-side objects cross into guest code as plain integer handles.
//! Each slot carries a generation counter, incremented every time the
//! slot is reused, and a handle records the generation at which it was
//! minted.  A handle whose generation no longer matches its slot is
//! stale: using it is a detectable fault instead of a silent access to
//! an unrelated value that later occupies the same slot.
//!
//! Lookups come in two forms.  The checked ones — [`Externs::try_get_extern`],
//! [`Externs::try_get_extern_mut`], [`Externs::try_take_extern`] — make
//! the generation comparison at run time and yield nothing exactly for
//! a stale or foreign handle; they are for handles that cross in from
//! unverified code, and a host must treat their refusal as a fatal
//! programming fault.  The unchecked ones demand a live handle of
//! their caller, which verified code proves and unverified code
//! establishes with [`Externs::extern_valid`] first.

use vstd::prelude::*;

use crate::types::ExternRef;

verus! {

/// One arena cell: a generation counter and an optional stored value.
pub struct ExternSlot<X> {
    /// How many times the slot has been reused.
    pub generation: u32,
    /// The stored value, if the slot is currently occupied.
    pub value: Option<X>,
}

/// Arena holding the managed external objects of one execution context.
pub struct Externs<X> {
    slots: Vec<ExternSlot<X>>,
}

impl<X> View for Externs<X> {
    type V = Seq<ExternSlot<X>>;

    closed spec fn view(&self) -> Seq<ExternSlot<X>> {
        self.slots@
    }
}

/// Whether a handle currently designates an occupied slot at its own
/// generation: the one condition under which a lookup may succeed.
pub open spec fn slot_live<X>(slots: Seq<ExternSlot<X>>, r: ExternRef) -> bool {
    &&& r.index < slots.len()
    &&& slots[r.index as int].generation == r.generation
    &&& slots[r.index as int].value is Some
}

/// The value a live handle designates.
pub open spec fn slot_value<X>(slots: Seq<ExternSlot<X>>, r: ExternRef) -> X
    recommends
        slot_live(slots, r),
{
    slots[r.index as int].value->Some_0
}

/// Whether a slot is available for reuse: empty, with a generation that
/// can still be incremented.  A slot whose generation counter is
/// exhausted is retired rather than reused, so that a stale handle can
/// never match a reused slot again.
pub open spec fn slot_free<X>(slot: ExternSlot<X>) -> bool {
    slot.value is None && slot.generation < u32::MAX
}

/// How a create call relates the arena before the call, the stored
/// value, the arena after the call, and the minted handle: the first
/// free slot is reused at an incremented generation, and if no slot is
/// free a new slot is appended at generation zero.
pub open spec fn creation_post<X>(
    pre: Seq<ExternSlot<X>>,
    value: X,
    post: Seq<ExternSlot<X>>,
    r: ExternRef,
) -> bool {
    if exists|i: int| 0 <= i < pre.len() && slot_free(pre[i]) {
        &&& r.index < pre.len()
        &&& slot_free(pre[r.index as int])
        &&& forall|j: int| 0 <= j < r.index ==> !slot_free(pre[j])
        &&& r.generation == pre[r.index as int].generation + 1
        &&& post == pre.update(
            r.index as int,
            ExternSlot { generation: r.generation, value: Some(value) },
        )
    } else {
        &&& r.index == pre.len()
        &&& r.generation == 0
        &&& post == pre.push(ExternSlot { generation: 0, value: Some(value) })
    }
}

/// How a take call relates the arena before and after: the slot keeps
/// its generation but is emptied.
pub open spec fn removal_post<X>(
    pre: Seq<ExternSlot<X>>,
    r: ExternRef,
    post: Seq<ExternSlot<X>>,
) -> bool {
    post == pre.update(r.index as int, ExternSlot { generation: r.generation, value: None })
}

impl<X> Externs<X> {
    /// An arena with no slots.
    pub fn new() -> (r: Externs<X>)
        ensures
            r@ == Seq::<ExternSlot<X>>::empty(),
    {
        Externs { slots: Vec::new() }
    }

    /// How many slots the arena has ever allocated.
    pub fn slot_count(&self) -> (r: usize)
        ensures
            r == self@.len(),
    {
        self.slots.len()
    }

    fn find_free(&self) -> (r: Option<usize>)
        ensures
            match r {
                Some(i) => {
                    &&& i < self@.len()
                    &&& slot_free(self@[i as int])
                    &&& forall|j: int| 0 <= j < i ==> !slot_free(self@[j])
                },
                None => forall|j: int| 0 <= j < self@.len() ==> !slot_free(self@[j]),
            },
    {
        let n = self.slots.len();
        let mut i: usize = 0;
        while i < n
            invariant
                n == self@.len(),
                0 <= i <= n,
                forall|j: int| 0 <= j < i ==> !slot_free(self@[j]),
            decreases n - i,
        {
            let slot = &self.slots[i];
            if slot.value.is_none() && slot.generation < u32::MAX {
                return Some(i);
            }
            i += 1;
        }
        None
    }

    /// Moves `value` into the arena and returns the handle of the slot
    /// that now holds it: the first free slot, revived at an
    /// incremented generation, or a fresh slot appended at generation
    /// zero.
    pub fn create_extern(&mut self, value: X) -> (r: ExternRef)
        requires
            old(self)@.len() <= u32::MAX,
        ensures
            creation_post(old(self)@, value, final(self)@, r),
            slot_live(final(self)@, r),
            slot_value(final(self)@, r) == value,
    {
        match self.find_free() {
            Some(i) => {
                let generation = self.slots[i].generation + 1;
                let slot = &mut self.slots[i];
                *slot = ExternSlot { generation, value: Some(value) };
                ExternRef { index: i as u32, generation }
            },
            None => {
                let index = self.slots.len();
                self.slots.push(ExternSlot { generation: 0, value: Some(value) });
                ExternRef { index: index as u32, generation: 0 }
            },
        }
    }

    /// Whether a handle is currently live: its slot exists, is occupied,
    /// and still carries the handle's generation.
    ///
    /// The generation comparison is the load-bearing safety check of
    /// the arena.  A handle that arrives from unverified code — guest
    /// code above all — must pass through this test, or through one of
    /// the checked lookups below, before any unchecked lookup: a failed
    /// test means the handle is stale or foreign, which is a
    /// programming fault the host must treat as fatal rather than
    /// continue past.
    pub fn extern_valid(&self, index: ExternRef) -> (r: bool)
        ensures
            r == slot_live(self@, index),
    {
        if (index.index as usize) < self.slots.len() {
            let slot = &self.slots[index.index as usize];
            slot.generation == index.generation && slot.value.is_some()
        } else {
            false
        }
    }

    /// The value behind a handle, with the generation comparison made
    /// at run time: a reference to the stored value for a live handle,
    /// and nothing exactly when the handle is stale or foreign.  This
    /// is the lookup for handles that cross in from unverified code; a
    /// caller that receives nothing holds a stale handle and must fail
    /// rather than go on.
    pub fn try_get_extern(&self, index: ExternRef) -> (r: Option<&X>)
        ensures
            match r {
                Some(v) => slot_live(self@, index) && *v == slot_value(self@, index),
                None => !slot_live(self@, index),
            },
    {
        if self.extern_valid(index) {
            Some(self.get_extern(index))
        } else {
            None
        }
    }

    /// Removes and returns the value behind a handle, with the
    /// generation comparison made at run time: the slot is emptied for
    /// a live handle, and nothing happens — the arena is left exactly
    /// as it was — exactly when the handle is stale or foreign.
    pub fn try_take_extern(&mut self, index: ExternRef) -> (r: Option<X>)
        ensures
            match r {
                Some(v) => {
                    &&& slot_live(old(self)@, index)
                    &&& v == slot_value(old(self)@, index)
                    &&& removal_post(old(self)@, index, final(self)@)
                    &&& !slot_live(final(self)@, index)
                },
                None => !slot_live(old(self)@, index) && final(self)@ == old(self)@,
            },
    {
        if self.extern_valid(index) {
            Some(self.take_extern(index))
        } else {
            None
        }
    }

    /// A reference to the value a live handle designates.  The caller
    /// must know the handle is live — having minted it and not taken
    /// it since, or having tested it — as [`Externs::extern_valid`]
    /// and [`Externs::try_get_extern`] do at run time.
    pub fn get_extern(&self, index: ExternRef) -> (r: &X)
        requires
            slot_live(self@, index),
        ensures
            *r == slot_value(self@, index),
    {
        let slot = &self.slots[index.index as usize];
        match &slot.value {
            Some(v) => v,
            None => vstd::pervasive::unreached(),
        }
    }

    /// The value behind a handle for mutation, with the generation
    /// comparison made at run time: a mutable reference for a live
    /// handle, and nothing — the arena untouched — exactly when the
    /// handle is stale or foreign.
    pub fn try_get_extern_mut(&mut self, index: ExternRef) -> (r: Option<&mut X>)
        ensures
            match r {
                Some(v) => {
                    &&& slot_live(old(self)@, index)
                    &&& *v == slot_value(old(self)@, index)
                    &&& final(self)@ == old(self)@.update(
                        index.index as int,
                        ExternSlot { generation: index.generation, value: Some(*final(v)) },
                    )
                },
                None => !slot_live(old(self)@, index) && final(self)@ == old(self)@,
            },
    {
        if self.extern_valid(index) {
            Some(self.get_extern_mut(index))
        } else {
            None
        }
    }

    /// A mutable reference to the value a live handle designates; the
    /// slot keeps its generation and afterwards holds whatever the
    /// caller leaves behind the reference.  The caller must know the
    /// handle is live, as [`Externs::try_get_extern_mut`] tests at run
    /// time.
    pub fn get_extern_mut(&mut self, index: ExternRef) -> (r: &mut X)
        requires
            slot_live(old(self)@, index),
        ensures
            *r == slot_value(old(self)@, index),
            final(self)@ == old(self)@.update(
                index.index as int,
                ExternSlot { generation: index.generation, value: Some(*final(r)) },
            ),
    {
        let slot = &mut self.slots[index.index as usize];
        match &mut slot.value {
            Some(v) => v,
            None => vstd::pervasive::unreached(),
        }
    }

    /// Removes and returns the value a live handle designates, leaving
    /// the slot empty and the handle stale.  The caller must know the
    /// handle is live, as [`Externs::try_take_extern`] tests at run
    /// time.
    pub fn take_extern(&mut self, index: ExternRef) -> (r: X)
        requires
            slot_live(old(self)@, index),
        ensures
            r == slot_value(old(self)@, index),
            removal_post(old(self)@, index, final(self)@),
            !slot_live(final(self)@, index),
    {
        let slot = &mut self.slots[index.index as usize];
        let taken = slot.value.take();
        match taken {
            Some(v) => v,
            None => vstd::pervasive::unreached(),
        }
    }
}

impl<X> Default for Externs<X> {
    /// An arena with no slots.
    fn default() -> (r: Externs<X>)
        ensures
            r@ == Seq::<ExternSlot<X>>::empty(),
    {
        Externs::new()
    }
}

/// Handle safety: after a value is taken through a handle, that handle
/// is stale — no lookup under it can succeed again, not even after the
/// freed slot is reused — and a later create that does reuse the slot
/// mints a handle with a different generation.
pub proof fn lemma_handle_safety<X>(
    pre: Seq<ExternSlot<X>>,
    h: ExternRef,
    taken: Seq<ExternSlot<X>>,
    value: X,
    created: Seq<ExternSlot<X>>,
    fresh: ExternRef,
)
    requires
        slot_live(pre, h),
        removal_post(pre, h, taken),
        creation_post(taken, value, created, fresh),
    ensures
        !slot_live(taken, h),
        !slot_live(created, h),
        slot_live(created, fresh),
        fresh.index == h.index ==> fresh.generation != h.generation,
{
    assert(taken[h.index as int].value is None);
    if exists|i: int| 0 <= i < taken.len() && slot_free(taken[i]) {
        if fresh.index == h.index {
            assert(fresh.generation == taken[h.index as int].generation + 1);
        } else {
            assert(created[h.index as int] == taken[h.index as int]);
        }
    } else {
        assert(fresh.index == taken.len());
        assert(h.index < taken.len());
        assert(created[h.index as int] == taken[h.index as int]);
    }
}

} // verus!
