//! The resource slots a compute program expects, and the buffers supplied for
//! them.
//!
//! A `BindingLayout` declares the slots. A `BindingSet` supplies one buffer
//! range for each declared slot and for no other; it can only be built
//! through `BindingSet::bind`, which refuses anything else.
use vstd::prelude::*;
use crate::buffer::{BufferRole, Usage};
use crate::error::TaskError;

verus! {

/// How the program accesses a storage buffer.
#[derive(Clone, Copy, Debug, PartialEq, Eq, Structural)]
pub enum Access {
    ReadOnly,
    ReadWrite,
}

/// The program stages that can see a slot.
#[derive(Clone, Copy, Debug, PartialEq, Eq, Structural)]
pub struct Visibility {
    pub vertex: bool,
    pub fragment: bool,
    pub compute: bool,
}

/// One declared slot: a storage buffer with the given access.
#[derive(Clone, Copy, Debug, PartialEq, Eq, Structural)]
pub struct SlotLayout {
    pub slot: u32,
    pub access: Access,
    pub visibility: Visibility,
}

/// The extent of a buffer that a slot is bound to.
#[derive(Clone, Copy, Debug, PartialEq, Eq, Structural)]
pub enum Extent {
    /// From `offset` to the end of the buffer.
    ToEnd,
    /// Exactly this many bytes from `offset`.
    Bytes(u64),
}

/// One supplied resource: a range of a buffer for a slot.
#[derive(Clone, Copy, Debug, PartialEq, Eq, Structural)]
pub struct BindingEntry {
    pub slot: u32,
    pub buffer: BufferRole,
    pub offset: u64,
    pub extent: Extent,
}

/// The declared slots of a program. No slot is declared twice.
#[derive(Debug)]
pub struct BindingLayout {
    slots: Vec<SlotLayout>,
}

/// Buffers supplied for the slots of a layout: exactly one for each declared
/// slot, none for any other, each usable as a storage binding.
#[derive(Debug)]
pub struct BindingSet {
    layout: BindingLayout,
    entries: Vec<BindingEntry>,
}

/// The slot numbers that a layout declares, in order.
pub open spec fn declared_slots(layout: Seq<SlotLayout>) -> Seq<u32> {
    Seq::new(layout.len(), |i: int| layout[i].slot)
}

/// The slot numbers that entries supply, in order.
pub open spec fn supplied_slots(entries: Seq<BindingEntry>) -> Seq<u32> {
    Seq::new(entries.len(), |i: int| entries[i].slot)
}

/// Every number in `wanted` occurs in `given`.
pub open spec fn covered_by(wanted: Seq<u32>, given: Seq<u32>) -> bool {
    forall|i: int| 0 <= i < wanted.len() ==> given.contains(#[trigger] wanted[i])
}

/// Some slot that the layout declares has no entry.
pub open spec fn omits_slot(layout: Seq<SlotLayout>, entries: Seq<BindingEntry>) -> bool {
    exists|i: int|
        0 <= i < layout.len() && !supplied_slots(entries).contains(#[trigger] layout[i].slot)
}

/// The entries supply the layout: no declared slot is left out, no other slot
/// is supplied, none is supplied twice, and every buffer may be bound as
/// storage.
pub open spec fn satisfies(layout: Seq<SlotLayout>, entries: Seq<BindingEntry>) -> bool {
    &&& covered_by(declared_slots(layout), supplied_slots(entries))
    &&& covered_by(supplied_slots(entries), declared_slots(layout))
    &&& supplied_slots(entries).no_duplicates()
    &&& forall|j: int|
        0 <= j < entries.len() ==> Usage::of_role((#[trigger] entries[j]).buffer).storage
}

/// Whether `slot` occurs in `slots`.
fn has_slot(slots: &Vec<u32>, slot: u32) -> (found: bool)
    ensures
        found == slots@.contains(slot),
{
    let mut i: usize = 0;
    while i < slots.len()
        invariant
            i <= slots.len(),
            forall|k: int| 0 <= k < i ==> slots@[k] != slot,
        decreases slots.len() - i,
    {
        if slots[i] == slot {
            return true;
        }
        i += 1;
    }
    false
}

/// Whether every number in `wanted` occurs in `given`.
fn all_covered(wanted: &Vec<u32>, given: &Vec<u32>) -> (ok: bool)
    ensures
        ok == covered_by(wanted@, given@),
{
    let mut i: usize = 0;
    while i < wanted.len()
        invariant
            i <= wanted.len(),
            forall|k: int| 0 <= k < i ==> given@.contains(#[trigger] wanted@[k]),
        decreases wanted.len() - i,
    {
        if !has_slot(given, wanted[i]) {
            return false;
        }
        i += 1;
    }
    true
}

/// Whether no number occurs twice in `slots`.
fn all_distinct(slots: &Vec<u32>) -> (ok: bool)
    ensures
        ok == slots@.no_duplicates(),
{
    let mut i: usize = 0;
    while i < slots.len()
        invariant
            i <= slots.len(),
            forall|a: int, b: int| 0 <= a < b < i ==> slots@[a] != slots@[b],
        decreases slots.len() - i,
    {
        let mut j: usize = 0;
        while j < i
            invariant
                j <= i,
                i < slots.len(),
                forall|a: int| 0 <= a < j ==> slots@[a] != slots@[i as int],
            decreases i - j,
        {
            if slots[j] == slots[i] {
                assert(slots@[j as int] == slots@[i as int] && j != i);
                return false;
            }
            j += 1;
        }
        i += 1;
    }
    true
}

impl BindingLayout {
    /// The declared slots, in order.
    pub closed spec fn view(&self) -> Seq<SlotLayout> {
        self.slots@
    }

    #[verifier::type_invariant]
    spec fn distinct(&self) -> bool {
        declared_slots(self.slots@).no_duplicates()
    }

    /// Declares the given slots. Refused if a slot number occurs twice.
    pub fn new(slots: Vec<SlotLayout>) -> (layout: Option<BindingLayout>)
        ensures
            layout is Some <==> declared_slots(slots@).no_duplicates(),
            layout matches Some(l) ==> l@ == slots@,
    {
        let numbers = Self::numbers(&slots);
        if all_distinct(&numbers) {
            Some(BindingLayout { slots })
        } else {
            None
        }
    }

    /// The layout of the task's program: slot 0 is a storage buffer that the
    /// program reads and writes, visible to the compute stage only.
    pub open spec fn storage_slot() -> Seq<SlotLayout> {
        seq![
            SlotLayout {
                slot: 0,
                access: Access::ReadWrite,
                visibility: Visibility { vertex: false, fragment: false, compute: true },
            },
        ]
    }

    /// The layout of the task's program.
    pub fn single_storage() -> (layout: BindingLayout)
        ensures
            layout@ == BindingLayout::storage_slot(),
    {
        let mut slots: Vec<SlotLayout> = Vec::new();
        slots.push(
            SlotLayout {
                slot: 0,
                access: Access::ReadWrite,
                visibility: Visibility { vertex: false, fragment: false, compute: true },
            },
        );
        assert(slots@ =~= BindingLayout::storage_slot());
        BindingLayout { slots }
    }

    /// The declared slots, in order. No slot number occurs twice.
    pub fn slots(&self) -> (slots: &Vec<SlotLayout>)
        ensures
            slots@ == self@,
            declared_slots(self@).no_duplicates(),
    {
        proof {
            use_type_invariant(self);
        }
        &self.slots
    }

    /// Number of declared slots.
    pub fn len(&self) -> (n: usize)
        ensures
            n == self@.len(),
    {
        self.slots.len()
    }

    fn numbers(slots: &Vec<SlotLayout>) -> (numbers: Vec<u32>)
        ensures
            numbers@ == declared_slots(slots@),
    {
        let mut numbers: Vec<u32> = Vec::new();
        let mut i: usize = 0;
        while i < slots.len()
            invariant
                i <= slots.len(),
                numbers@.len() == i,
                forall|k: int| 0 <= k < i ==> numbers@[k] == slots@[k].slot,
            decreases slots.len() - i,
        {
            numbers.push(slots[i].slot);
            i += 1;
        }
        assert(numbers@ =~= declared_slots(slots@));
        numbers
    }
}

impl BindingEntry {
    /// The entry that binds `slot` to the whole of `buffer`.
    pub open spec fn whole(slot: u32, buffer: BufferRole) -> BindingEntry {
        BindingEntry { slot, buffer, offset: 0, extent: Extent::ToEnd }
    }

    /// The entry that binds `slot` to the whole of `buffer`.
    pub fn entire(slot: u32, buffer: BufferRole) -> (entry: BindingEntry)
        ensures
            entry == BindingEntry::whole(slot, buffer),
    {
        BindingEntry { slot, buffer, offset: 0, extent: Extent::ToEnd }
    }

    /// Whether the bound buffer may serve as a storage binding.
    pub fn binds_storage(&self) -> (ok: bool)
        ensures
            ok == Usage::of_role(self.buffer).storage,
    {
        Usage::for_role(self.buffer).storage
    }
}

impl BindingSet {
    /// The supplied entries, in order.
    pub closed spec fn view(&self) -> Seq<BindingEntry> {
        self.entries@
    }

    /// The layout that the entries supply.
    pub closed spec fn layout_view(&self) -> Seq<SlotLayout> {
        self.layout@
    }

    #[verifier::type_invariant]
    spec fn supplied(&self) -> bool {
        satisfies(self.layout@, self.entries@)
    }

    /// Supplies `entries` for `layout`. This succeeds exactly if the entries
    /// satisfy the layout; in particular a set that leaves out a declared slot
    /// is refused here, before anything is dispatched.
    pub fn bind(layout: BindingLayout, entries: Vec<BindingEntry>) -> (set: Result<
        BindingSet,
        TaskError,
    >)
        ensures
            set is Ok <==> satisfies(layout@, entries@),
            set matches Ok(s) ==> s@ == entries@ && s.layout_view() == layout@,
            set matches Err(e) ==> e == TaskError::PipelineCreation,
    {
        let declared = BindingLayout::numbers(&layout.slots);
        let supplied = Self::numbers(&entries);
        if !all_covered(&declared, &supplied) || !all_covered(&supplied, &declared)
            || !all_distinct(&supplied) {
            return Err(TaskError::PipelineCreation);
        }
        let mut j: usize = 0;
        while j < entries.len()
            invariant
                j <= entries.len(),
                forall|k: int|
                    0 <= k < j ==> Usage::of_role((#[trigger] entries@[k]).buffer).storage,
            decreases entries.len() - j,
        {
            if !entries[j].binds_storage() {
                return Err(TaskError::PipelineCreation);
            }
            j += 1;
        }
        Ok(BindingSet { layout, entries })
    }

    /// The bindings of the task: slot 0 is the whole input buffer.
    pub open spec fn input_at_slot_zero() -> Seq<BindingEntry> {
        seq![BindingEntry::whole(0, BufferRole::Input)]
    }

    /// The bindings of the task, for the task's layout.
    pub fn for_task() -> (set: BindingSet)
        ensures
            set@ == BindingSet::input_at_slot_zero(),
            set.layout_view() == BindingLayout::storage_slot(),
    {
        let layout = BindingLayout::single_storage();
        let mut entries: Vec<BindingEntry> = Vec::new();
        entries.push(BindingEntry::entire(0, BufferRole::Input));
        proof {
            assert(entries@ =~= BindingSet::input_at_slot_zero());
            lemma_task_bindings_satisfy();
        }
        BindingSet { layout, entries }
    }

    /// The supplied entries, in order. They satisfy the layout.
    pub fn entries(&self) -> (entries: &Vec<BindingEntry>)
        ensures
            entries@ == self@,
            satisfies(self.layout_view(), self@),
    {
        proof {
            use_type_invariant(self);
        }
        &self.entries
    }

    /// The layout that the entries supply.
    pub fn layout(&self) -> (layout: &BindingLayout)
        ensures
            layout@ == self.layout_view(),
    {
        &self.layout
    }

    fn numbers(entries: &Vec<BindingEntry>) -> (numbers: Vec<u32>)
        ensures
            numbers@ == supplied_slots(entries@),
    {
        let mut numbers: Vec<u32> = Vec::new();
        let mut i: usize = 0;
        while i < entries.len()
            invariant
                i <= entries.len(),
                numbers@.len() == i,
                forall|k: int| 0 <= k < i ==> numbers@[k] == entries@[k].slot,
            decreases entries.len() - i,
        {
            numbers.push(entries[i].slot);
            i += 1;
        }
        assert(numbers@ =~= supplied_slots(entries@));
        numbers
    }
}

/// Entries that leave out a declared slot never satisfy the layout.
pub proof fn lemma_omitted_slot_rejected(layout: Seq<SlotLayout>, entries: Seq<BindingEntry>)
    requires
        omits_slot(layout, entries),
    ensures
        !satisfies(layout, entries),
{
    let i = choose|i: int|
        0 <= i < layout.len() && !supplied_slots(entries).contains(#[trigger] layout[i].slot);
    assert(declared_slots(layout)[i] == layout[i].slot);
}

/// Entries that satisfy a layout are as many as the declared slots.
pub proof fn lemma_satisfying_len(layout: Seq<SlotLayout>, entries: Seq<BindingEntry>)
    requires
        declared_slots(layout).no_duplicates(),
        satisfies(layout, entries),
    ensures
        entries.len() == layout.len(),
{
    let declared = declared_slots(layout);
    let supplied = supplied_slots(entries);
    assert forall|s: u32| declared.to_set().contains(s) <==> supplied.to_set().contains(s) by {
        if declared.contains(s) {
            let i = choose|i: int| 0 <= i < declared.len() && declared[i] == s;
            assert(supplied.contains(declared[i]));
        }
        if supplied.contains(s) {
            let j = choose|j: int| 0 <= j < supplied.len() && supplied[j] == s;
            assert(declared.contains(supplied[j]));
        }
    }
    assert(declared.to_set() =~= supplied.to_set());
    declared.unique_seq_to_set();
    supplied.unique_seq_to_set();
}

/// The task's bindings satisfy the task's layout.
pub proof fn lemma_task_bindings_satisfy()
    ensures
        satisfies(BindingLayout::storage_slot(), BindingSet::input_at_slot_zero()),
        declared_slots(BindingLayout::storage_slot()).no_duplicates(),
{
    let layout = BindingLayout::storage_slot();
    let entries = BindingSet::input_at_slot_zero();
    let declared = declared_slots(layout);
    let supplied = supplied_slots(entries);
    assert(declared.len() == 1 && declared[0] == 0u32);
    assert(supplied.len() == 1 && supplied[0] == 0u32);
    assert(entries[0].buffer == BufferRole::Input);
}

} // verus!
