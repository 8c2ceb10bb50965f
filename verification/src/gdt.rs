//! Segment descriptor table and task-state segment setup.
//!
//! The table is an ordered, append-only sequence of descriptors that
//! yields a selector for each insertion; the task-state segment carries
//! the interrupt stack table whose slot 0 points at the top of a
//! statically reserved, 16-byte-aligned stack kept solely for the
//! double-fault handler, so that handler always runs on known-good
//! memory even when the normal stack is exhausted.
use crate::machine::Machine;
use vstd::prelude::*;

verus! {

/// Interrupt-stack-table slot reserved for the double-fault handler.
pub const DOUBLE_FAULT_IST_INDEX: u16 = 0;

/// Number of alternate stack slots the task-state segment carries.
pub const IST_ENTRIES: usize = 7;

/// Size in bytes of the reserved double-fault stack region.
pub const DOUBLE_FAULT_STACK_SIZE: u64 = 4096 * 5;

/// Greatest number of 8-byte slots the descriptor table can hold,
/// including the mandatory null slot.
pub const MAX_TABLE_SLOTS: u16 = 8;

/// A descriptor the table can hold: the kernel code segment, or a
/// task-state segment at some base address. In a 64-bit table a
/// task-state descriptor is twice as wide as a code descriptor.
#[derive(Clone, Copy, PartialEq, Eq, Structural, Debug)]
pub enum SegmentDescriptor {
    KernelCode,
    TaskState { base: u64 },
}

/// How many 8-byte table slots a descriptor occupies.
pub open spec fn descriptor_slots(d: SegmentDescriptor) -> int {
    match d {
        SegmentDescriptor::KernelCode => 1,
        SegmentDescriptor::TaskState { .. } => 2,
    }
}

/// Slots used by a table holding these descriptors, after the null slot
/// every table starts with.
pub open spec fn table_slots(entries: Seq<SegmentDescriptor>) -> int
    decreases entries.len(),
{
    if entries.len() == 0 {
        1
    } else {
        table_slots(entries.drop_last()) + descriptor_slots(entries.last())
    }
}

/// An ordered, append-only segment descriptor table. Appending yields the
/// selector of the inserted descriptor; nothing is ever removed or
/// rewritten.
pub struct DescriptorTable {
    entries: Vec<SegmentDescriptor>,
    next_slot: u16,
}

/// The selectors produced while building the kernel's table, computed
/// once and immutable thereafter.
#[derive(Clone, Copy, PartialEq, Eq, Structural, Debug)]
pub struct Selectors {
    pub code_selector: u16,
    pub tss_selector: u16,
}

impl DescriptorTable {
    /// The descriptors appended so far, in order.
    pub closed spec fn entries_seq(&self) -> Seq<SegmentDescriptor> {
        self.entries@
    }

    /// The slot counter agrees with the contents and fits the table.
    pub closed spec fn wf(&self) -> bool {
        &&& self.next_slot == table_slots(self.entries@)
        &&& table_slots(self.entries@) <= MAX_TABLE_SLOTS
    }

    /// Slots used so far, as callers see it.
    pub open spec fn slots_used(&self) -> int {
        table_slots(self.entries_seq())
    }

    /// An empty table: only the null slot is taken.
    pub fn new() -> (t: DescriptorTable)
        ensures
            t.wf(),
            t.entries_seq() == Seq::<SegmentDescriptor>::empty(),
    {
        DescriptorTable { entries: Vec::new(), next_slot: 1 }
    }

    /// Appends a descriptor and returns its selector: the slot index it
    /// landed in, shifted into selector form with ring-0 privilege.
    pub fn append(&mut self, d: SegmentDescriptor) -> (selector: u16)
        requires
            old(self).wf(),
            old(self).slots_used() + descriptor_slots(d) <= MAX_TABLE_SLOTS,
        ensures
            final(self).wf(),
            final(self).entries_seq() == old(self).entries_seq().push(d),
            selector == old(self).slots_used() * 8,
    {
        let selector = self.next_slot * 8;
        let width: u16 = match d {
            SegmentDescriptor::KernelCode => 1,
            SegmentDescriptor::TaskState { .. } => 2,
        };
        self.entries.push(d);
        self.next_slot = self.next_slot + width;
        proof {
            assert(self.entries@.drop_last() =~= old(self).entries@);
        }
        selector
    }

    /// The descriptor at a position, for inspection.
    pub fn entry_at(&self, i: usize) -> (d: SegmentDescriptor)
        requires
            i < self.entries_seq().len(),
        ensures
            d == self.entries_seq()[i as int],
    {
        self.entries[i]
    }

    /// How many descriptors the table holds.
    pub fn len(&self) -> (n: usize)
        ensures
            n == self.entries_seq().len(),
    {
        self.entries.len()
    }
}

/// The task-state segment: of its contents, this kernel uses only the
/// interrupt stack table of alternate stack-top addresses.
pub struct TaskStateSegment {
    interrupt_stack_table: Vec<u64>,
}

impl TaskStateSegment {
    /// The alternate stack-top addresses, slot by slot.
    pub closed spec fn ist(&self) -> Seq<u64> {
        self.interrupt_stack_table@
    }

    /// Every slot exists.
    pub closed spec fn wf(&self) -> bool {
        self.interrupt_stack_table@.len() == IST_ENTRIES
    }

    /// A fresh segment with every stack slot empty.
    pub fn new() -> (t: TaskStateSegment)
        ensures
            t.wf(),
            t.ist() =~= Seq::new(IST_ENTRIES as nat, |i: int| 0u64),
    {
        let mut interrupt_stack_table: Vec<u64> = Vec::new();
        let mut i: usize = 0;
        while i < IST_ENTRIES
            invariant
                i <= IST_ENTRIES,
                interrupt_stack_table@.len() == i,
                forall|j: int| 0 <= j < i ==> interrupt_stack_table@[j] == 0u64,
            decreases IST_ENTRIES - i,
        {
            interrupt_stack_table.push(0);
            i = i + 1;
        }
        TaskStateSegment { interrupt_stack_table }
    }

    /// Points one stack slot at a stack-top address.
    pub fn set_ist(&mut self, index: usize, stack_top: u64)
        requires
            old(self).wf(),
            index < IST_ENTRIES,
        ensures
            final(self).wf(),
            final(self).ist() == old(self).ist().update(index as int, stack_top),
    {
        self.interrupt_stack_table[index] = stack_top;
    }

    /// The stack-top address in one slot.
    pub fn ist_entry(&self, index: usize) -> (addr: u64)
        requires
            self.wf(),
            index < IST_ENTRIES,
        ensures
            addr == self.ist()[index as int],
    {
        self.interrupt_stack_table[index]
    }
}

/// The top address of the reserved double-fault stack region: stacks grow
/// downward, so the handler starts at the region's high end.
pub fn double_fault_stack_top(stack_base: u64) -> (top: u64)
    requires
        stack_base % 16 == 0,
        stack_base + DOUBLE_FAULT_STACK_SIZE <= u64::MAX,
    ensures
        top == stack_base + DOUBLE_FAULT_STACK_SIZE,
        top % 16 == 0,
        stack_base <= top,
{
    proof {
        assert((stack_base + DOUBLE_FAULT_STACK_SIZE) % 16 == 0) by (nonlinear_arith)
            requires
                stack_base % 16 == 0,
                stack_base + DOUBLE_FAULT_STACK_SIZE <= u64::MAX,
                DOUBLE_FAULT_STACK_SIZE == 4096 * 5,
        ;
    }
    stack_base + DOUBLE_FAULT_STACK_SIZE
}

/// Builds the task-state segment whose double-fault stack slot points at
/// the top of the reserved region, before any table is loaded.
pub fn tss_with_double_fault_stack(stack_base: u64) -> (t: TaskStateSegment)
    requires
        stack_base % 16 == 0,
        stack_base + DOUBLE_FAULT_STACK_SIZE <= u64::MAX,
    ensures
        t.wf(),
        t.ist()[DOUBLE_FAULT_IST_INDEX as int] == stack_base + DOUBLE_FAULT_STACK_SIZE,
        t.ist()[DOUBLE_FAULT_IST_INDEX as int] % 16 == 0,
        stack_base <= t.ist()[DOUBLE_FAULT_IST_INDEX as int] <= stack_base
            + DOUBLE_FAULT_STACK_SIZE,
        forall|i: int|
            0 <= i < IST_ENTRIES && i != DOUBLE_FAULT_IST_INDEX ==> t.ist()[i] == 0u64,
{
    let mut tss = TaskStateSegment::new();
    let top = double_fault_stack_top(stack_base);
    tss.set_ist(DOUBLE_FAULT_IST_INDEX as usize, top);
    tss
}

/// Builds the kernel's descriptor table: exactly one code-segment
/// descriptor and one task-state-segment descriptor, in that order, with
/// the selectors their insertion produced.
pub fn build_tables(tss_base: u64) -> (r: (DescriptorTable, Selectors))
    ensures
        r.0.wf(),
        r.0.entries_seq() =~= seq![
            SegmentDescriptor::KernelCode,
            SegmentDescriptor::TaskState { base: tss_base },
        ],
        r.1.code_selector == 8,
        r.1.tss_selector == 16,
{
    let mut table = DescriptorTable::new();
    let code_selector = table.append(SegmentDescriptor::KernelCode);
    proof {
        assert(table.entries_seq().drop_last() =~= Seq::<SegmentDescriptor>::empty());
        assert(table.slots_used() == 2);
    }
    let tss_selector = table.append(SegmentDescriptor::TaskState { base: tss_base });
    proof {
        assert(table.entries_seq().drop_last() =~= Seq::<SegmentDescriptor>::empty().push(
            SegmentDescriptor::KernelCode,
        ));
    }
    (table, Selectors { code_selector, tss_selector })
}

/// Descriptor-table setup: builds the task-state segment with the
/// reserved double-fault stack in its slot, builds the table with its
/// one code-segment and one task-state descriptor, loads the table,
/// reloads the code-segment register with the new code selector, and
/// loads the task register with the task-state selector. Afterwards the
/// active code-segment selector equals the table's installed code
/// selector, and the reserved stack slot holds a 16-byte-aligned address
/// at the top of the reserved region.
pub fn init(m: &mut Machine, double_fault_stack_base: u64, tss_addr: u64)
    requires
        double_fault_stack_base % 16 == 0,
        double_fault_stack_base + DOUBLE_FAULT_STACK_SIZE <= u64::MAX,
    ensures
        final(m).gdt is Some,
        final(m).gdt->0.entries_seq() =~= seq![
            SegmentDescriptor::KernelCode,
            SegmentDescriptor::TaskState { base: tss_addr },
        ],
        final(m).selectors == Some(Selectors { code_selector: 8u16, tss_selector: 16u16 }),
        final(m).cs == final(m).selectors->0.code_selector,
        final(m).tr == final(m).selectors->0.tss_selector,
        final(m).tss is Some,
        final(m).tss->0.wf(),
        final(m).tss->0.ist()[DOUBLE_FAULT_IST_INDEX as int] == double_fault_stack_base
            + DOUBLE_FAULT_STACK_SIZE,
        final(m).tss->0.ist()[DOUBLE_FAULT_IST_INDEX as int] % 16 == 0,
        double_fault_stack_base <= final(m).tss->0.ist()[DOUBLE_FAULT_IST_INDEX as int]
            <= double_fault_stack_base + DOUBLE_FAULT_STACK_SIZE,
        final(m).idt == old(m).idt,
        final(m).screen == old(m).screen,
        final(m).pics == old(m).pics,
        final(m).halted == old(m).halted,
        final(m).exit_status == old(m).exit_status,
        final(m).fatal_diagnostic == old(m).fatal_diagnostic,
{
    let tss = tss_with_double_fault_stack(double_fault_stack_base);
    let (table, selectors) = build_tables(tss_addr);
    m.load_gdt(table, selectors);
    m.set_code_segment(selectors.code_selector);
    m.load_task_state(selectors.tss_selector, tss);
}

} // verus!
