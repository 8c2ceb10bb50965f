//! Interrupt vector table and the chained interrupt controllers.
//!
//! The vector table has 256 slots, each optionally bound to a handler
//! tagged with whether it diverges and whether the CPU must switch to a
//! dedicated stack before invoking it. The mandatory entries — breakpoint
//! and double fault — must be bound before the table is loaded; an
//! unbound table is inert. The two chained controllers are remapped so
//! hardware lines 0–7 occupy vectors 32–39 and lines 8–15 occupy 40–47,
//! clear of the CPU-reserved range, and each serviced interrupt owes the
//! controllers exactly one end-of-interrupt acknowledgment.
use crate::gdt::DOUBLE_FAULT_IST_INDEX;
use crate::machine::Machine;
use vstd::prelude::*;

verus! {

/// Remapped vector base of the master controller (hardware lines 0-7).
pub const PIC_1_OFFSET: u8 = 32;

/// Remapped vector base of the slave controller (hardware lines 8-15).
pub const PIC_2_OFFSET: u8 = 32 + 8;

/// Vector of the breakpoint exception.
pub const BREAKPOINT_VECTOR: u8 = 3;

/// Vector of the double-fault exception.
pub const DOUBLE_FAULT_VECTOR: u8 = 8;

/// Number of slots in the vector table.
pub const IDT_ENTRIES: usize = 256;

/// Command port of the master controller.
pub const PIC_1_COMMAND_PORT: u16 = 0x20;

/// Command port of the slave controller.
pub const PIC_2_COMMAND_PORT: u16 = 0xA0;

/// The end-of-interrupt command byte.
pub const END_OF_INTERRUPT_COMMAND: u8 = 0x20;

/// Number of hardware interrupt lines across both controllers.
pub const IRQ_LINES: usize = 16;

/// Hardware interrupts this kernel services, by remapped vector number.
#[derive(Clone, Copy, PartialEq, Eq, Structural, Debug)]
pub enum InterruptIndex {
    Timer,
}

/// The remapped vector of each serviced hardware interrupt.
pub open spec fn interrupt_vector(i: InterruptIndex) -> u8 {
    match i {
        InterruptIndex::Timer => PIC_1_OFFSET,
    }
}

impl InterruptIndex {
    /// The remapped vector number, as the table indexes it.
    pub fn as_u8(self) -> (v: u8)
        ensures
            v == interrupt_vector(self),
    {
        match self {
            InterruptIndex::Timer => PIC_1_OFFSET,
        }
    }
}

/// The handlers this kernel installs.
#[derive(Clone, Copy, PartialEq, Eq, Structural, Debug)]
pub enum HandlerKind {
    Breakpoint,
    DoubleFault,
    Timer,
}

/// One bound vector-table slot: an opaque handler reference tagged with
/// whether it diverges and which dedicated stack, if any, the CPU must
/// switch to before invoking it.
#[derive(Clone, Copy, PartialEq, Eq, Structural, Debug)]
pub struct IdtEntry {
    pub handler: HandlerKind,
    pub diverges: bool,
    pub stack_index: Option<u16>,
}

/// The 256-slot interrupt vector table.
pub struct Idt {
    entries: Vec<Option<IdtEntry>>,
}

impl Idt {
    /// The slots, by vector number.
    pub closed spec fn entries_seq(&self) -> Seq<Option<IdtEntry>> {
        self.entries@
    }

    /// Every slot exists.
    pub closed spec fn wf(&self) -> bool {
        self.entries@.len() == IDT_ENTRIES
    }

    /// The double-fault slot is bound to its diverging handler and forces
    /// the switch to the reserved stack.
    pub open spec fn double_fault_bound(&self) -> bool {
        self.entries_seq()[DOUBLE_FAULT_VECTOR as int] == Some(
            IdtEntry {
                handler: HandlerKind::DoubleFault,
                diverges: true,
                stack_index: Some(DOUBLE_FAULT_IST_INDEX),
            },
        )
    }

    /// The breakpoint slot is bound to its returning handler.
    pub open spec fn breakpoint_bound(&self) -> bool {
        self.entries_seq()[BREAKPOINT_VECTOR as int] == Some(
            IdtEntry { handler: HandlerKind::Breakpoint, diverges: false, stack_index: None },
        )
    }

    /// Whether the table may be loaded: the mandatory slots are bound.
    /// Loading an incomplete table is a programmer error, not a
    /// runtime-recoverable condition.
    pub open spec fn loadable(&self) -> bool {
        &&& self.wf()
        &&& self.double_fault_bound()
        &&& self.breakpoint_bound()
    }

    /// An empty, inert table: every slot unbound.
    pub fn new() -> (t: Idt)
        ensures
            t.wf(),
            forall|v: int| 0 <= v < IDT_ENTRIES ==> t.entries_seq()[v] is None,
    {
        let mut entries: Vec<Option<IdtEntry>> = Vec::new();
        let mut i: usize = 0;
        while i < IDT_ENTRIES
            invariant
                i <= IDT_ENTRIES,
                entries@.len() == i,
                forall|v: int| 0 <= v < i ==> entries@[v] is None,
            decreases IDT_ENTRIES - i,
        {
            entries.push(None);
            i = i + 1;
        }
        Idt { entries }
    }

    /// Binds one slot to a handler.
    pub fn set_entry(&mut self, vector: u8, entry: IdtEntry)
        requires
            old(self).wf(),
        ensures
            final(self).wf(),
            final(self).entries_seq() == old(self).entries_seq().update(
                vector as int,
                Some(entry),
            ),
    {
        self.entries[vector as usize] = Some(entry);
    }

    /// The slot bound for a vector, if any.
    pub fn entry(&self, vector: u8) -> (e: Option<IdtEntry>)
        requires
            self.wf(),
        ensures
            e == self.entries_seq()[vector as int],
    {
        self.entries[vector as usize]
    }

    /// Fail-fast validation before a load: whether both mandatory
    /// entries are bound as the loaded table demands them.
    pub fn check_loadable(&self) -> (b: bool)
        requires
            self.wf(),
        ensures
            b == self.loadable(),
    {
        let df_ok = match self.entry(DOUBLE_FAULT_VECTOR) {
            Some(e) => {
                let kind_ok = match e.handler {
                    HandlerKind::DoubleFault => true,
                    _ => false,
                };
                let stack_ok = match e.stack_index {
                    Some(i) => i == DOUBLE_FAULT_IST_INDEX,
                    None => false,
                };
                kind_ok && e.diverges && stack_ok
            },
            None => false,
        };
        let bp_ok = match self.entry(BREAKPOINT_VECTOR) {
            Some(e) => {
                let kind_ok = match e.handler {
                    HandlerKind::Breakpoint => true,
                    _ => false,
                };
                kind_ok && !e.diverges && e.stack_index.is_none()
            },
            None => false,
        };
        df_ok && bp_ok
    }

    /// Builds the kernel's table: breakpoint, double fault on the
    /// reserved stack, and the timer vector.
    pub fn build() -> (t: Idt)
        ensures
            t.loadable(),
            t.entries_seq()[interrupt_vector(InterruptIndex::Timer) as int] == Some(
                IdtEntry { handler: HandlerKind::Timer, diverges: false, stack_index: None },
            ),
    {
        let mut idt = Idt::new();
        idt.set_entry(
            BREAKPOINT_VECTOR,
            IdtEntry { handler: HandlerKind::Breakpoint, diverges: false, stack_index: None },
        );
        idt.set_entry(
            DOUBLE_FAULT_VECTOR,
            IdtEntry {
                handler: HandlerKind::DoubleFault,
                diverges: true,
                stack_index: Some(DOUBLE_FAULT_IST_INDEX),
            },
        );
        idt.set_entry(
            InterruptIndex::Timer.as_u8(),
            IdtEntry { handler: HandlerKind::Timer, diverges: false, stack_index: None },
        );
        idt
    }
}

/// The chained pair of interrupt controllers: their remapped vector
/// bases, and which hardware lines are serviced but not yet acknowledged.
pub struct ChainedPics {
    offset1: u8,
    offset2: u8,
    in_service: Vec<bool>,
}

impl ChainedPics {
    /// The master controller's vector base.
    pub closed spec fn spec_offset1(&self) -> u8 {
        self.offset1
    }

    /// The slave controller's vector base.
    pub closed spec fn spec_offset2(&self) -> u8 {
        self.offset2
    }

    /// Which hardware lines await an end-of-interrupt acknowledgment.
    pub closed spec fn in_service_seq(&self) -> Seq<bool> {
        self.in_service@
    }

    /// One flag per hardware line, and vector bases that keep both
    /// controllers' ranges inside the vector space.
    pub open spec fn wf(&self) -> bool {
        &&& self.in_service_seq().len() == IRQ_LINES
        &&& self.spec_offset1() <= 247
        &&& self.spec_offset2() <= 247
    }

    /// A freshly remapped chain with the given vector bases and no
    /// acknowledgment outstanding.
    pub fn new(offset1: u8, offset2: u8) -> (p: ChainedPics)
        requires
            offset1 <= 247,
            offset2 <= 247,
        ensures
            p.wf(),
            p.spec_offset1() == offset1,
            p.spec_offset2() == offset2,
            forall|l: int| 0 <= l < IRQ_LINES ==> !p.in_service_seq()[l],
    {
        let mut in_service: Vec<bool> = Vec::new();
        let mut i: usize = 0;
        while i < IRQ_LINES
            invariant
                i <= IRQ_LINES,
                in_service@.len() == i,
                forall|l: int| 0 <= l < i ==> !in_service@[l],
            decreases IRQ_LINES - i,
        {
            in_service.push(false);
            i = i + 1;
        }
        ChainedPics { offset1, offset2, in_service }
    }

    /// Whether a vector belongs to either controller's remapped range.
    pub open spec fn handles(&self, vector: u8) -> bool {
        ||| self.spec_offset1() <= vector < self.spec_offset1() + 8
        ||| self.spec_offset2() <= vector < self.spec_offset2() + 8
    }

    /// Whether either controller handles this vector.
    pub fn handles_interrupt(&self, vector: u8) -> (b: bool)
        requires
            self.wf(),
        ensures
            b == self.handles(vector),
    {
        (self.offset1 <= vector && vector < self.offset1 + 8) || (self.offset2 <= vector
            && vector < self.offset2 + 8)
    }

    /// The hardware line a handled vector arrived on: master lines come
    /// first, slave lines after them.
    pub open spec fn line_of(&self, vector: u8) -> int {
        if self.spec_offset1() <= vector < self.spec_offset1() + 8 {
            vector - self.spec_offset1()
        } else {
            8 + vector - self.spec_offset2()
        }
    }

    /// Delivery gate of one line: a line whose previous interrupt is
    /// still unacknowledged delivers nothing further.
    pub open spec fn can_deliver(&self, vector: u8) -> bool {
        !self.in_service_seq()[self.line_of(vector)]
    }

    /// Hands one interrupt to the CPU if its line is clear: delivery
    /// succeeds exactly when no acknowledgment is outstanding there, and
    /// marks the line as awaiting one.
    pub fn try_deliver(&mut self, vector: u8) -> (delivered: bool)
        requires
            old(self).wf(),
            old(self).handles(vector),
        ensures
            final(self).wf(),
            final(self).spec_offset1() == old(self).spec_offset1(),
            final(self).spec_offset2() == old(self).spec_offset2(),
            delivered == old(self).can_deliver(vector),
            delivered ==> final(self).in_service_seq() == old(self).in_service_seq().update(
                old(self).line_of(vector),
                true,
            ),
            !delivered ==> *final(self) == *old(self),
    {
        let line = self.line_index(vector);
        if self.in_service[line] {
            false
        } else {
            self.in_service[line] = true;
            true
        }
    }

    /// The ports that one end-of-interrupt must address, in write order:
    /// the slave first when it owns the vector, always the master, since
    /// slave interrupts are chained through it; an unhandled vector is
    /// acknowledged nowhere.
    pub fn end_of_interrupt_ports(&self, vector: u8) -> (ports: Vec<u16>)
        requires
            self.wf(),
        ensures
            !self.handles(vector) ==> ports@ =~= Seq::<u16>::empty(),
            self.handles(vector) && self.spec_offset2() <= vector < self.spec_offset2() + 8
                ==> ports@ =~= seq![PIC_2_COMMAND_PORT, PIC_1_COMMAND_PORT],
            self.handles(vector) && !(self.spec_offset2() <= vector < self.spec_offset2() + 8)
                ==> ports@ =~= seq![PIC_1_COMMAND_PORT],
    {
        let mut ports: Vec<u16> = Vec::new();
        if self.handles_interrupt(vector) {
            if self.offset2 <= vector && vector < self.offset2 + 8 {
                ports.push(PIC_2_COMMAND_PORT);
            }
            ports.push(PIC_1_COMMAND_PORT);
        }
        ports
    }

    /// Records the end-of-interrupt acknowledgment for a serviced vector:
    /// its line becomes deliverable again, and nothing else changes. A
    /// vector neither controller handles is acknowledged nowhere.
    pub fn notify_end_of_interrupt(&mut self, vector: u8)
        requires
            old(self).wf(),
        ensures
            final(self).wf(),
            final(self).spec_offset1() == old(self).spec_offset1(),
            final(self).spec_offset2() == old(self).spec_offset2(),
            old(self).handles(vector) ==> ({
                &&& final(self).in_service_seq() == old(self).in_service_seq().update(
                    old(self).line_of(vector),
                    false,
                )
                &&& final(self).can_deliver(vector)
            }),
            !old(self).handles(vector) ==> *final(self) == *old(self),
    {
        if self.handles_interrupt(vector) {
            let line = self.line_index(vector);
            self.in_service[line] = false;
        }
    }

    /// The hardware line of a handled vector, for indexing.
    fn line_index(&self, vector: u8) -> (line: usize)
        requires
            self.wf(),
            self.handles(vector),
        ensures
            line == self.line_of(vector),
            line < IRQ_LINES,
    {
        if self.offset1 <= vector && vector < self.offset1 + 8 {
            (vector - self.offset1) as usize
        } else {
            8 + (vector - self.offset2) as usize
        }
    }
}

/// Interrupt acknowledgment: an unacknowledged line delivers no further
/// interrupt, and exactly one end-of-interrupt makes it deliverable
/// again — so each serviced interrupt owes exactly one acknowledgment,
/// and a duplicated one would re-open a line the handler already left.
pub proof fn lemma_interrupt_acknowledgment(p: ChainedPics, q: ChainedPics, vector: u8)
    requires
        p.wf(),
        p.handles(vector),
        p.in_service_seq()[p.line_of(vector)],
        q.wf(),
        q.spec_offset1() == p.spec_offset1(),
        q.spec_offset2() == p.spec_offset2(),
        q.in_service_seq() == p.in_service_seq().update(p.line_of(vector), false),
    ensures
        !p.can_deliver(vector),
        q.can_deliver(vector),
{
}

/// Builds the kernel's vector table and loads it into the machine.
/// The mandatory slots are bound by construction, so the load's demand
/// that the table be complete is met.
pub fn init(m: &mut Machine)
    ensures
        final(m).idt is Some,
        final(m).idt->0.loadable(),
        final(m).idt->0.entries_seq()[interrupt_vector(InterruptIndex::Timer) as int] == Some(
            IdtEntry { handler: HandlerKind::Timer, diverges: false, stack_index: None },
        ),
        *final(m) == (Machine { idt: final(m).idt, ..*old(m) }),
{
    let idt = Idt::build();
    m.load_idt(idt);
}

} // verus!
