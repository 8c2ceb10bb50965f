//! The machine the init sequence drives and the interrupt dispatcher
//! runs on: the loaded descriptor tables and selectors, the loaded vector
//! table, the interrupt-controller chain, the lock-guarded display, and
//! the terminal flags — halted, exit status, fatal diagnostic.
//!
//! One execution context exists; the only concurrency is a handler
//! preempting normal code. Any critical section reachable from a handler
//! must run with interrupts disabled, or the handler would spin forever
//! on the lock the interrupted code still holds: every entry point here
//! therefore demands the output lock free.
use crate::Mutex;
use crate::gdt::{DescriptorTable, Selectors, TaskStateSegment};
use crate::interrupts::{
    BREAKPOINT_VECTOR, DOUBLE_FAULT_VECTOR, HandlerKind, Idt, IdtEntry, ChainedPics,
    InterruptIndex, PIC_1_OFFSET, PIC_2_OFFSET, interrupt_vector,
};
use crate::qemu::{QemuExitCode, exit_code_value};
use crate::vga::{ScreenState, VgaScreen, spec_write_chars};
use vstd::prelude::*;

verus! {

/// How handling an interrupt or exception ends: the handler returns and
/// the CPU restores the interrupted context at the saved instruction
/// address; a diverging handler parks the core forever; or the fault
/// escalates beyond recovery and the CPU resets.
#[derive(Clone, Copy, PartialEq, Eq, Structural, Debug)]
pub enum Outcome {
    Resume { next_ip: u64 },
    Halt,
    Reset,
}

/// The machine state the kernel's setup and handlers act on.
pub struct Machine {
    /// Active code-segment selector.
    pub cs: u16,
    /// Active task register selector.
    pub tr: u16,
    /// The loaded descriptor table, once the setup installed one.
    pub gdt: Option<DescriptorTable>,
    /// The selectors that table produced.
    pub selectors: Option<Selectors>,
    /// The loaded task-state segment.
    pub tss: Option<TaskStateSegment>,
    /// The loaded interrupt vector table; unloaded means every fault
    /// escalates.
    pub idt: Option<Idt>,
    /// The chained interrupt controllers.
    pub pics: ChainedPics,
    /// The display, shared between normal code and handlers through the
    /// lock.
    pub screen: Mutex<VgaScreen>,
    /// Whether the core is parked forever.
    pub halted: bool,
    /// The status written to the emulator-exit side channel, if any.
    pub exit_status: Option<u32>,
    /// Whether a fatal diagnostic was emitted.
    pub fatal_diagnostic: bool,
}

impl Machine {
    /// The shape every reachable machine has: a well-formed controller
    /// chain at the remapped offsets, and the display lock free with a
    /// well-formed display inside.
    pub open spec fn wf(&self) -> bool {
        &&& self.pics.wf()
        &&& self.pics.spec_offset1() == PIC_1_OFFSET
        &&& self.pics.spec_offset2() == PIC_2_OFFSET
        &&& self.screen.wf()
        &&& !self.screen.is_locked()
        &&& self.screen.value().wf()
    }

    /// The display contents, as normal code and handlers observe them.
    pub open spec fn screen_state(&self) -> ScreenState {
        self.screen.value()@
    }

    /// A machine fresh out of the boot handoff: nothing loaded, nothing
    /// halted, controllers remapped, a blank display behind a free lock.
    pub fn new() -> (m: Machine)
        ensures
            m.wf(),
            m.cs == 0,
            m.tr == 0,
            m.gdt is None,
            m.selectors is None,
            m.tss is None,
            m.idt is None,
            !m.halted,
            m.exit_status is None,
            !m.fatal_diagnostic,
            m.screen_state().col == 0,
            forall|l: int|
                0 <= l < crate::interrupts::IRQ_LINES ==> !m.pics.in_service_seq()[l],
    {
        Machine {
            cs: 0,
            tr: 0,
            gdt: None,
            selectors: None,
            tss: None,
            idt: None,
            pics: ChainedPics::new(PIC_1_OFFSET, PIC_2_OFFSET),
            screen: Mutex::new(VgaScreen::new()),
            halted: false,
            exit_status: None,
            fatal_diagnostic: false,
        }
    }

    /// Loads a built descriptor table and remembers the selectors its
    /// construction produced.
    pub fn load_gdt(&mut self, table: DescriptorTable, selectors: Selectors)
        ensures
            *final(self) == (Machine {
                gdt: Some(table),
                selectors: Some(selectors),
                ..*old(self)
            }),
    {
        self.gdt = Some(table);
        self.selectors = Some(selectors);
    }

    /// Reloads the code-segment register with a selector.
    pub fn set_code_segment(&mut self, selector: u16)
        ensures
            *final(self) == (Machine { cs: selector, ..*old(self) }),
    {
        self.cs = selector;
    }

    /// Loads the task register with a selector and installs the segment
    /// it refers to.
    pub fn load_task_state(&mut self, selector: u16, tss: TaskStateSegment)
        ensures
            *final(self) == (Machine { tr: selector, tss: Some(tss), ..*old(self) }),
    {
        self.tr = selector;
        self.tss = Some(tss);
    }

    /// Loads a vector table. A table without its mandatory entries bound
    /// is a programmer error and is excluded outright: an incomplete
    /// table is never loaded.
    pub fn load_idt(&mut self, idt: Idt)
        requires
            idt.loadable(),
        ensures
            *final(self) == (Machine { idt: Some(idt), ..*old(self) }),
    {
        self.idt = Some(idt);
    }

    /// Writes a string to the display under its lock, as the formatting
    /// front end does. Demands the lock free: a caller holding it would
    /// deadlock here on real hardware.
    pub fn print_str(&mut self, s: &str)
        requires
            old(self).wf(),
        ensures
            final(self).wf(),
            final(self).screen_state() == spec_write_chars(old(self).screen_state(), s@),
            *final(self) == (Machine { screen: final(self).screen, ..*old(self) }),
    {
        let mut guard = self.screen.lock();
        guard.data.write_str(s);
        self.screen.unlock(guard);
    }

    /// The emulator-exit side channel: records the status code written to
    /// the dedicated port; execution never continues past it.
    pub fn qemu_exit(&mut self, code: QemuExitCode)
        ensures
            *final(self) == (Machine {
                exit_status: Some(exit_code_value(code)),
                halted: true,
                ..*old(self)
            }),
    {
        let status = code.code();
        self.exit_status = Some(status);
        self.halted = true;
    }

    /// The double-fault path the CPU takes once a fault occurs while
    /// handling another. With the handler bound to a dedicated stack slot
    /// it always runs on known-good memory: it emits its diagnostic and
    /// parks the core — deliberate fail-stop. Without a dedicated stack
    /// it survives only if the current stack still works; otherwise the
    /// very entry faults again and the CPU resets.
    fn double_fault(&mut self, entry: Option<IdtEntry>, stack_ok: bool) -> (o: Outcome)
        requires
            old(self).wf(),
        ensures
            final(self).wf(),
            ({
                let runs = entry is Some && (entry->0.stack_index is Some || stack_ok);
                if runs {
                    &&& o == Outcome::Halt
                    &&& final(self).halted
                    &&& final(self).fatal_diagnostic
                    &&& final(self).screen_state() == spec_write_chars(
                        old(self).screen_state(),
                        "EXCEPTION: DOUBLE FAULT\n"@,
                    )
                    &&& *final(self) == (Machine {
                        screen: final(self).screen,
                        halted: true,
                        fatal_diagnostic: true,
                        ..*old(self)
                    })
                } else {
                    o == Outcome::Reset && *final(self) == *old(self)
                }
            }),
    {
        match entry {
            Some(e) => {
                if e.stack_index.is_some() || stack_ok {
                    self.print_str("EXCEPTION: DOUBLE FAULT\n");
                    self.fatal_diagnostic = true;
                    self.halted = true;
                    Outcome::Halt
                } else {
                    Outcome::Reset
                }
            },
            None => Outcome::Reset,
        }
    }

    /// The CPU's dispatch of one interrupt or exception: it consults the
    /// vector table slot, switches stacks if the slot demands it, runs
    /// the bound handler, and either restores the interrupted context at
    /// the saved instruction address or never returns. `ip` is the
    /// instruction address the CPU saved on entry — for the breakpoint
    /// trap, the instruction after the one that trapped. `stack_ok` says
    /// whether the interrupted context's stack is still usable. An
    /// unbound slot escalates to the double-fault path.
    pub fn dispatch(&mut self, vector: u8, ip: u64, stack_ok: bool) -> (o: Outcome)
        requires
            old(self).wf(),
            old(self).idt is Some,
            old(self).idt->0.wf(),
        ensures
            final(self).wf(),
            final(self).idt == old(self).idt,
            final(self).cs == old(self).cs,
            final(self).tr == old(self).tr,
            final(self).gdt == old(self).gdt,
            final(self).selectors == old(self).selectors,
            final(self).tss == old(self).tss,
            final(self).exit_status == old(self).exit_status,
            // An unbound slot with the double-fault slot also unbound is
            // the inert table's fate: nothing catches the escalation and
            // the CPU resets.
            (old(self).idt->0.entries_seq()[vector as int] is None && old(
                self,
            ).idt->0.entries_seq()[DOUBLE_FAULT_VECTOR as int] is None) ==> ({
                &&& o == Outcome::Reset
                &&& *final(self) == *old(self)
            }),
            // An unbound slot with the double-fault slot bound escalates
            // there: the diverging handler runs on its reserved stack,
            // emits its diagnostic, and parks the core.
            (old(self).idt->0.entries_seq()[vector as int] is None && old(
                self,
            ).idt->0.double_fault_bound()) ==> ({
                &&& o == Outcome::Halt
                &&& final(self).halted
                &&& final(self).fatal_diagnostic
                &&& final(self).pics == old(self).pics
                &&& final(self).screen_state() == spec_write_chars(
                    old(self).screen_state(),
                    "EXCEPTION: DOUBLE FAULT\n"@,
                )
            }),
            // Breakpoint is recoverable: the frame is logged, no state is
            // mutated, and execution resumes at the next instruction
            // rather than halting.
            (old(self).idt->0.loadable() && vector == BREAKPOINT_VECTOR) ==> ({
                &&& o == (Outcome::Resume { next_ip: ip })
                &&& final(self).halted == old(self).halted
                &&& final(self).fatal_diagnostic == old(self).fatal_diagnostic
                &&& final(self).pics == old(self).pics
                &&& final(self).screen_state() == spec_write_chars(
                    old(self).screen_state(),
                    "EXCEPTION: BREAKPOINT\n"@,
                )
            }),
            // A double fault reaches the diverging handler on its
            // reserved stack whatever the state of the interrupted
            // stack: a controlled halt with a diagnostic, never a reset.
            (old(self).idt->0.loadable() && vector == DOUBLE_FAULT_VECTOR) ==> ({
                &&& o == Outcome::Halt
                &&& final(self).halted
                &&& final(self).fatal_diagnostic
                &&& final(self).pics == old(self).pics
                &&& final(self).screen_state() == spec_write_chars(
                    old(self).screen_state(),
                    "EXCEPTION: DOUBLE FAULT\n"@,
                )
            }),
            // The timer handler does its minimal work and sends exactly
            // one end-of-interrupt acknowledgment before returning.
            (old(self).idt->0.entries_seq()[vector as int] == Some(
                IdtEntry { handler: HandlerKind::Timer, diverges: false, stack_index: None },
            ) && old(self).pics.handles(vector)) ==> ({
                &&& o == (Outcome::Resume { next_ip: ip })
                &&& final(self).halted == old(self).halted
                &&& final(self).fatal_diagnostic == old(self).fatal_diagnostic
                &&& final(self).screen_state() == spec_write_chars(old(self).screen_state(), "."@)
                &&& final(self).pics.in_service_seq() == old(self).pics.in_service_seq().update(
                    old(self).pics.line_of(vector),
                    false,
                )
            }),
    {
        let entry_opt = match &self.idt {
            Some(t) => t.entry(vector),
            None => None,
        };
        match entry_opt {
            None => self.double_fault_slot_then(stack_ok),
            Some(e) => match e.handler {
                HandlerKind::Breakpoint => {
                    self.print_str("EXCEPTION: BREAKPOINT\n");
                    Outcome::Resume { next_ip: ip }
                },
                HandlerKind::DoubleFault => {
                    let df = Some(e);
                    self.double_fault(df, stack_ok)
                },
                HandlerKind::Timer => {
                    self.print_str(".");
                    self.pics.notify_end_of_interrupt(vector);
                    Outcome::Resume { next_ip: ip }
                },
            },
        }
    }

    /// Escalation from an unbound slot: the CPU takes the double-fault
    /// path with whatever that slot holds.
    fn double_fault_slot_then(&mut self, stack_ok: bool) -> (o: Outcome)
        requires
            old(self).wf(),
            old(self).idt is Some,
            old(self).idt->0.wf(),
        ensures
            final(self).wf(),
            final(self).idt == old(self).idt,
            final(self).cs == old(self).cs,
            final(self).tr == old(self).tr,
            final(self).gdt == old(self).gdt,
            final(self).selectors == old(self).selectors,
            final(self).tss == old(self).tss,
            final(self).exit_status == old(self).exit_status,
            old(self).idt->0.double_fault_bound() ==> ({
                &&& o == Outcome::Halt
                &&& final(self).halted
                &&& final(self).fatal_diagnostic
                &&& final(self).pics == old(self).pics
                &&& final(self).screen_state() == spec_write_chars(
                    old(self).screen_state(),
                    "EXCEPTION: DOUBLE FAULT\n"@,
                )
            }),
            old(self).idt->0.entries_seq()[DOUBLE_FAULT_VECTOR as int] is None ==> ({
                &&& o == Outcome::Reset
                &&& *final(self) == *old(self)
            }),
    {
        let df = match &self.idt {
            Some(t) => t.entry(crate::interrupts::DOUBLE_FAULT_VECTOR),
            None => None,
        };
        self.double_fault(df, stack_ok)
    }

    /// One hardware timer tick arriving at the controller chain: it is
    /// delivered exactly when no acknowledgment is outstanding on its
    /// line, and a delivered tick is serviced and acknowledged, leaving
    /// the line open for the next — so ticks keep flowing if and only if
    /// each one is acknowledged.
    pub fn timer_interrupt(&mut self, ip: u64) -> (delivered: bool)
        requires
            old(self).wf(),
            old(self).idt is Some,
            old(self).idt->0.wf(),
            old(self).idt->0.entries_seq()[interrupt_vector(InterruptIndex::Timer) as int]
                == Some(
                IdtEntry { handler: HandlerKind::Timer, diverges: false, stack_index: None },
            ),
        ensures
            final(self).wf(),
            final(self).idt == old(self).idt,
            delivered == old(self).pics.can_deliver(interrupt_vector(InterruptIndex::Timer)),
            !delivered ==> *final(self) == *old(self),
            delivered ==> ({
                &&& final(self).pics.in_service_seq() =~= old(self).pics.in_service_seq()
                &&& final(self).screen_state() == spec_write_chars(old(self).screen_state(), "."@)
                &&& final(self).halted == old(self).halted
                &&& final(self).fatal_diagnostic == old(self).fatal_diagnostic
                &&& final(self).exit_status == old(self).exit_status
            }),
    {
        let vector = InterruptIndex::Timer.as_u8();
        let delivered = self.pics.try_deliver(vector);
        let ghost mid = *self;
        if delivered {
            let _resumed = self.dispatch(vector, ip, true);
            proof {
                let line = old(self).pics.line_of(vector);
                assert(!old(self).pics.in_service_seq()[line]);
                assert(mid.pics.in_service_seq() == old(self).pics.in_service_seq().update(
                    line,
                    true,
                ));
                assert(self.pics.in_service_seq() == mid.pics.in_service_seq().update(
                    line,
                    false,
                ));
                assert(self.pics.in_service_seq() =~= old(self).pics.in_service_seq());
            }
        }
        delivered
    }

    /// Composes the whole setup in leaf-first order: descriptor tables
    /// with the double-fault stack, then the vector table, which depends
    /// on the reserved stack slot being in place.
    pub fn init(&mut self, double_fault_stack_base: u64, tss_addr: u64)
        requires
            old(self).wf(),
            double_fault_stack_base % 16 == 0,
            double_fault_stack_base + crate::gdt::DOUBLE_FAULT_STACK_SIZE <= u64::MAX,
        ensures
            final(self).wf(),
            final(self).inited(),
            final(self).selectors == Some(
                crate::gdt::Selectors { code_selector: 8u16, tss_selector: 16u16 },
            ),
            final(self).tss->0.ist()[crate::gdt::DOUBLE_FAULT_IST_INDEX as int]
                == double_fault_stack_base + crate::gdt::DOUBLE_FAULT_STACK_SIZE,
            double_fault_stack_base <= final(self).tss->0.ist()[
                crate::gdt::DOUBLE_FAULT_IST_INDEX as int
            ] <= double_fault_stack_base + crate::gdt::DOUBLE_FAULT_STACK_SIZE,
            final(self).screen == old(self).screen,
            final(self).pics == old(self).pics,
            final(self).halted == old(self).halted,
            final(self).exit_status == old(self).exit_status,
            final(self).fatal_diagnostic == old(self).fatal_diagnostic,
    {
        crate::gdt::init(self, double_fault_stack_base, tss_addr);
        crate::interrupts::init(self);
    }

    /// Everything `init` establishes: the active code-segment selector
    /// equals the table's installed code selector, the task register
    /// holds the task-state selector, the reserved stack slot is a
    /// 16-byte-aligned address, and a complete vector table is loaded.
    pub open spec fn inited(&self) -> bool {
        &&& self.gdt is Some
        &&& self.selectors is Some
        &&& self.cs == self.selectors->0.code_selector
        &&& self.tr == self.selectors->0.tss_selector
        &&& self.tss is Some
        &&& self.tss->0.wf()
        &&& self.tss->0.ist()[crate::gdt::DOUBLE_FAULT_IST_INDEX as int] % 16 == 0
        &&& self.idt is Some
        &&& self.idt->0.loadable()
        &&& self.idt->0.entries_seq()[interrupt_vector(InterruptIndex::Timer) as int] == Some(
            IdtEntry { handler: HandlerKind::Timer, diverges: false, stack_index: None },
        )
    }
}

} // verus!
