use kleinos::gdt::DOUBLE_FAULT_IST_INDEX;
use kleinos::interrupts::{
    ChainedPics, HandlerKind, Idt, IdtEntry, InterruptIndex, BREAKPOINT_VECTOR,
    DOUBLE_FAULT_VECTOR, PIC_1_COMMAND_PORT, PIC_1_OFFSET, PIC_2_COMMAND_PORT, PIC_2_OFFSET,
};

#[test]
fn timer_vector_is_remapped_irq_zero() {
    assert_eq!(InterruptIndex::Timer.as_u8(), 32);
    assert_eq!(PIC_1_OFFSET, 32);
    assert_eq!(PIC_2_OFFSET, 40);
}

#[test]
fn built_table_binds_mandatory_slots() {
    let idt = Idt::build();
    let df = idt.entry(DOUBLE_FAULT_VECTOR).expect("double fault must be bound");
    assert_eq!(df.handler, HandlerKind::DoubleFault);
    assert!(df.diverges);
    assert_eq!(df.stack_index, Some(DOUBLE_FAULT_IST_INDEX));
    let bp = idt.entry(BREAKPOINT_VECTOR).expect("breakpoint must be bound");
    assert_eq!(bp.handler, HandlerKind::Breakpoint);
    assert!(!bp.diverges);
    assert_eq!(bp.stack_index, None);
    let timer = idt.entry(InterruptIndex::Timer.as_u8()).expect("timer must be bound");
    assert_eq!(timer.handler, HandlerKind::Timer);
}

#[test]
fn unused_slots_stay_unbound() {
    let idt = Idt::build();
    assert!(idt.entry(0).is_none());
    assert!(idt.entry(7).is_none());
    assert!(idt.entry(33).is_none());
    assert!(idt.entry(255).is_none());
}

#[test]
fn set_entry_binds_one_slot() {
    let mut idt = Idt::new();
    assert!(idt.entry(99).is_none());
    let entry = IdtEntry { handler: HandlerKind::Timer, diverges: false, stack_index: None };
    idt.set_entry(99, entry);
    assert_eq!(idt.entry(99), Some(entry));
    assert!(idt.entry(98).is_none());
}

#[test]
fn load_validation_demands_the_mandatory_slots() {
    // An empty table is inert and must fail the pre-load validation.
    let mut idt = Idt::new();
    assert!(!idt.check_loadable());
    // Breakpoint alone is not enough.
    idt.set_entry(
        BREAKPOINT_VECTOR,
        IdtEntry { handler: HandlerKind::Breakpoint, diverges: false, stack_index: None },
    );
    assert!(!idt.check_loadable());
    // A double-fault slot without the reserved stack does not pass.
    idt.set_entry(
        DOUBLE_FAULT_VECTOR,
        IdtEntry { handler: HandlerKind::DoubleFault, diverges: true, stack_index: None },
    );
    assert!(!idt.check_loadable());
    idt.set_entry(
        DOUBLE_FAULT_VECTOR,
        IdtEntry {
            handler: HandlerKind::DoubleFault,
            diverges: true,
            stack_index: Some(DOUBLE_FAULT_IST_INDEX),
        },
    );
    assert!(idt.check_loadable());
    assert!(Idt::build().check_loadable());
}

#[test]
fn controllers_cover_remapped_ranges_only() {
    let pics = ChainedPics::new(PIC_1_OFFSET, PIC_2_OFFSET);
    assert!(!pics.handles_interrupt(31));
    assert!(pics.handles_interrupt(32));
    assert!(pics.handles_interrupt(39));
    assert!(pics.handles_interrupt(40));
    assert!(pics.handles_interrupt(47));
    assert!(!pics.handles_interrupt(48));
    assert!(!pics.handles_interrupt(3));
}

#[test]
fn end_of_interrupt_addresses_the_right_controllers() {
    let pics = ChainedPics::new(PIC_1_OFFSET, PIC_2_OFFSET);
    // Master-range vector: master only.
    assert_eq!(pics.end_of_interrupt_ports(33), vec![PIC_1_COMMAND_PORT]);
    // Slave-range vector: slave first, then master, since slave lines are
    // chained through the master.
    assert_eq!(
        pics.end_of_interrupt_ports(44),
        vec![PIC_2_COMMAND_PORT, PIC_1_COMMAND_PORT]
    );
    // A vector neither controller owns is acknowledged nowhere.
    assert_eq!(pics.end_of_interrupt_ports(10), Vec::<u16>::new());
}

#[test]
fn delivery_blocked_only_while_unacknowledged() {
    let mut pics = ChainedPics::new(PIC_1_OFFSET, PIC_2_OFFSET);
    assert!(pics.try_deliver(35));
    assert!(!pics.try_deliver(35));
    // A different line is unaffected.
    assert!(pics.try_deliver(42));
    pics.notify_end_of_interrupt(35);
    assert!(pics.try_deliver(35));
    // The slave line is still awaiting its own acknowledgment.
    assert!(!pics.try_deliver(42));
}
