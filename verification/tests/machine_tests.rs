use kleinos::gdt::{DOUBLE_FAULT_IST_INDEX, DOUBLE_FAULT_STACK_SIZE};
use kleinos::interrupts::{BREAKPOINT_VECTOR, DOUBLE_FAULT_VECTOR, InterruptIndex};
use kleinos::machine::{Machine, Outcome};
use kleinos::qemu::QemuExitCode;

const STACK_BASE: u64 = 0x10_0000;
const TSS_ADDR: u64 = 0x20_0000;

fn initialized_machine() -> Machine {
    let mut m = Machine::new();
    m.init(STACK_BASE, TSS_ADDR);
    m
}

#[test]
fn descriptor_setup_selectors_match() {
    let m = initialized_machine();
    let selectors = m.selectors.expect("init installs the selectors");
    // The active code-segment selector equals the installed code selector.
    assert_eq!(m.cs, selectors.code_selector);
    assert_eq!(m.tr, selectors.tss_selector);
    assert_eq!(selectors.code_selector, 8);
    assert_eq!(selectors.tss_selector, 16);
}

#[test]
fn descriptor_setup_double_fault_stack_aligned_and_in_region() {
    let m = initialized_machine();
    let tss = m.tss.as_ref().expect("init installs the task-state segment");
    let top = tss.ist_entry(DOUBLE_FAULT_IST_INDEX as usize);
    assert_eq!(top % 16, 0);
    assert!(STACK_BASE <= top && top <= STACK_BASE + DOUBLE_FAULT_STACK_SIZE);
    assert_eq!(top, STACK_BASE + DOUBLE_FAULT_STACK_SIZE);
}

#[test]
fn breakpoint_resumes_at_next_instruction() {
    let mut m = initialized_machine();
    let outcome = m.dispatch(BREAKPOINT_VECTOR, 0x1234, true);
    assert_eq!(outcome, Outcome::Resume { next_ip: 0x1234 });
    assert!(!m.halted);
    assert!(!m.fatal_diagnostic);
}

#[test]
fn double_fault_reaches_handler_not_reset() {
    // Force the double fault with the interrupted stack exhausted: the
    // reserved stack slot still carries the handler to a controlled halt.
    let mut m = initialized_machine();
    let outcome = m.dispatch(DOUBLE_FAULT_VECTOR, 0x1234, false);
    assert_eq!(outcome, Outcome::Halt);
    assert!(m.halted);
    assert!(m.fatal_diagnostic);
    // The harness then reports the controlled outcome as a success.
    m.qemu_exit(QemuExitCode::Success);
    assert_eq!(m.exit_status, Some(0x10));
}

#[test]
fn double_fault_without_dedicated_stack_resets() {
    let mut m = Machine::new();
    let mut idt = kleinos::interrupts::Idt::new();
    idt.set_entry(
        BREAKPOINT_VECTOR,
        kleinos::interrupts::IdtEntry {
            handler: kleinos::interrupts::HandlerKind::Breakpoint,
            diverges: false,
            stack_index: None,
        },
    );
    idt.set_entry(
        DOUBLE_FAULT_VECTOR,
        kleinos::interrupts::IdtEntry {
            handler: kleinos::interrupts::HandlerKind::DoubleFault,
            diverges: true,
            stack_index: None,
        },
    );
    m.load_idt(idt);
    // With no stack switch and the stack exhausted, entry faults again:
    // the unrecoverable CPU reset the reserved stack exists to prevent.
    let outcome = m.dispatch(DOUBLE_FAULT_VECTOR, 0, false);
    assert_eq!(outcome, Outcome::Reset);
    assert!(!m.halted);
}

#[test]
fn unbound_vector_escalates_to_the_double_fault_handler() {
    let mut m = initialized_machine();
    // A vector nothing was bound to faults while faulting; the bound
    // double-fault slot catches the escalation on its reserved stack.
    let outcome = m.dispatch(77, 0, true);
    assert_eq!(outcome, Outcome::Halt);
    assert!(m.halted);
    assert!(m.fatal_diagnostic);
    let guard = m.screen.try_lock().expect("the handler left the lock free");
    for (i, b) in "EXCEPTION: DOUBLE FAULT".bytes().enumerate() {
        assert_eq!(guard.get().read(1, i).character, b);
    }
    m.screen.unlock(guard);
}

#[test]
fn inert_table_escalates_to_reset() {
    let mut m = Machine::new();
    // An entirely unbound table is inert: any vector escalates, nothing
    // catches the double fault, and the CPU resets.
    m.idt = Some(kleinos::interrupts::Idt::new());
    let outcome = m.dispatch(77, 0, true);
    assert_eq!(outcome, Outcome::Reset);
    assert!(!m.halted);
    assert!(!m.fatal_diagnostic);
}

#[test]
fn timer_interrupt_serviced_and_acknowledged() {
    let mut m = initialized_machine();
    let first = m.timer_interrupt(0x40);
    assert!(first);
    // The handler's minimal work: one display write.
    let guard = m.screen.try_lock().expect("handlers leave the lock free");
    assert_eq!(guard.get().read(0, 0).character, b'.');
    m.screen.unlock(guard);
    // Exactly one acknowledgment went out, so the next tick is delivered.
    let second = m.timer_interrupt(0x40);
    assert!(second);
}

#[test]
fn unacknowledged_timer_line_stalls() {
    let mut m = initialized_machine();
    let vector = InterruptIndex::Timer.as_u8();
    // Deliver without servicing: the acknowledgment stays outstanding.
    assert!(m.pics.try_deliver(vector));
    // No further timer interrupt is observed until the acknowledgment.
    assert!(!m.pics.try_deliver(vector));
    assert!(!m.pics.try_deliver(vector));
    m.pics.notify_end_of_interrupt(vector);
    assert!(m.pics.try_deliver(vector));
}

#[test]
fn end_to_end_success_exit() {
    let mut m = Machine::new();
    m.init(STACK_BASE, TSS_ADDR);
    m.print_str("Hello, Rustaceans!");
    m.qemu_exit(QemuExitCode::Success);
    assert_eq!(m.exit_status, Some(0x10));
    assert!(m.halted);
    assert!(!m.fatal_diagnostic);
    let guard = m.screen.try_lock().expect("printing released the lock");
    for (i, b) in "Hello, Rustaceans!".bytes().enumerate() {
        assert_eq!(guard.get().read(0, i).character, b);
    }
    m.screen.unlock(guard);
}

#[test]
fn exit_codes_match_the_side_channel_protocol() {
    assert_eq!(QemuExitCode::Success.code(), 0x10);
    assert_eq!(QemuExitCode::Failure.code(), 0x11);
    assert_eq!(kleinos::qemu::QEMU_EXIT_PORT, 0xF4);
    let mut m = Machine::new();
    m.qemu_exit(QemuExitCode::Failure);
    assert_eq!(m.exit_status, Some(0x11));
    assert!(m.halted);
}

#[test]
fn breakpoint_logs_diagnostic_line() {
    let mut m = initialized_machine();
    m.dispatch(BREAKPOINT_VECTOR, 7, true);
    // The logged snapshot scrolled up as its line was completed.
    let guard = m.screen.try_lock().expect("handler left the lock free");
    for (i, b) in "EXCEPTION: BREAKPOINT".bytes().enumerate() {
        assert_eq!(guard.get().read(1, i).character, b);
    }
    m.screen.unlock(guard);
}
