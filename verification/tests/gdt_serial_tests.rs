use kleinos::gdt::{
    build_tables, double_fault_stack_top, tss_with_double_fault_stack, DescriptorTable,
    SegmentDescriptor, DOUBLE_FAULT_IST_INDEX, DOUBLE_FAULT_STACK_SIZE, IST_ENTRIES,
};
use kleinos::serial::{encode_str, Register, SerialPort, COM1};

#[test]
fn table_appends_in_order_and_yields_selectors() {
    let (table, selectors) = build_tables(0xDEAD_0000);
    assert_eq!(table.len(), 2);
    assert_eq!(table.entry_at(0), SegmentDescriptor::KernelCode);
    assert_eq!(
        table.entry_at(1),
        SegmentDescriptor::TaskState { base: 0xDEAD_0000 }
    );
    // Null slot, then code at slot 1, then the two-slot task descriptor.
    assert_eq!(selectors.code_selector, 8);
    assert_eq!(selectors.tss_selector, 16);
}

#[test]
fn selectors_follow_slot_positions() {
    let mut table = DescriptorTable::new();
    let first = table.append(SegmentDescriptor::TaskState { base: 1 });
    let second = table.append(SegmentDescriptor::KernelCode);
    // The task descriptor takes slots 1 and 2, so the next lands at 3.
    assert_eq!(first, 8);
    assert_eq!(second, 24);
}

#[test]
fn double_fault_stack_top_is_aligned() {
    assert_eq!(DOUBLE_FAULT_STACK_SIZE, 4096 * 5);
    let top = double_fault_stack_top(0x100_0000);
    assert_eq!(top, 0x100_0000 + 4096 * 5);
    assert_eq!(top % 16, 0);
}

#[test]
fn tss_reserves_only_the_double_fault_slot() {
    let tss = tss_with_double_fault_stack(0x40_0000);
    let top = tss.ist_entry(DOUBLE_FAULT_IST_INDEX as usize);
    assert_eq!(top, 0x40_0000 + DOUBLE_FAULT_STACK_SIZE);
    for i in 1..IST_ENTRIES {
        assert_eq!(tss.ist_entry(i), 0);
    }
}

#[test]
fn serial_registers_sit_at_consecutive_ports() {
    let port = SerialPort::new();
    assert_eq!(port.port(Register::Data), COM1);
    assert_eq!(port.port(Register::IntEn), COM1 + 1);
    assert_eq!(port.port(Register::FifoCtrl), COM1 + 2);
    assert_eq!(port.port(Register::LineCtrl), COM1 + 3);
    assert_eq!(port.port(Register::ModemCtrl), COM1 + 4);
    assert_eq!(port.port(Register::LineStatus), COM1 + 5);
}

#[test]
fn init_sequence_configures_framing_fifo_and_modem() {
    let port = SerialPort::new();
    let writes = port.init_sequence();
    assert_eq!(
        writes,
        vec![
            (COM1 + 1, 0x00),
            (COM1 + 3, 0x80),
            (COM1, 0x01),
            (COM1 + 1, 0x00),
            (COM1 + 3, 0x03),
            (COM1 + 2, 0xC7),
            (COM1 + 4, 0x0B),
        ]
    );
}

#[test]
fn transmit_readiness_follows_the_status_bit() {
    let port = SerialPort::new();
    assert!(port.is_transmit_empty(0x20));
    assert!(port.is_transmit_empty(0xFF));
    assert!(!port.is_transmit_empty(0x00));
    assert!(!port.is_transmit_empty(0xDF));
}

#[test]
fn data_write_targets_the_data_register() {
    let port = SerialPort::new();
    assert_eq!(port.data_write(b'A'), (COM1, b'A'));
}

#[test]
fn encoding_substitutes_non_ascii() {
    assert_eq!(encode_str("Hi!"), vec![b'H', b'i', b'!']);
    assert_eq!(encode_str("héllo"), vec![b'h', 0xFE, b'l', b'l', b'o']);
    assert_eq!(encode_str(""), Vec::<u8>::new());
}
