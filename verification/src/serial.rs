//! Serial driver logic for a UART at a fixed I/O base.
//!
//! The device is six consecutive one-byte registers. Configuration is a
//! fixed write sequence — divisor-latch baud rate, 8-N-1 framing, FIFO
//! enablement with its trigger level, and the modem-control ready and
//! request lines together with the auxiliary output that gates the
//! interrupt line — performed once at init. Each data byte may be written
//! only after the line status reports the transmit holding register
//! empty: no buffering, strictly sequential, ASCII only. This module
//! computes the register addresses, the configuration writes, the
//! readiness decision and the transmitted bytes; the port accesses
//! themselves are performed outside this library.
use crate::vga::encode_char;
use vstd::prelude::*;

verus! {

/// The conventional base address of the first serial port.
pub const COM1: u16 = 0x3F8;

/// Line-status bit: the transmit holding register is empty.
pub const TRANSMIT_EMPTY: u8 = 0x20;

/// The UART's registers, as offsets from the base port.
#[derive(Clone, Copy, PartialEq, Eq, Structural, Debug)]
pub enum Register {
    Data,
    IntEn,
    FifoCtrl,
    LineCtrl,
    ModemCtrl,
    LineStatus,
}

/// Each register's offset from the base port.
pub open spec fn register_offset(r: Register) -> u16 {
    match r {
        Register::Data => 0,
        Register::IntEn => 1,
        Register::FifoCtrl => 2,
        Register::LineCtrl => 3,
        Register::ModemCtrl => 4,
        Register::LineStatus => 5,
    }
}

impl Register {
    /// The offset from the base port.
    pub fn offset(self) -> (o: u16)
        ensures
            o == register_offset(self),
            o <= 5,
    {
        match self {
            Register::Data => 0,
            Register::IntEn => 1,
            Register::FifoCtrl => 2,
            Register::LineCtrl => 3,
            Register::ModemCtrl => 4,
            Register::LineStatus => 5,
        }
    }
}

/// Serial driver state: the base I/O port address its six registers
/// follow.
pub struct SerialPort {
    base: u16,
}

impl SerialPort {
    /// The base I/O port address.
    pub closed spec fn spec_base(&self) -> u16 {
        self.base
    }

    /// All six registers fit the port space.
    pub open spec fn wf(&self) -> bool {
        self.spec_base() <= 0xFFFA
    }

    /// A port handle for the first serial port.
    pub fn new() -> (p: SerialPort)
        ensures
            p.wf(),
            p.spec_base() == COM1,
    {
        SerialPort { base: COM1 }
    }

    /// The I/O port of one register.
    pub fn port(&self, reg: Register) -> (p: u16)
        requires
            self.wf(),
        ensures
            p == self.spec_base() + register_offset(reg),
    {
        self.base + reg.offset()
    }

    /// The configuration writes init performs, in order: interrupts off;
    /// divisor latch opened; the baud divisor's low byte set to 1 and its
    /// high byte to 0; the latch closed again by the 8-N-1 framing write;
    /// FIFO enabled with its trigger level; and modem control asserting
    /// DTR, RTS and the auxiliary output that gates the interrupt line.
    pub fn init_sequence(&self) -> (writes: Vec<(u16, u8)>)
        requires
            self.wf(),
        ensures
            writes@ =~= seq![
                ((self.spec_base() + 1) as u16, 0x00u8),
                ((self.spec_base() + 3) as u16, 0x80u8),
                (self.spec_base(), 0x01u8),
                ((self.spec_base() + 1) as u16, 0x00u8),
                ((self.spec_base() + 3) as u16, 0x03u8),
                ((self.spec_base() + 2) as u16, 0xC7u8),
                ((self.spec_base() + 4) as u16, 0x0Bu8),
            ],
    {
        let mut writes: Vec<(u16, u8)> = Vec::new();
        writes.push((self.port(Register::IntEn), 0x00));
        writes.push((self.port(Register::LineCtrl), 0x80));
        writes.push((self.port(Register::Data), 0x01));
        writes.push((self.port(Register::IntEn), 0x00));
        writes.push((self.port(Register::LineCtrl), 0x03));
        writes.push((self.port(Register::FifoCtrl), 0xC7));
        writes.push((self.port(Register::ModemCtrl), 0x0B));
        writes
    }

    /// The busy-wait decision before each data byte: whether a
    /// line-status reading says the transmit holding register is empty,
    /// so the next byte may be written.
    pub fn is_transmit_empty(&self, line_status: u8) -> (ready: bool)
        ensures
            ready == (line_status & TRANSMIT_EMPTY != 0),
    {
        line_status & TRANSMIT_EMPTY != 0
    }

    /// The single port write that transmits one byte, valid only once
    /// the readiness bit was observed.
    pub fn data_write(&self, byte: u8) -> (w: (u16, u8))
        requires
            self.wf(),
        ensures
            w == (self.spec_base(), byte),
    {
        (self.port(Register::Data), byte)
    }
}

/// The bytes a string is transmitted as: each ASCII character as itself,
/// anything else as the fixed placeholder glyph.
pub open spec fn encoded_bytes(cs: Seq<char>) -> Seq<u8> {
    Seq::new(cs.len(), |i: int| encode_char(cs[i]))
}

/// Encodes a string for transmission, character by character.
pub fn encode_str(s: &str) -> (bytes: Vec<u8>)
    ensures
        bytes@ =~= encoded_bytes(s@),
{
    let n = s.unicode_len();
    let mut bytes: Vec<u8> = Vec::new();
    let mut i: usize = 0;
    while i < n
        invariant
            i <= n,
            n == s@.len(),
            bytes@.len() == i,
            forall|j: int| 0 <= j < i ==> bytes@[j] == encode_char(s@[j]),
        decreases n - i,
    {
        let c = s.get_char(i);
        let u = c as u32;
        let b: u8 = if u < 128 {
            u as u8
        } else {
            254
        };
        bytes.push(b);
        i = i + 1;
    }
    bytes
}

} // verus!
