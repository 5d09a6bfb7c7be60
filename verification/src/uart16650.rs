//! A 16650-style serial device: byte-addressed registers over a console
//! bridge, just enough for a guest driver. Loads from the data register pop
//! the mailbox; the line-status register reports "transmit ready" always and
//! "data ready" while a byte is buffered; the interrupt-enable register
//! records only the receive-data-interrupt bit. Every other legacy register
//! accepts reads and writes as no-ops returning 0. Any access wider than one
//! byte is malformed.

use vstd::prelude::*;

use crate::device::Device;
use crate::device::MMIOAccess;
use crate::device::MMIOResult;
use crate::serial::can_accept;
use crate::serial::notified;
use crate::serial::popped;
use crate::serial::Console;
use crate::serial::ConsoleState;
use crate::serial::SingleCharBufferedConsole;

verus! {

pub const COM_RX: usize = 0;  // In:  receive buffer (DLAB=0)
pub const COM_TX: usize = 0;  // Out: transmit buffer (DLAB=0)
pub const COM_DLL: usize = 0;  // Out: divisor latch low (DLAB=1)
pub const COM_DLM: usize = 1;  // Out: divisor latch high (DLAB=1)
pub const COM_IER: usize = 1;  // Out: interrupt enable register
pub const COM_IER_RDI: u8 = 0x01;  // enable receiver data interrupt
pub const COM_IIR: usize = 2;  // In:  interrupt id register
pub const COM_FCR: usize = 2;  // Out: FIFO control register
pub const COM_LCR: usize = 3;  // Out: line control register
pub const COM_LCR_DLAB: u8 = 0x80;  // divisor latch access bit
pub const COM_LCR_WLEN8: u8 = 0x03;  // word length: 8 bits
pub const COM_MCR: usize = 4;  // Out: modem control register
pub const COM_MCR_RTS: u8 = 0x02;  // RTS complement
pub const COM_MCR_DTR: u8 = 0x01;  // DTR complement
pub const COM_MCR_OUT2: u8 = 0x08;  // Out2 complement
pub const COM_LSR: usize = 5;  // In:  line status register
pub const COM_LSR_DATA: u8 = 0x01;  // data available
pub const COM_LSR_TXRDY: u8 = 0x20;  // transmit buffer available
pub const COM_LSR_TSRE: u8 = 0x40;  // transmitter off
pub const MULTIPLIER: usize = 1;  // register stride in bytes

/// Mathematical state of the serial device: the receive-interrupt-enable
/// flag and the console bridge behind it.
pub ghost struct UartView {
    pub intr_enabled: bool,
    pub console: ConsoleState,
}

/// The value a load of the data register returns: the buffered byte, or 0
/// when none is buffered (absence is not an error and never blocks).
pub open spec fn rx_value(v: UartView) -> u8 {
    match v.console.buffered {
        Some(b) => b,
        None => 0,
    }
}

/// The value a load of the line-status register returns: transmit always
/// ready, data ready iff a byte is buffered (a peek; nothing is consumed).
pub open spec fn lsr_value(v: UartView) -> u8 {
    if v.console.buffered is Some {
        COM_LSR_TXRDY | COM_LSR_DATA
    } else {
        COM_LSR_TXRDY
    }
}

/// What one access does to the serial device: the state after the access
/// and the outcome reported to the bus.
pub open spec fn uart_step(v: UartView, offset: usize, access: MMIOAccess) -> (UartView, MMIOResult) {
    match access {
        MMIOAccess::LoadByte => {
            if offset == COM_RX {
                (
                    UartView { console: popped(v.console), ..v },
                    MMIOResult::Handled(rx_value(v) as u64),
                )
            } else if offset == COM_LSR {
                (v, MMIOResult::Handled(lsr_value(v) as u64))
            } else {
                (v, MMIOResult::Handled(0))
            }
        },
        MMIOAccess::StoreByte(val) => {
            if offset == COM_TX {
                (
                    UartView {
                        console: ConsoleState { output: v.console.output.push(val), ..v.console },
                        ..v
                    },
                    MMIOResult::Handled(0),
                )
            } else if offset == COM_IER {
                (UartView { intr_enabled: (val & COM_IER_RDI) != 0, ..v }, MMIOResult::Handled(0))
            } else {
                (v, MMIOResult::Handled(0))
            }
        },
        _ => (v, MMIOResult::Malformed),
    }
}

/// Simple serial emulation: one console bridge, one receive-interrupt flag.
pub struct Uart16650 {
    console: SingleCharBufferedConsole,
    intr_enabled: bool,
}

impl View for Uart16650 {
    type V = UartView;

    closed spec fn view(&self) -> UartView {
        UartView { intr_enabled: self.intr_enabled, console: self.console@ }
    }
}

impl Uart16650 {
    /// A serial device over `console`, receive interrupt disabled.
    pub fn new(console: SingleCharBufferedConsole) -> (r: Self)
        ensures
            r@ == (UartView { intr_enabled: false, console: console@ }),
    {
        Uart16650 { console, intr_enabled: false }
    }

    /// Handles a byte access per the register map; any wider access is
    /// malformed. Never returns `NotMine`: unknown byte registers are
    /// explicitly ignored, which is distinct from malformed.
    pub fn handle_mmio(&mut self, offset: usize, access: MMIOAccess) -> (r: MMIOResult)
        ensures
            final(self)@ == uart_step(old(self)@, offset, access).0,
            r == uart_step(old(self)@, offset, access).1,
    {
        match access {
            MMIOAccess::LoadByte => {
                if offset == COM_RX {
                    let b = match self.console.try_read(true) {
                        Some(x) => x,
                        None => 0,
                    };
                    MMIOResult::Handled(b as u64)
                } else if offset == COM_LSR {
                    let mut x = COM_LSR_TXRDY;
                    if self.console.peek().is_some() {
                        x = x | COM_LSR_DATA;
                    }
                    MMIOResult::Handled(x as u64)
                } else {
                    MMIOResult::Handled(0)
                }
            },
            MMIOAccess::StoreByte(val) => {
                if offset == COM_TX {
                    self.console.write(val);
                } else if offset == COM_IER {
                    self.intr_enabled = (val & COM_IER_RDI) != 0;
                }
                MMIOResult::Handled(0)
            },
            _ => MMIOResult::Malformed,
        }
    }

    /// The size of the serial MMIO region.
    pub fn mmio_region_size(&self) -> (r: usize)
        ensures
            r == 256,
    {
        256
    }

    /// Level-triggered interrupt line: asserted iff the receive interrupt
    /// is enabled and a byte is buffered; re-asserts on every query while
    /// unconsumed data remains.
    pub fn has_interrupt(&self) -> (r: bool)
        ensures
            r == (self@.intr_enabled && self@.console.buffered is Some),
    {
        if self.intr_enabled {
            self.console.peek().is_some()
        } else {
            false
        }
    }

    /// Producer entry point: delivers one byte into the console mailbox.
    pub fn notify_char(&mut self, chr: u8)
        requires
            can_accept(old(self)@.console),
        ensures
            final(self)@ == (UartView {
                console: notified(old(self)@.console, chr),
                ..old(self)@
            }),
    {
        self.console.notify_char(chr);
    }

    /// Whether the console mailbox can accept a delivery right now.
    pub fn can_notify(&self) -> (r: bool)
        ensures
            r == can_accept(self@.console),
    {
        self.console.can_notify()
    }

    /// Queues one byte on the console's write path.
    pub fn write_byte(&mut self, chr: u8)
        ensures
            final(self)@ == (UartView {
                console: ConsoleState {
                    output: old(self)@.console.output.push(chr),
                    ..old(self)@.console
                },
                ..old(self)@
            }),
    {
        self.console.write(chr);
    }

    /// Closes the console bridge, releasing a waiting producer.
    pub fn close_console(&mut self)
        ensures
            final(self)@ == (UartView {
                console: ConsoleState { closed: true, ..old(self)@.console },
                ..old(self)@
            }),
    {
        self.console.close();
    }

    /// Hands the queued console output to the caller, emptying the queue.
    pub fn take_output(&mut self) -> (r: Vec<u8>)
        ensures
            r@ == old(self)@.console.output,
            final(self)@ == (UartView {
                console: ConsoleState { output: Seq::<u8>::empty(), ..old(self)@.console },
                ..old(self)@
            }),
    {
        self.console.take_output()
    }
}

impl Device for Uart16650 {
    fn handle_mmio(&mut self, offset: usize, access: MMIOAccess) -> MMIOResult {
        self.handle_mmio(offset, access)
    }

    fn mmio_region_size(&self) -> usize {
        self.mmio_region_size()
    }

    fn has_interrupt(&self) -> bool {
        self.has_interrupt()
    }
}

} // verus!
