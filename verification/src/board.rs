//! Board assembly: the interrupt controller and the serial device wired to
//! their fixed addresses on one bus, with the serial device as interrupt
//! source `SERIAL_IRQ`. The board offers the three entry points the
//! surrounding program drives: MMIO handling on the trap path, the
//! interrupt poll before resuming the guest, and the console mailbox for
//! the background delivery thread.

use vstd::prelude::*;

use crate::device::bank_step;
use crate::device::bank_step_from;
use crate::device::in_range;
use crate::device::plic_of;
use crate::device::uart_of;
use crate::device::device_step;
use crate::device::BankEntry;
use crate::device::BoardDevice;
use crate::device::DeviceView;
use crate::device::MMIOAccess;
use crate::device::MMIOBank;
use crate::device::MMIOResult;
use crate::plic::plic_reset;
use crate::plic::plic_step;
use crate::plic::recompute;
use crate::plic::PlicView;
use crate::plic::PLIC;
use crate::plic::VS_CONTEXT;
use crate::serial::can_accept;
use crate::serial::notified;
use crate::serial::ConsoleState;
use crate::serial::SingleCharBufferedConsole;
use crate::uart16650::uart_step;
use crate::uart16650::Uart16650;
use crate::uart16650::UartView;

verus! {

/// The serial device's interrupt source id.
pub const SERIAL_IRQ: usize = 10;

/// Base address of the serial device's MMIO region.
pub const SERIAL_MMIO: usize = 0x1000000;

/// Base address of the interrupt controller's MMIO region.
pub const PLIC_MMIO: usize = 0xc000000;

/// Mathematical state of the wired board.
pub ghost struct BoardView {
    pub plic: PlicView,
    pub uart: UartView,
}

/// The live interrupt lines the board presents to the controller: the
/// serial device's line, on its source id, and nothing else.
pub open spec fn board_lines(v: BoardView) -> u32 {
    if v.uart.intr_enabled && v.uart.console.buffered is Some {
        1u32 << (SERIAL_IRQ as u32)
    } else {
        0u32
    }
}

/// What one access does to the board: the controller and the serial device
/// sit at disjoint fixed ranges, anything else is nobody's.
pub open spec fn board_step(v: BoardView, offset: usize, access: MMIOAccess) -> (
    BoardView,
    MMIOResult,
) {
    if PLIC_MMIO <= offset < PLIC_MMIO + 0x4000000 {
        let s = plic_step(v.plic, (offset - PLIC_MMIO) as usize, access);
        (BoardView { plic: s.0, ..v }, s.1)
    } else if SERIAL_MMIO <= offset < SERIAL_MMIO + 256 {
        let s = uart_step(v.uart, (offset - SERIAL_MMIO) as usize, access);
        (BoardView { uart: s.0, ..v }, s.1)
    } else {
        (v, MMIOResult::NotMine)
    }
}

/// The wired board: the bus with the controller first and the serial
/// device second, as assembled by `rcore_on_rcore`.
pub struct Board {
    bank: MMIOBank,
}

impl View for Board {
    type V = BoardView;

    closed spec fn view(&self) -> BoardView {
        BoardView { plic: plic_of(self.bank@[0].device), uart: uart_of(self.bank@[1].device) }
    }
}

impl Board {
    /// The wiring invariant: the controller is the first binding at its
    /// base, the serial device the second at its base, the controller's
    /// shape is the fixed one-group, two-context fabric, and its static
    /// source map holds exactly the serial line.
    pub closed spec fn wf(&self) -> bool {
        &&& self.bank@.len() == 2
        &&& self.bank@[0].base == PLIC_MMIO
        &&& self.bank@[0].device is Plic
        &&& self.bank@[1].base == SERIAL_MMIO
        &&& self.bank@[1].device is Uart
        &&& self@.plic.contexts.len() == 2
        &&& self@.plic.priority.len() == 32
        &&& self@.plic.sources == (1u32 << (SERIAL_IRQ as u32))
    }

    /// Routes a guest access through the bus: first match by insertion
    /// order, offset rebased to the owning device.
    pub fn handle_mmio(&mut self, offset: usize, access: MMIOAccess) -> (r: MMIOResult)
        requires
            old(self).wf(),
        ensures
            final(self).wf(),
            final(self)@ == board_step(old(self)@, offset, access).0,
            r == board_step(old(self)@, offset, access).1,
    {
        let ghost devs = self.bank@;
        let r = self.bank.handle_mmio(offset, access);
        proof {
            if PLIC_MMIO <= offset < PLIC_MMIO + 0x4000000 {
                assert(in_range(devs[0], offset));
                let st = device_step(devs[0].device, (offset - PLIC_MMIO) as usize, access);
                assert(st.1 != MMIOResult::NotMine);
                assert(bank_step(devs, offset, access) == (
                    devs.update(0, BankEntry { base: PLIC_MMIO, device: st.0 }),
                    st.1,
                ));
            } else if SERIAL_MMIO <= offset < SERIAL_MMIO + 256 {
                assert(!in_range(devs[0], offset));
                assert(in_range(devs[1], offset));
                let st = device_step(devs[1].device, (offset - SERIAL_MMIO) as usize, access);
                assert(st.1 != MMIOResult::NotMine);
                assert(bank_step_from(devs, 1, offset, access) == (
                    devs.update(1, BankEntry { base: SERIAL_MMIO, device: st.0 }),
                    st.1,
                ));
                assert(bank_step(devs, offset, access) == bank_step_from(devs, 1, offset, access));
            } else {
                assert(!in_range(devs[0], offset));
                assert(!in_range(devs[1], offset));
                assert(bank_step_from(devs, 2, offset, access) == (devs, MMIOResult::NotMine));
                assert(bank_step_from(devs, 1, offset, access) == bank_step_from(
                    devs,
                    2,
                    offset,
                    access,
                ));
                assert(bank_step(devs, offset, access) == bank_step_from(devs, 1, offset, access));
            }
        }
        r
    }

    /// Polls the serial device's interrupt line, recomputes the supervisor
    /// context's pending and EIP state from it, and reports the latch: the
    /// query the main loop makes before resuming the guest.
    pub fn has_interrupt(&mut self) -> (r: bool)
        requires
            old(self).wf(),
        ensures
            final(self).wf(),
            final(self)@ == (BoardView {
                plic: recompute(old(self)@.plic, VS_CONTEXT as int, board_lines(old(self)@)),
                ..old(self)@
            }),
            r == final(self)@.plic.contexts[VS_CONTEXT as int].eip,
    {
        let asserting = match &self.bank.devices[1].device {
            BoardDevice::Uart(u) => u.has_interrupt(),
            _ => false,
        };
        let lines: u32 = if asserting {
            1u32 << (SERIAL_IRQ as u32)
        } else {
            0u32
        };
        let mut desc = self.bank.devices.remove(0);
        let r = match &mut desc.device {
            BoardDevice::Plic(p) => p.has_interrupt(lines),
            _ => false,
        };
        self.bank.devices.insert(0, desc);
        proof {
            assert(self.bank@ =~= old(self).bank@.update(
                0,
                BankEntry { base: PLIC_MMIO, device: self.bank@[0].device },
            ));
        }
        r
    }

    /// Producer entry point: delivers one byte into the serial console's
    /// mailbox. The caller must hold off while the mailbox is occupied and
    /// the bridge open (see `can_notify`).
    pub fn notify_char(&mut self, chr: u8)
        requires
            old(self).wf(),
            can_accept(old(self)@.uart.console),
        ensures
            final(self).wf(),
            final(self)@ == (BoardView {
                uart: UartView {
                    console: notified(old(self)@.uart.console, chr),
                    ..old(self)@.uart
                },
                ..old(self)@
            }),
    {
        let mut desc = self.bank.devices.remove(1);
        match &mut desc.device {
            BoardDevice::Uart(u) => u.notify_char(chr),
            _ => {},
        }
        self.bank.devices.insert(1, desc);
        proof {
            assert(self.bank@ =~= old(self).bank@.update(
                1,
                BankEntry { base: SERIAL_MMIO, device: self.bank@[1].device },
            ));
        }
    }

    /// Whether the console mailbox can accept a delivery right now; the
    /// background thread polls this before `notify_char`.
    pub fn can_notify(&self) -> (r: bool)
        requires
            self.wf(),
        ensures
            r == can_accept(self@.uart.console),
    {
        match &self.bank.devices[1].device {
            BoardDevice::Uart(u) => u.can_notify(),
            _ => false,
        }
    }

    /// Queues one byte on the console's write path (the guest's console
    /// output).
    pub fn write_byte(&mut self, chr: u8)
        requires
            old(self).wf(),
        ensures
            final(self).wf(),
            final(self)@ == (BoardView {
                uart: UartView {
                    console: ConsoleState {
                        output: old(self)@.uart.console.output.push(chr),
                        ..old(self)@.uart.console
                    },
                    ..old(self)@.uart
                },
                ..old(self)@
            }),
    {
        let mut desc = self.bank.devices.remove(1);
        match &mut desc.device {
            BoardDevice::Uart(u) => u.write_byte(chr),
            _ => {},
        }
        self.bank.devices.insert(1, desc);
        proof {
            assert(self.bank@ =~= old(self).bank@.update(
                1,
                BankEntry { base: SERIAL_MMIO, device: self.bank@[1].device },
            ));
        }
    }

    /// Hands the queued console output to the caller, emptying the queue.
    pub fn take_output(&mut self) -> (r: Vec<u8>)
        requires
            old(self).wf(),
        ensures
            final(self).wf(),
            r@ == old(self)@.uart.console.output,
            final(self)@ == (BoardView {
                uart: UartView {
                    console: ConsoleState { output: Seq::<u8>::empty(), ..old(self)@.uart.console },
                    ..old(self)@.uart
                },
                ..old(self)@
            }),
    {
        let mut desc = self.bank.devices.remove(1);
        let r = match &mut desc.device {
            BoardDevice::Uart(u) => u.take_output(),
            _ => Vec::new(),
        };
        self.bank.devices.insert(1, desc);
        proof {
            assert(self.bank@ =~= old(self).bank@.update(
                1,
                BankEntry { base: SERIAL_MMIO, device: self.bank@[1].device },
            ));
        }
        r
    }

    /// Teardown: closes the console bridge, releasing a producer that is
    /// waiting on an occupied mailbox.
    pub fn close_console(&mut self)
        requires
            old(self).wf(),
        ensures
            final(self).wf(),
            final(self)@ == (BoardView {
                uart: UartView {
                    console: ConsoleState { closed: true, ..old(self)@.uart.console },
                    ..old(self)@.uart
                },
                ..old(self)@
            }),
    {
        let mut desc = self.bank.devices.remove(1);
        match &mut desc.device {
            BoardDevice::Uart(u) => u.close_console(),
            _ => {},
        }
        self.bank.devices.insert(1, desc);
        proof {
            assert(self.bank@ =~= old(self).bank@.update(
                1,
                BankEntry { base: SERIAL_MMIO, device: self.bank@[1].device },
            ));
        }
    }
}

/// Wires the board: the interrupt controller at `PLIC_MMIO` with the
/// serial device registered as source `SERIAL_IRQ`, and the serial device
/// at `SERIAL_MMIO` over `console`. The controller comes up reset; the
/// serial device comes up with its receive interrupt disabled.
pub fn rcore_on_rcore(console: SingleCharBufferedConsole) -> (r: Board)
    ensures
        r.wf(),
        plic_reset(r@.plic, (1u32 << (SERIAL_IRQ as u32))),
        r@.uart == (UartView { intr_enabled: false, console: console@ }),
{
    let uart = Uart16650::new(console);
    let plic = PLIC::new(1u32 << (SERIAL_IRQ as u32));
    let mut bank = MMIOBank::new();
    bank.add_device(PLIC_MMIO, BoardDevice::Plic(plic));
    bank.add_device(SERIAL_MMIO, BoardDevice::Uart(uart));
    Board { bank }
}

} // verus!
