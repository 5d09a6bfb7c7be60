//! Device-emulation core of a virtual-machine monitor: a platform-level
//! interrupt controller (PLIC), a 16650-style UART, the MMIO bus that routes
//! guest accesses to them, and the one-slot console mailbox that adapts a
//! blocking byte source to the non-blocking, interrupt-raising semantics a
//! guest driver expects.

pub mod bits;
pub mod board;
pub mod device;
pub mod plic;
pub mod serial;
pub mod uart16650;
