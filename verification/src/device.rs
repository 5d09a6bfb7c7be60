//! The MMIO transaction types, the capability every emulated peripheral
//! implements, and the bus that routes a guest access to the owning device
//! by address range.

use vstd::prelude::*;

use crate::plic::plic_step;
use crate::plic::PlicView;
use crate::plic::PLIC;
use crate::uart16650::uart_step;
use crate::uart16650::Uart16650;
use crate::uart16650::UartView;

verus! {

/// One guest MMIO transaction, tagged with direction and width. A store
/// carries the value to write; a load carries nothing and receives the
/// loaded value through `MMIOResult::Handled`.
#[derive(Clone, Copy, PartialEq, Eq, Structural, Debug)]
pub enum MMIOAccess {
    StoreByte(u8),
    LoadByte,
    StoreHalf(u16),
    LoadHalf,
    StoreWord(u32),
    LoadWord,
    StoreDword(u64),
    LoadDword,
}

/// What a device made of an access. `Handled` carries the loaded value,
/// zero-extended to 64 bits (0 for a store). `NotMine` is a routing signal:
/// no register here, not an error. `Malformed` aborts the transaction and is
/// never retried against another device.
#[derive(Clone, Copy, PartialEq, Eq, Structural, Debug)]
pub enum MMIOResult {
    Handled(u64),
    NotMine,
    Malformed,
}

/// The capability every emulated peripheral offers the bus and the
/// interrupt fabric.
pub trait Device {
    /// Tries to handle an access at a device-relative offset.
    fn handle_mmio(&mut self, offset: usize, access: MMIOAccess) -> MMIOResult;

    /// The size of the device's MMIO region.
    fn mmio_region_size(&self) -> usize;

    /// Whether the device asserts its interrupt line right now.
    fn has_interrupt(&self) -> bool;
}

/// The transaction a trap packet's access description decodes to: width
/// 1, 2, 4 or 8 bytes, load or store, with the store data truncated to the
/// width; any other width is no access at all.
pub open spec fn spec_decode_mmio_access(access_size: u8, read: bool, data: u64) -> Option<
    MMIOAccess,
> {
    match (access_size, read) {
        (1, false) => Some(MMIOAccess::StoreByte(data as u8)),
        (2, false) => Some(MMIOAccess::StoreHalf(data as u16)),
        (4, false) => Some(MMIOAccess::StoreWord(data as u32)),
        (8, false) => Some(MMIOAccess::StoreDword(data)),
        (1, true) => Some(MMIOAccess::LoadByte),
        (2, true) => Some(MMIOAccess::LoadHalf),
        (4, true) => Some(MMIOAccess::LoadWord),
        (8, true) => Some(MMIOAccess::LoadDword),
        _ => None,
    }
}

/// Decodes the access description a trap packet carries into a
/// transaction for the bus.
pub fn decode_mmio_access(access_size: u8, read: bool, data: u64) -> (r: Option<MMIOAccess>)
    ensures
        r == spec_decode_mmio_access(access_size, read, data),
{
    match (access_size, read) {
        (1, false) => Some(MMIOAccess::StoreByte(data as u8)),
        (2, false) => Some(MMIOAccess::StoreHalf(data as u16)),
        (4, false) => Some(MMIOAccess::StoreWord(data as u32)),
        (8, false) => Some(MMIOAccess::StoreDword(data)),
        (1, true) => Some(MMIOAccess::LoadByte),
        (2, true) => Some(MMIOAccess::LoadHalf),
        (4, true) => Some(MMIOAccess::LoadWord),
        (8, true) => Some(MMIOAccess::LoadDword),
        _ => None,
    }
}

/// Mathematical state of a device on the bus.
pub ghost enum DeviceView {
    Plic(PlicView),
    Uart(UartView),
}

/// A peripheral of this board. The device set is fixed at build time, so
/// the bus holds this closed tagged union rather than a trait object.
pub enum BoardDevice {
    Plic(PLIC),
    Uart(Uart16650),
}

impl View for BoardDevice {
    type V = DeviceView;

    open spec fn view(&self) -> DeviceView {
        match self {
            BoardDevice::Plic(p) => DeviceView::Plic(p@),
            BoardDevice::Uart(u) => DeviceView::Uart(u@),
        }
    }
}

/// The size of a device's MMIO region.
pub open spec fn device_region_size(d: DeviceView) -> usize {
    match d {
        DeviceView::Plic(_) => 0x4000000,
        DeviceView::Uart(_) => 256,
    }
}

/// The controller state behind a device view (meaningful when the device
/// is the controller).
pub open spec fn plic_of(d: DeviceView) -> PlicView {
    match d {
        DeviceView::Plic(p) => p,
        _ => arbitrary(),
    }
}

/// The serial state behind a device view (meaningful when the device is
/// the serial device).
pub open spec fn uart_of(d: DeviceView) -> UartView {
    match d {
        DeviceView::Uart(u) => u,
        _ => arbitrary(),
    }
}

/// What one access does to a device on the bus.
pub open spec fn device_step(d: DeviceView, offset: usize, access: MMIOAccess) -> (
    DeviceView,
    MMIOResult,
) {
    match d {
        DeviceView::Plic(p) => {
            let s = plic_step(p, offset, access);
            (DeviceView::Plic(s.0), s.1)
        },
        DeviceView::Uart(u) => {
            let s = uart_step(u, offset, access);
            (DeviceView::Uart(s.0), s.1)
        },
    }
}

impl BoardDevice {
    /// Dispatches an access to the device behind the tag.
    pub fn handle_mmio(&mut self, offset: usize, access: MMIOAccess) -> (r: MMIOResult)
        ensures
            final(self)@ == device_step(old(self)@, offset, access).0,
            r == device_step(old(self)@, offset, access).1,
    {
        match self {
            BoardDevice::Plic(p) => p.handle_mmio(offset, access),
            BoardDevice::Uart(u) => u.handle_mmio(offset, access),
        }
    }

    /// The size of the device's MMIO region.
    pub fn mmio_region_size(&self) -> (r: usize)
        ensures
            r == device_region_size(self@),
    {
        match self {
            BoardDevice::Plic(p) => p.mmio_region_size(),
            BoardDevice::Uart(u) => u.mmio_region_size(),
        }
    }
}

/// One binding of the bus: a device and the base address of its region.
pub struct MMIODescription {
    pub base: usize,
    pub device: BoardDevice,
}

/// Mathematical state of one binding.
pub ghost struct BankEntry {
    pub base: usize,
    pub device: DeviceView,
}

/// Whether a binding's range contains the offset.
pub open spec fn in_range(e: BankEntry, offset: usize) -> bool {
    e.base <= offset < e.base + device_region_size(e.device)
}

/// The bus scan from binding `j` on: the next binding whose range contains
/// the offset is tried with a rebased offset; `Handled` and `Malformed` end
/// the scan (a malformed access is never retried against another device);
/// `NotMine` passes to the following bindings; running out of bindings
/// means `NotMine`.
pub open spec fn bank_step_from(
    devs: Seq<BankEntry>,
    j: int,
    offset: usize,
    access: MMIOAccess,
) -> (Seq<BankEntry>, MMIOResult)
    decreases devs.len() - j,
{
    if j < 0 || j >= devs.len() {
        (devs, MMIOResult::NotMine)
    } else if in_range(devs[j], offset) {
        let s = device_step(devs[j].device, (offset - devs[j].base) as usize, access);
        let devs2 = devs.update(j, BankEntry { base: devs[j].base, device: s.0 });
        if s.1 == MMIOResult::NotMine {
            bank_step_from(devs2, j + 1, offset, access)
        } else {
            (devs2, s.1)
        }
    } else {
        bank_step_from(devs, j + 1, offset, access)
    }
}

/// What one access does to the whole bus: first match wins by insertion
/// order.
pub open spec fn bank_step(devs: Seq<BankEntry>, offset: usize, access: MMIOAccess) -> (
    Seq<BankEntry>,
    MMIOResult,
) {
    bank_step_from(devs, 0, offset, access)
}

/// The MMIO bus: an ordered list of (base, device) bindings, scanned in
/// insertion order with no overlap validation.
pub struct MMIOBank {
    pub devices: Vec<MMIODescription>,
}

impl View for MMIOBank {
    type V = Seq<BankEntry>;

    open spec fn view(&self) -> Seq<BankEntry> {
        Seq::new(
            self.devices@.len(),
            |i: int| BankEntry { base: self.devices@[i].base, device: self.devices@[i].device@ },
        )
    }
}

impl MMIOBank {
    /// An empty bus.
    pub fn new() -> (r: Self)
        ensures
            r@ == Seq::<BankEntry>::empty(),
    {
        let r = MMIOBank { devices: Vec::new() };
        proof {
            assert(r@ =~= Seq::<BankEntry>::empty());
        }
        r
    }

    /// Appends a binding; later lookups try it after everything added
    /// before it.
    pub fn add_device(&mut self, base: usize, device: BoardDevice)
        ensures
            final(self)@ == old(self)@.push(BankEntry { base: base, device: device@ }),
    {
        let ghost dv = device@;
        self.devices.push(MMIODescription { base, device });
        proof {
            assert(self@ =~= old(self)@.push(BankEntry { base: base, device: dv }));
        }
    }

    /// Routes an access: scans the bindings in order, tries each whose
    /// range contains the offset with the offset rebased, returns the first
    /// `Handled` or `Malformed`, and `NotMine` when no binding takes it.
    pub fn handle_mmio(&mut self, offset: usize, access: MMIOAccess) -> (r: MMIOResult)
        ensures
            final(self)@ == bank_step(old(self)@, offset, access).0,
            r == bank_step(old(self)@, offset, access).1,
    {
        let ghost orig = self@;
        let mut j: usize = 0;
        while j < self.devices.len()
            invariant
                j <= self.devices.len(),
                orig == old(self)@,
                bank_step_from(orig, 0, offset, access) == bank_step_from(
                    self@,
                    j as int,
                    offset,
                    access,
                ),
            decreases self.devices.len() - j,
        {
            let base = self.devices[j].base;
            if offset >= base && offset - base < self.devices[j].device.mmio_region_size() {
                let ghost pre = self@;
                let mut desc = self.devices.remove(j);
                let r0 = desc.device.handle_mmio(offset - base, access);
                self.devices.insert(j, desc);
                proof {
                    let jj = j as int;
                    assert(in_range(pre[jj], offset));
                    let stepped = device_step(pre[jj].device, (offset - base) as usize, access);
                    let devs2 = pre.update(jj, BankEntry { base: base, device: stepped.0 });
                    assert(self@ =~= devs2);
                    assert(bank_step_from(pre, jj, offset, access) == (if stepped.1
                        == MMIOResult::NotMine {
                        bank_step_from(devs2, jj + 1, offset, access)
                    } else {
                        (devs2, stepped.1)
                    }));
                }
                match r0 {
                    MMIOResult::NotMine => {},
                    _ => {
                        proof {
                            let jj = j as int;
                            let stepped = device_step(
                                pre[jj].device,
                                (offset - base) as usize,
                                access,
                            );
                            assert(r0 == stepped.1);
                            assert(bank_step_from(pre, jj, offset, access) == (self@, r0));
                            assert(bank_step_from(orig, 0, offset, access) == (self@, r0));
                        }
                        return r0;
                    },
                }
            } else {
                proof {
                    assert(!in_range(self@[j as int], offset));
                }
            }
            j = j + 1;
        }
        MMIOResult::NotMine
    }

    /// The bus reports no region of its own: it is a top-level router, not
    /// meant to be nested by size lookup.
    pub fn mmio_region_size(&self) -> (r: usize)
        ensures
            r == 0,
    {
        0
    }
}

impl Device for MMIOBank {
    fn handle_mmio(&mut self, offset: usize, access: MMIOAccess) -> MMIOResult {
        self.handle_mmio(offset, access)
    }

    fn mmio_region_size(&self) -> usize {
        self.mmio_region_size()
    }

    fn has_interrupt(&self) -> bool {
        false
    }
}

} // verus!
