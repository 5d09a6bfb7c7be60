use vmm_devices::device::MMIOAccess;
use vmm_devices::device::MMIOResult;
use vmm_devices::plic::PLICMemoryMap;
use vmm_devices::plic::PLIC;

/// A word load as the guest makes it: aligned, through the register map.
fn load(plic: &mut PLIC, addr: usize) -> Option<u32> {
    if addr % 4 != 0 {
        return None;
    }
    match plic.handle_mmio(addr, MMIOAccess::LoadWord) {
        MMIOResult::Handled(v) => Some(v as u32),
        _ => None,
    }
}

/// A word store as the guest makes it.
fn store(plic: &mut PLIC, addr: usize, val: u32) -> Option<()> {
    if addr % 4 != 0 {
        return None;
    }
    match plic.handle_mmio(addr, MMIOAccess::StoreWord(val)) {
        MMIOResult::Handled(_) => Some(()),
        _ => None,
    }
}

fn lines(asserting: bool, id: usize) -> u32 {
    if asserting {
        1u32 << id
    } else {
        0
    }
}

#[test]
fn basic_test() {
    const INTERRUPT_ID: usize = 10;
    // one mock device wired to source 10; `flag` is its interrupt line
    let mut plic = PLIC::new(1u32 << INTERRUPT_ID);
    let mut flag = false;
    assert_eq!(
        plic.has_interrupt(lines(flag, INTERRUPT_ID)),
        false,
        "Initially there is no interrupt."
    );

    // enable irq for context 1.
    let enabled = load(&mut plic, 0x2080).unwrap();
    store(&mut plic, 0x2080, enabled | 1 << INTERRUPT_ID).unwrap();
    store(&mut plic, INTERRUPT_ID * 4, 7).unwrap();
    assert_eq!(
        plic.has_interrupt(lines(flag, INTERRUPT_ID)),
        false,
        "Still no interrupt."
    );
    flag = true;
    assert_eq!(
        plic.has_interrupt(lines(flag, INTERRUPT_ID)),
        true,
        "Interrupt captured."
    );
    let pending = load(&mut plic, 0x1000).unwrap();
    assert_eq!(pending, 1 << INTERRUPT_ID, "The irq is pending.");
    let claim = load(&mut plic, 0x201004).unwrap();
    assert_eq!(claim, INTERRUPT_ID as u32, "Claimed.");
    assert_eq!(
        plic.has_interrupt(lines(flag, INTERRUPT_ID)),
        false,
        "Interrupt captured but claimed."
    );
    store(&mut plic, 0x201004, claim).unwrap();
    assert_eq!(
        plic.has_interrupt(lines(flag, INTERRUPT_ID)),
        true,
        "After complete, the interrupt is there again."
    );
    let claim = load(&mut plic, 0x201004).unwrap();
    assert_eq!(claim, INTERRUPT_ID as u32, "Claimed #2.");
    assert_eq!(
        plic.has_interrupt(lines(flag, INTERRUPT_ID)),
        false,
        "Interrupt captured but claimed #2."
    );
    let another_claim = load(&mut plic, 0x201004).unwrap();
    assert_eq!(another_claim, 0, "Can't claim one interrupt again.");
    flag = false;
    store(&mut plic, 0x201004, claim).unwrap();
    assert_eq!(
        plic.has_interrupt(lines(flag, INTERRUPT_ID)),
        false,
        "Really no interrupt."
    );
    let claim = load(&mut plic, 0x201004).unwrap();
    assert_eq!(claim, 0, "No interrupt.");
}

#[test]
fn priority_register_round_trip() {
    let mut plic = PLIC::new(0);
    for s in 0..32usize {
        store(&mut plic, s * 4, (s as u32) * 3 + 1).unwrap();
    }
    for s in 0..32usize {
        assert_eq!(load(&mut plic, s * 4).unwrap(), (s as u32) * 3 + 1);
    }
    // overwrite one and read it back
    store(&mut plic, 5 * 4, 7).unwrap();
    assert_eq!(load(&mut plic, 5 * 4).unwrap(), 7);
}

#[test]
fn disabled_source_never_claimed() {
    // sources 5 and 9 registered and asserting, but only 9 enabled
    let mut plic = PLIC::new(1 << 5 | 1 << 9);
    store(&mut plic, 0x2080, 1 << 9).unwrap();
    store(&mut plic, 5 * 4, 7).unwrap();
    store(&mut plic, 9 * 4, 2).unwrap();
    let live = (1u32 << 5) | (1u32 << 9);
    assert_eq!(plic.has_interrupt(live), true);
    assert_eq!(load(&mut plic, 0x201004).unwrap(), 9);
    // 5 stays pending but disabled: nothing more to claim
    assert_eq!(load(&mut plic, 0x201004).unwrap(), 0);
}

#[test]
fn higher_priority_wins() {
    let mut plic = PLIC::new(1 << 5 | 1 << 9);
    store(&mut plic, 0x2080, 1 << 5 | 1 << 9).unwrap();
    store(&mut plic, 5 * 4, 2).unwrap();
    store(&mut plic, 9 * 4, 7).unwrap();
    let live = (1u32 << 5) | (1u32 << 9);
    assert_eq!(plic.has_interrupt(live), true);
    // 9 carries priority 7 against 5's 2: 9 wins
    assert_eq!(load(&mut plic, 0x201004).unwrap(), 9);
    // without an intervening complete, 9 cannot repeat; 5 follows
    assert_eq!(load(&mut plic, 0x201004).unwrap(), 5);
    assert_eq!(load(&mut plic, 0x201004).unwrap(), 0);
}

#[test]
fn equal_priority_ties_to_lowest_id() {
    let mut plic = PLIC::new(1 << 4 | 1 << 6);
    store(&mut plic, 0x2080, 1 << 4 | 1 << 6).unwrap();
    store(&mut plic, 4 * 4, 3).unwrap();
    store(&mut plic, 6 * 4, 3).unwrap();
    let live = (1u32 << 4) | (1u32 << 6);
    plic.has_interrupt(live);
    assert_eq!(load(&mut plic, 0x201004).unwrap(), 4);
    assert_eq!(load(&mut plic, 0x201004).unwrap(), 6);
}

#[test]
fn threshold_gates_claim_and_eip() {
    let mut plic = PLIC::new(1 << 10);
    store(&mut plic, 0x2080, 1 << 10).unwrap();
    store(&mut plic, 10 * 4, 3).unwrap();
    // context 1 threshold 3: priority 3 is gated (strict comparison)
    store(&mut plic, 0x201000, 3).unwrap();
    assert_eq!(plic.has_interrupt(1 << 10), false);
    assert_eq!(load(&mut plic, 0x201004).unwrap(), 0);
    // lowering the threshold to 2 lets the source through
    store(&mut plic, 0x201000, 2).unwrap();
    assert_eq!(plic.has_interrupt(1 << 10), true);
    assert_eq!(load(&mut plic, 0x201004).unwrap(), 10);
}

#[test]
fn priority_zero_never_claimed() {
    let mut plic = PLIC::new(1 << 10);
    store(&mut plic, 0x2080, 1 << 10).unwrap();
    // priority stays 0: pending and enabled, but never eligible
    assert_eq!(plic.has_interrupt(1 << 10), false);
    assert_eq!(load(&mut plic, 0x201004).unwrap(), 0);
    assert_eq!(load(&mut plic, 0x1000).unwrap(), 1 << 10, "pending is visible all the same");
}

#[test]
fn malformed_accesses() {
    let mut plic = PLIC::new(0);
    // non-word widths
    assert_eq!(plic.handle_mmio(0, MMIOAccess::LoadByte), MMIOResult::Malformed);
    assert_eq!(plic.handle_mmio(0, MMIOAccess::StoreByte(1)), MMIOResult::Malformed);
    assert_eq!(plic.handle_mmio(0, MMIOAccess::LoadHalf), MMIOResult::Malformed);
    assert_eq!(plic.handle_mmio(0, MMIOAccess::LoadDword), MMIOResult::Malformed);
    // unaligned
    assert_eq!(plic.handle_mmio(2, MMIOAccess::LoadWord), MMIOResult::Malformed);
    // holes in the map
    assert_eq!(plic.handle_mmio(0x1084, MMIOAccess::LoadWord), MMIOResult::Malformed);
    assert_eq!(plic.handle_mmio(0x1f2000, MMIOAccess::LoadWord), MMIOResult::Malformed);
    assert_eq!(plic.handle_mmio(0x200008, MMIOAccess::LoadWord), MMIOResult::Malformed);
    // context beyond the two that exist
    assert_eq!(plic.handle_mmio(0x2100, MMIOAccess::LoadWord), MMIOResult::Malformed);
    assert_eq!(plic.handle_mmio(0x202004, MMIOAccess::LoadWord), MMIOResult::Malformed);
    // the guest cannot write the pending bitmap
    assert_eq!(plic.handle_mmio(0x1000, MMIOAccess::StoreWord(1)), MMIOResult::Malformed);
    // a priority word beyond the single group
    assert_eq!(plic.handle_mmio(32 * 4, MMIOAccess::LoadWord), MMIOResult::Malformed);
}

#[test]
fn complete_out_of_range_is_malformed() {
    let mut plic = PLIC::new(1 << 10);
    store(&mut plic, 0x2080, 1 << 10).unwrap();
    store(&mut plic, 10 * 4, 7).unwrap();
    plic.has_interrupt(1 << 10);
    assert_eq!(load(&mut plic, 0x201004).unwrap(), 10);
    // completing an id beyond the group is a guest fault, surfaced, and
    // changes nothing: 10 stays claimed
    assert_eq!(
        plic.handle_mmio(0x201004, MMIOAccess::StoreWord(99)),
        MMIOResult::Malformed
    );
    assert_eq!(plic.has_interrupt(1 << 10), false);
    assert_eq!(load(&mut plic, 0x201004).unwrap(), 0);
    // completing the claimed id itself still works
    store(&mut plic, 0x201004, 10).unwrap();
    assert_eq!(plic.has_interrupt(1 << 10), true);
}

#[test]
fn highest_source_id_claimable() {
    // the group has 32 sources: id 31 is a real source like any other
    let mut plic = PLIC::new(1u32 << 31);
    store(&mut plic, 0x2080, 1u32 << 31).unwrap();
    store(&mut plic, 31 * 4, 7).unwrap();
    assert_eq!(plic.has_interrupt(1u32 << 31), true);
    assert_eq!(load(&mut plic, 0x1000).unwrap(), 1u32 << 31);
    assert_eq!(load(&mut plic, 0x201004).unwrap(), 31, "source 31 wins");
    assert_eq!(plic.has_interrupt(1u32 << 31), false);
    store(&mut plic, 0x201004, 31).unwrap();
    assert_eq!(plic.has_interrupt(1u32 << 31), true, "re-arms after complete");
}

#[test]
fn memory_map_parse() {
    assert_eq!(PLICMemoryMap::parse(40), Some(PLICMemoryMap::Priority { source: 10 }));
    assert_eq!(PLICMemoryMap::parse(0xffc), Some(PLICMemoryMap::Priority { source: 0x3ff }));
    assert_eq!(PLICMemoryMap::parse(0x1000), Some(PLICMemoryMap::PendingX32 { source_div32: 0 }));
    assert_eq!(PLICMemoryMap::parse(0x107c), Some(PLICMemoryMap::PendingX32 { source_div32: 31 }));
    assert_eq!(PLICMemoryMap::parse(0x1080), None);
    assert_eq!(
        PLICMemoryMap::parse(0x2000),
        Some(PLICMemoryMap::EnableX32 { ctx: 0, source_div32: 0 })
    );
    assert_eq!(
        PLICMemoryMap::parse(0x2080),
        Some(PLICMemoryMap::EnableX32 { ctx: 1, source_div32: 0 })
    );
    assert_eq!(
        PLICMemoryMap::parse(0x2084),
        Some(PLICMemoryMap::EnableX32 { ctx: 1, source_div32: 1 })
    );
    assert_eq!(PLICMemoryMap::parse(0x1f2000), None);
    assert_eq!(PLICMemoryMap::parse(0x200000), Some(PLICMemoryMap::Threshold { ctx: 0 }));
    assert_eq!(PLICMemoryMap::parse(0x201000), Some(PLICMemoryMap::Threshold { ctx: 1 }));
    assert_eq!(PLICMemoryMap::parse(0x201004), Some(PLICMemoryMap::ClaimComplete { ctx: 1 }));
    assert_eq!(PLICMemoryMap::parse(0x201008), None);
    assert_eq!(PLICMemoryMap::parse(0x4000000), None);
}

#[test]
fn context_and_slice_lookup() {
    let plic = PLIC::new(0);
    assert!(plic.get_context(0).is_some());
    assert!(plic.get_context(1).is_some());
    assert!(plic.get_context(2).is_none());
    let (slice, iid) = plic.get_interrupt_slice(10).unwrap();
    assert_eq!(iid, 10);
    assert_eq!(slice.pending, 0);
    assert!(plic.get_interrupt_slice(32).is_none());
    assert_eq!(plic.eip(1), false);
    assert_eq!(plic.mmio_region_size(), 0x4000000);
}
