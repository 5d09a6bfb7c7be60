use vmm_devices::bits::atomic_set_bit;
use vmm_devices::bits::get_bit;
use vmm_devices::bits::BitExtendToUsize;

#[test]
fn set_and_clear_bits() {
    let mut reg: u32 = 0;
    atomic_set_bit(&mut reg, 10, true);
    assert_eq!(reg, 1 << 10);
    atomic_set_bit(&mut reg, 3, true);
    assert_eq!(reg, 1 << 10 | 1 << 3);
    atomic_set_bit(&mut reg, 10, false);
    assert_eq!(reg, 1 << 3);
    atomic_set_bit(&mut reg, 10, false);
    assert_eq!(reg, 1 << 3, "clearing a clear bit changes nothing");
}

#[test]
fn get_bit_sees_high_bits() {
    // true iff some bit at the position or above is set
    assert!(get_bit(0b100, 2));
    assert!(get_bit(0b100, 1));
    assert!(!get_bit(0b100, 3));
    assert!(!get_bit(0, 0));
}

#[test]
fn zero_extension() {
    assert_eq!(0x80u8.to_usize(false), 0x80);
    assert_eq!(0x8000u16.to_usize(false), 0x8000);
    assert_eq!(0x8000_0000u32.to_usize(false), 0x8000_0000);
    assert_eq!(0x7fu8.to_usize(true), 0x7f, "a clear top bit never extends");
    assert_eq!(0u64.to_usize(true), 0);
}

#[test]
fn sign_extension() {
    assert_eq!(0x80u8.to_usize(true), !0x7fusize);
    assert_eq!(0xffu8.to_usize(true), !0usize);
    assert_eq!(0x8001u16.to_usize(true), !0xffffusize | 0x8001);
    assert_eq!(0xffff_fffeu32.to_usize(true), !1usize);
    assert_eq!(0xffff_ffff_ffff_ffffu64.to_usize(true), !0usize);
}
