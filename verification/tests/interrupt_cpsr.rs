use arm9_rt::cpsr::Cpsr;
use arm9_rt::cpsr::Mode;
use arm9_rt::interrupt::acquire;
use arm9_rt::interrupt::disable;
use arm9_rt::interrupt::enable;
use arm9_rt::interrupt::free;
use arm9_rt::interrupt::release;
use arm9_rt::interrupt::restore;

#[test]
fn mode_from_bits_recognizes_each_mode() {
    assert_eq!(Mode::from_bits(0b10000), Some(Mode::User));
    assert_eq!(Mode::from_bits(0b10001), Some(Mode::Fiq));
    assert_eq!(Mode::from_bits(0b10010), Some(Mode::Irq));
    assert_eq!(Mode::from_bits(0b10011), Some(Mode::Supervisor));
    assert_eq!(Mode::from_bits(0b10111), Some(Mode::Abort));
    assert_eq!(Mode::from_bits(0b11011), Some(Mode::Undefined));
    assert_eq!(Mode::from_bits(0b11111), Some(Mode::System));
    assert_eq!(Mode::from_bits(0b10100), None);
    assert_eq!(Mode::from_bits(0b00000), None);
}

#[test]
fn mode_from_bits_reads_low_five_bits_only() {
    assert_eq!(Mode::from_bits(0b1111_0011), Some(Mode::Supervisor));
}

#[test]
fn mode_bits_roundtrip() {
    for m in [
        Mode::User,
        Mode::Fiq,
        Mode::Irq,
        Mode::Supervisor,
        Mode::Abort,
        Mode::Undefined,
        Mode::System,
    ] {
        assert_eq!(Mode::from_bits(m.bits()), Some(m));
    }
}

#[test]
fn cpsr_accessors() {
    let sr = Cpsr::from_bits(0x0000_00D3);
    assert_eq!(sr.bits(), 0xD3);
    assert_eq!(sr.mode(), Some(Mode::Supervisor));
    assert!(sr.irq_disabled());
    assert!(sr.fiq_disabled());

    let sr = Cpsr::from_bits(0x0000_0010);
    assert_eq!(sr.mode(), Some(Mode::User));
    assert!(!sr.irq_disabled());
    assert!(!sr.fiq_disabled());
}

#[test]
fn disable_sets_both_mask_bits() {
    let mut sr = Cpsr::from_bits(0x0000_0013);
    let prev = disable(&mut sr);
    assert_eq!(prev, 0x00);
    assert!(sr.irq_disabled());
    assert!(sr.fiq_disabled());
    assert_eq!(sr.bits(), 0x0000_00D3);
}

#[test]
fn disable_then_restore_leaves_register_unchanged() {
    for start in [0x0000_0010u32, 0x0000_0050, 0x0000_0090, 0x0000_00D3, 0x6000_001F] {
        let mut sr = Cpsr::from_bits(start);
        let prev = disable(&mut sr);
        restore(&mut sr, prev);
        assert_eq!(sr.bits(), start);
    }
}

#[test]
fn enable_clears_both_mask_bits() {
    let mut sr = Cpsr::from_bits(0x0000_00D3);
    enable(&mut sr);
    assert_eq!(sr.bits(), 0x0000_0013);
    assert!(!sr.irq_disabled());
    assert!(!sr.fiq_disabled());
}

#[test]
fn restore_touches_only_mask_bits() {
    let mut sr = Cpsr::from_bits(0x6000_0013);
    restore(&mut sr, 0xFF);
    assert_eq!(sr.bits(), 0x6000_00D3);
    restore(&mut sr, 0x40);
    assert_eq!(sr.bits(), 0x6000_0053);
}

#[test]
fn guard_acquire_release_roundtrip() {
    let mut sr = Cpsr::from_bits(0x0000_0053);
    let token = acquire(&mut sr);
    assert_eq!(sr.bits(), 0x0000_00D3);
    release(&mut sr, token);
    assert_eq!(sr.bits(), 0x0000_0053);
}

#[test]
fn free_restores_and_returns_result() {
    let mut sr = Cpsr::from_bits(0x0000_0093);
    let r = free(&mut sr, || 17u32 + 5);
    assert_eq!(r, 22);
    assert_eq!(sr.bits(), 0x0000_0093);
}
