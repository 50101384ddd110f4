use arm9_rt::atomic::AtomicCell16;
use arm9_rt::atomic::AtomicCell32;
use arm9_rt::atomic::AtomicCell8;
use arm9_rt::atomic::FetchOp;
use arm9_rt::atomic::fence;

#[test]
fn load_store_swap_8() {
    let mut c = AtomicCell8::new(5);
    assert_eq!(c.load(), 5);
    c.store(200);
    assert_eq!(c.load(), 200);
    assert_eq!(c.swap(7), 200);
    assert_eq!(c.load(), 7);
}

#[test]
fn fetch_add_wraps_8() {
    let mut c = AtomicCell8::new(250);
    assert_eq!(c.fetch_add(10), 250);
    assert_eq!(c.load(), 4);
}

#[test]
fn fetch_sub_wraps_8() {
    let mut c = AtomicCell8::new(3);
    assert_eq!(c.fetch_sub(10), 3);
    assert_eq!(c.load(), 249);
}

#[test]
fn fetch_bitwise_8() {
    let mut c = AtomicCell8::new(0b1100);
    assert_eq!(c.fetch_or(0b0011), 0b1100);
    assert_eq!(c.load(), 0b1111);
    assert_eq!(c.fetch_and(0b1010), 0b1111);
    assert_eq!(c.load(), 0b1010);
    assert_eq!(c.fetch_xor(0b0110), 0b1010);
    assert_eq!(c.load(), 0b1100);
    assert_eq!(c.fetch_nand(0b1000), 0b1100);
    assert_eq!(c.load(), 0b1111_0111);
}

#[test]
fn compare_exchange_success_8() {
    let mut c = AtomicCell8::new(42);
    let mut expected: u8 = 42;
    assert!(c.compare_exchange(&mut expected, 99));
    assert_eq!(c.load(), 99);
    assert_eq!(expected, 42);
}

#[test]
fn compare_exchange_failure_overwrites_expected_8() {
    let mut c = AtomicCell8::new(42);
    let mut expected: u8 = 1;
    assert!(!c.compare_exchange(&mut expected, 99));
    assert_eq!(c.load(), 42);
    assert_eq!(expected, 42);
}

#[test]
fn fetch_op_dispatch_8() {
    let mut c = AtomicCell8::new(9);
    assert_eq!(c.fetch_op(FetchOp::Add, 1), 9);
    assert_eq!(c.load(), 10);
    assert_eq!(c.fetch_op(FetchOp::Swap, 77), 10);
    assert_eq!(c.load(), 77);
}

#[test]
fn load_store_swap_16() {
    let mut c = AtomicCell16::new(5);
    assert_eq!(c.load(), 5);
    c.store(60000);
    assert_eq!(c.load(), 60000);
    assert_eq!(c.swap(7), 60000);
    assert_eq!(c.load(), 7);
}

#[test]
fn fetch_add_wraps_16() {
    let mut c = AtomicCell16::new(65530);
    assert_eq!(c.fetch_add(10), 65530);
    assert_eq!(c.load(), 4);
}

#[test]
fn fetch_sub_wraps_16() {
    let mut c = AtomicCell16::new(3);
    assert_eq!(c.fetch_sub(10), 3);
    assert_eq!(c.load(), 65529);
}

#[test]
fn fetch_bitwise_16() {
    let mut c = AtomicCell16::new(0x0F0F);
    assert_eq!(c.fetch_or(0xF000), 0x0F0F);
    assert_eq!(c.load(), 0xFF0F);
    assert_eq!(c.fetch_and(0x00FF), 0xFF0F);
    assert_eq!(c.load(), 0x000F);
    assert_eq!(c.fetch_xor(0xFFFF), 0x000F);
    assert_eq!(c.load(), 0xFFF0);
    assert_eq!(c.fetch_nand(0x00F0), 0xFFF0);
    assert_eq!(c.load(), 0xFF0F);
}

#[test]
fn compare_exchange_failure_overwrites_expected_16() {
    let mut c = AtomicCell16::new(4242);
    let mut expected: u16 = 7;
    assert!(!c.compare_exchange(&mut expected, 1));
    assert_eq!(c.load(), 4242);
    assert_eq!(expected, 4242);
}

#[test]
fn compare_exchange_success_16() {
    let mut c = AtomicCell16::new(4242);
    let mut expected: u16 = 4242;
    assert!(c.compare_exchange(&mut expected, 1));
    assert_eq!(c.load(), 1);
    assert_eq!(expected, 4242);
}

#[test]
fn load_store_swap_32() {
    let mut c = AtomicCell32::new(5);
    assert_eq!(c.load(), 5);
    c.store(0xDEAD_BEEF);
    assert_eq!(c.load(), 0xDEAD_BEEF);
    assert_eq!(c.swap(7), 0xDEAD_BEEF);
    assert_eq!(c.load(), 7);
}

#[test]
fn fetch_add_wraps_32() {
    let mut c = AtomicCell32::new(u32::MAX - 5);
    assert_eq!(c.fetch_add(10), u32::MAX - 5);
    assert_eq!(c.load(), 4);
}

#[test]
fn fetch_sub_wraps_32() {
    let mut c = AtomicCell32::new(3);
    assert_eq!(c.fetch_sub(10), 3);
    assert_eq!(c.load(), u32::MAX - 6);
}

#[test]
fn fetch_bitwise_32() {
    let mut c = AtomicCell32::new(0x0000_FFFF);
    assert_eq!(c.fetch_or(0xFFFF_0000), 0x0000_FFFF);
    assert_eq!(c.load(), 0xFFFF_FFFF);
    assert_eq!(c.fetch_and(0x1234_5678), 0xFFFF_FFFF);
    assert_eq!(c.load(), 0x1234_5678);
    assert_eq!(c.fetch_xor(0xFFFF_FFFF), 0x1234_5678);
    assert_eq!(c.load(), 0xEDCB_A987);
    assert_eq!(c.fetch_nand(0xFFFF_FFFF), 0xEDCB_A987);
    assert_eq!(c.load(), 0x1234_5678);
}

#[test]
fn compare_exchange_failure_overwrites_expected_32() {
    let mut c = AtomicCell32::new(0xCAFE);
    let mut expected: u32 = 0;
    assert!(!c.compare_exchange(&mut expected, 1));
    assert_eq!(c.load(), 0xCAFE);
    assert_eq!(expected, 0xCAFE);
}

#[test]
fn compare_exchange_success_32() {
    let mut c = AtomicCell32::new(0xCAFE);
    let mut expected: u32 = 0xCAFE;
    assert!(c.compare_exchange(&mut expected, 77));
    assert_eq!(c.load(), 77);
    assert_eq!(expected, 0xCAFE);
}

#[test]
fn fence_is_callable() {
    let mut c = AtomicCell32::new(1);
    fence();
    c.store(2);
    fence();
    assert_eq!(c.load(), 2);
}
