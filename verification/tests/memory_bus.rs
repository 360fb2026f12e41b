use gb_core::mmu::MMU;
use gb_core::Failure;

#[test]
fn new_memory_is_zero() {
    let m = MMU::new();
    assert_eq!(m.memory.len(), 0x10000);
    assert_eq!(m.get_byte(0).unwrap(), 0);
    assert_eq!(m.get_byte(0x8000).unwrap(), 0);
    assert_eq!(m.get_byte(0xFFFF).unwrap(), 0);
}

#[test]
fn write_read_round_trip_every_address() {
    let mut m = MMU::new();
    for addr in 0..0x10000usize {
        let v = (addr % 256) as u8 ^ 0x5A;
        assert_eq!(m.set_byte(addr, v), Ok(()));
        assert_eq!(m.get_byte(addr), Ok(v));
    }
    // Earlier writes are still intact after later ones.
    assert_eq!(m.get_byte(0).unwrap(), 0x5A);
    assert_eq!(m.get_byte(0x1234).unwrap(), 0x34 ^ 0x5A);
}

#[test]
fn out_of_range_read_fails() {
    let m = MMU::new();
    assert_eq!(
        m.get_byte(0x10000),
        Err(Failure::OutOfRangeAddress { address: 0x10000 })
    );
    assert_eq!(
        m.get_byte(usize::MAX),
        Err(Failure::OutOfRangeAddress { address: usize::MAX })
    );
}

#[test]
fn out_of_range_write_fails_and_changes_nothing() {
    let mut m = MMU::new();
    m.set_byte(0xFFFF, 0x77).unwrap();
    assert_eq!(
        m.set_byte(0x10000, 0x99),
        Err(Failure::OutOfRangeAddress { address: 0x10000 })
    );
    assert_eq!(m.get_byte(0xFFFF).unwrap(), 0x77);
}

#[test]
fn interrupt_register_toggles() {
    let mut m = MMU::new();
    m.enable_interrupts();
    assert_eq!(m.get_byte(0xFFFF).unwrap(), 0xFF);
    m.disable_interrupts();
    assert_eq!(m.get_byte(0xFFFF).unwrap(), 0x00);
}

#[test]
fn load_rom_copies_image_and_leaves_rest() {
    let mut m = MMU::new();
    m.set_byte(3, 0xEE).unwrap();
    m.load_rom(vec![0x3E, 0x05, 0xC3]);
    assert_eq!(m.get_byte(0).unwrap(), 0x3E);
    assert_eq!(m.get_byte(1).unwrap(), 0x05);
    assert_eq!(m.get_byte(2).unwrap(), 0xC3);
    assert_eq!(m.get_byte(3).unwrap(), 0xEE);
}
