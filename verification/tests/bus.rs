use gbc_m4::cpu::inner::{Busd, MemoryBus};

#[test]
fn new_bus_is_zero_at_every_address() {
    let bus = <MemoryBus as Busd>::new();
    assert_eq!(bus.len(), 65536);
    assert_eq!(bus.read_byte(0x0000), 0);
    assert_eq!(bus.read_byte(0x8000), 0);
    assert_eq!(bus.read_byte(0xFFFF), 0);
    assert!(bus.iter().all(|b| *b == 0));
}

#[test]
fn bus_reads_the_byte_at_the_address() {
    let mut bus = <MemoryBus as Busd>::new();
    bus[0x0100] = 0xC3;
    bus[0xFFFF] = 0x1F;
    assert_eq!(bus.read_byte(0x0100), 0xC3);
    assert_eq!(bus.read_byte(0xFFFF), 0x1F);
    assert_eq!(bus.read_byte(0x0101), 0x00);
}
