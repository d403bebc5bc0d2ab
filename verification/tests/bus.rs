use mos_6502_emulator::bus::Bus;

#[test]
fn memory_starts_zeroed() {
    let mut bus = Bus::new();
    assert_eq!(bus.read(0x0000), 0);
    assert_eq!(bus.read(0x0600), 0);
    assert_eq!(bus.read(0xFFFF), 0);
    assert!(bus.get_ram().iter().all(|b| *b == 0));
}

#[test]
fn write_then_read_byte() {
    let mut bus = Bus::new();
    bus.write(0x1234, 0xAB);
    assert_eq!(bus.read(0x1234), 0xAB);
    assert_eq!(bus.read(0x1233), 0);
    assert_eq!(bus.read(0x1235), 0);
    bus.write(0x1234, 0x01);
    assert_eq!(bus.read(0x1234), 0x01);
}

#[test]
fn words_are_little_endian() {
    let mut bus = Bus::new();
    bus.write_u16(0x2000, 0xBEEF);
    assert_eq!(bus.read(0x2000), 0xEF);
    assert_eq!(bus.read(0x2001), 0xBE);
    assert_eq!(bus.read_u16(0x2000), 0xBEEF);

    bus.write(0x3000, 0x34);
    bus.write(0x3001, 0x12);
    assert_eq!(bus.read_u16(0x3000), 0x1234);
}

#[test]
fn word_at_top_of_memory_wraps() {
    let mut bus = Bus::new();
    bus.write_u16(0xFFFF, 0xA1B2);
    assert_eq!(bus.read(0xFFFF), 0xB2);
    assert_eq!(bus.read(0x0000), 0xA1);
    assert_eq!(bus.read_u16(0xFFFF), 0xA1B2);
}

#[test]
fn ram_snapshot_shows_writes() {
    let mut bus = Bus::new();
    bus.write(0x0601, 0x7E);
    let ram = bus.get_ram();
    assert_eq!(ram.len(), 65536);
    assert_eq!(ram[0x0601], 0x7E);
    assert_eq!(ram[0x0600], 0);
}
