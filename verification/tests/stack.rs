use mos_6502_emulator::{bus::Bus, cpu::CPU};

#[test]
fn push_stores_then_moves_down() {
    let mut cpu = CPU::new(Bus::new());
    cpu.push(0xAB);
    assert_eq!(cpu.read(0x01FF), 0xAB);
    assert_eq!(cpu.get_sp(), 0xFE);
    cpu.push(0xCD);
    assert_eq!(cpu.read(0x01FE), 0xCD);
    assert_eq!(cpu.get_sp(), 0xFD);
}

#[test]
fn pop_moves_up_then_reads() {
    let mut cpu = CPU::custom(0, 0, 0, 0x7F, 0, 0, 0, Bus::new());
    cpu.write(0x0180, 0x42);
    assert_eq!(cpu.pop(), 0x42);
    assert_eq!(cpu.get_sp(), 0x80);
}

#[test]
fn push_then_pop_for_every_stack_pointer() {
    for sp in 0..=255u8 {
        let mut cpu = CPU::custom(0, 0, 0, sp, 0, 0, 0, Bus::new());
        cpu.push(sp ^ 0x5A);
        assert_eq!(cpu.get_sp(), sp.wrapping_sub(1));
        assert_eq!(cpu.pop(), sp ^ 0x5A);
        assert_eq!(cpu.get_sp(), sp);
    }
}

#[test]
fn stack_pointer_wraps_inside_page_one() {
    let mut cpu = CPU::custom(0, 0, 0, 0x00, 0, 0, 0, Bus::new());
    cpu.push(0x11);
    assert_eq!(cpu.read(0x0100), 0x11);
    assert_eq!(cpu.get_sp(), 0xFF);
    cpu.push(0x22);
    assert_eq!(cpu.read(0x01FF), 0x22);
    assert_eq!(cpu.get_sp(), 0xFE);
    assert_eq!(cpu.pop(), 0x22);
    assert_eq!(cpu.pop(), 0x11);
    assert_eq!(cpu.get_sp(), 0x00);
    assert_eq!(cpu.read(0x0200), 0x00);
    assert_eq!(cpu.read(0x00FF), 0x00);
}

#[test]
fn push_word_puts_high_byte_first() {
    let mut cpu = CPU::new(Bus::new());
    cpu.push_u16(0x1234);
    assert_eq!(cpu.read(0x01FF), 0x12);
    assert_eq!(cpu.read(0x01FE), 0x34);
    assert_eq!(cpu.get_sp(), 0xFD);
    assert_eq!(cpu.pop(), 0x34);
    assert_eq!(cpu.pop(), 0x12);
}

#[test]
fn push_word_then_pop_word() {
    for sp in [0xFFu8, 0x80, 0x01, 0x00] {
        let mut cpu = CPU::custom(0, 0, 0, sp, 0, 0, 0, Bus::new());
        cpu.push_u16(0xBEEF);
        assert_eq!(cpu.get_sp(), sp.wrapping_sub(2));
        assert_eq!(cpu.pop_u16(), 0xBEEF);
        assert_eq!(cpu.get_sp(), sp);
    }
}

#[test]
fn pha_pla_php_plp() {
    let mut cpu = CPU::custom(0x80, 0, 0, 0xFF, 0, 0b0100_0001, 0, Bus::new());
    cpu.PHA();
    cpu.PHP();
    assert_eq!(cpu.read(0x01FF), 0x80);
    assert_eq!(cpu.read(0x01FE), 0b0100_0001);
    assert_eq!(cpu.get_sp(), 0xFD);

    cpu.set_a(0);
    cpu.PLA();
    assert_eq!(cpu.get_a(), 0b0100_0001);
    assert_eq!(cpu.get_sr(), 0b0100_0001);
    cpu.PLP();
    assert_eq!(cpu.get_sr(), 0x80);
    assert_eq!(cpu.get_sp(), 0xFF);

    cpu.push(0x00);
    cpu.PLA();
    assert_eq!(cpu.get_a(), 0);
    assert_eq!(cpu.get_sr(), 0x02);
    cpu.push(0xF0);
    cpu.PLA();
    assert_eq!(cpu.get_a(), 0xF0);
    assert_eq!(cpu.get_sr(), 0x80);
}
