use mos_6502_emulator::{
    bus::Bus,
    cpu::{AddressingMode, Flags, CPU},
    machine::Status,
};

const ALL_FLAGS: [Flags; 8] =
    [Flags::C, Flags::Z, Flags::I, Flags::D, Flags::B, Flags::U, Flags::V, Flags::N];

#[test]
fn new_processor_is_cleared() {
    let cpu = CPU::new(Bus::new());
    assert_eq!(cpu.get_state(), vec![0, 0, 0, 0xFF, 0, 0, 0]);
}

#[test]
fn custom_sets_every_register() {
    let cpu = CPU::custom(1, 2, 3, 4, 0x0506, 7, 8, Bus::new());
    assert_eq!(cpu.get_a(), 1);
    assert_eq!(cpu.get_x(), 2);
    assert_eq!(cpu.get_y(), 3);
    assert_eq!(cpu.get_sp(), 4);
    assert_eq!(cpu.get_pc(), 0x0506);
    assert_eq!(cpu.get_sr(), 7);
    assert_eq!(cpu.get_opcode(), 8);
    assert_eq!(cpu.get_status(), 7);
    assert_eq!(cpu.get_a_reg(), 1);
    assert_eq!(cpu.get_state(), vec![1, 2, 3, 4, 0x0506, 7, 8]);
}

#[test]
fn accumulator_setters() {
    let mut cpu = CPU::new(Bus::new());
    cpu.set_a(0x42);
    assert_eq!(cpu.get_a(), 0x42);
    cpu.set_a_reg(0x43);
    assert_eq!(cpu.get_a_reg(), 0x43);
    assert_eq!(cpu.get_state(), vec![0x43, 0, 0, 0xFF, 0, 0, 0]);
}

#[test]
fn flag_masks() {
    assert_eq!(Flags::C.bits(), 0b0000_0001);
    assert_eq!(Flags::Z.bits(), 0b0000_0010);
    assert_eq!(Flags::I.bits(), 0b0000_0100);
    assert_eq!(Flags::D.bits(), 0b0000_1000);
    assert_eq!(Flags::B.bits(), 0b0001_0000);
    assert_eq!(Flags::U.bits(), 0b0010_0000);
    assert_eq!(Flags::V.bits(), 0b0100_0000);
    assert_eq!(Flags::N.bits(), 0b1000_0000);
}

#[test]
fn flag_names() {
    assert_eq!(Flags::byte_from_str("C"), 0b0000_0001);
    assert_eq!(Flags::byte_from_str("Z"), 0b0000_0010);
    assert_eq!(Flags::byte_from_str("I"), 0b0000_0100);
    assert_eq!(Flags::byte_from_str("D"), 0b0000_1000);
    assert_eq!(Flags::byte_from_str("B"), 0b0001_0000);
    assert_eq!(Flags::byte_from_str("U"), 0b0010_0000);
    assert_eq!(Flags::byte_from_str("V"), 0b0100_0000);
    assert_eq!(Flags::byte_from_str("N"), 0b1000_0000);
    assert_eq!(Flags::byte_from_str("c"), 0);
    assert_eq!(Flags::byte_from_str("X"), 0);
    assert_eq!(Flags::byte_from_str(""), 0);
    assert_eq!(Flags::byte_from_str("CZ"), 0);
    assert_eq!(Flags::from_str("V"), 0b0100_0000);
    assert_eq!(Flags::from_str("?"), 0);
}

#[test]
fn set_flag_then_get_flag() {
    for f in ALL_FLAGS {
        let mut cpu = CPU::new(Bus::new());
        assert!(!cpu.get_flag(f));
        cpu.set_flag(f, true);
        assert!(cpu.get_flag(f));
        assert_eq!(cpu.get_sr(), f.bits());
        cpu.set_flag(f, false);
        assert!(!cpu.get_flag(f));
        assert_eq!(cpu.get_sr(), 0);
    }
}

#[test]
fn set_flag_keeps_other_flags() {
    for f in ALL_FLAGS {
        let mut cpu = CPU::custom(0, 0, 0, 0xFF, 0, 0b1010_0101, 0, Bus::new());
        cpu.set_flag(f, true);
        assert_eq!(cpu.get_sr(), 0b1010_0101 | f.bits());
        cpu.set_flag(f, false);
        assert_eq!(cpu.get_sr(), 0b1010_0101 & !f.bits());
        for g in ALL_FLAGS {
            if g != f {
                assert_eq!(cpu.get_flag(g), 0b1010_0101 & g.bits() != 0);
            }
        }
    }
}

#[test]
fn zero_and_negative_from_value() {
    let mut cpu = CPU::custom(0, 0, 0, 0xFF, 0, 0b0100_0001, 0, Bus::new());
    cpu.set_zero_negative_flags(0x00);
    assert_eq!(cpu.get_sr(), 0b0100_0011);
    cpu.set_zero_negative_flags(0x80);
    assert_eq!(cpu.get_sr(), 0b1100_0001);
    cpu.set_zero_negative_flags(0x7F);
    assert_eq!(cpu.get_sr(), 0b0100_0001);
    cpu.set_zero_negative_flags(0xFF);
    assert_eq!(cpu.get_sr(), 0b1100_0001);
    cpu.set_zero_overflow_flags(0x00);
    assert_eq!(cpu.get_sr(), 0b0100_0011);
}

#[test]
fn reset_clears_registers_and_keeps_memory() {
    let mut cpu = CPU::custom(1, 2, 3, 4, 0x0506, 7, 8, Bus::new());
    cpu.write(0x0600, 0xEA);
    cpu.reset();
    assert_eq!(cpu.get_state(), vec![0, 0, 0, 0xFF, 0xFFFC, 0, 0]);
    assert_eq!(cpu.read(0x0600), 0xEA);
}

#[test]
fn reset_twice_is_reset_once() {
    let mut once = CPU::custom(1, 2, 3, 4, 0x0506, 7, 8, Bus::new());
    let mut twice = CPU::custom(1, 2, 3, 4, 0x0506, 7, 8, Bus::new());
    once.write(0x10, 0x99);
    twice.write(0x10, 0x99);
    once.reset();
    twice.reset();
    twice.reset();
    assert_eq!(once.get_state(), twice.get_state());
    assert!(once.get_memory() == twice.get_memory());
}

#[test]
fn first_advance_after_reset_loads_start_address() {
    let mut cpu = CPU::new(Bus::new());
    cpu.write(0xFFFC, 0x34);
    cpu.write(0xFFFD, 0x12);
    cpu.write(0x1234, 0xA9);
    cpu.write(0x1235, 0x77);
    cpu.reset();
    assert_eq!(cpu.advance(), Status::Running);
    assert_eq!(cpu.get_state(), vec![0, 0, 0, 0xFF, 0x1234, 0, 0]);
    assert_eq!(cpu.advance(), Status::Running);
    assert_eq!(cpu.get_a(), 0x77);
    assert_eq!(cpu.get_pc(), 0x1236);
    assert_eq!(cpu.get_opcode(), 0xA9);
}

#[test]
fn memory_access_through_the_processor() {
    let mut cpu = CPU::new(Bus::new());
    cpu.write(0x00AB, 0x12);
    assert_eq!(cpu.read(0x00AB), 0x12);
    cpu.write_u16(0x0200, 0xCAFE);
    assert_eq!(cpu.read(0x0200), 0xFE);
    assert_eq!(cpu.read(0x0201), 0xCA);
    assert_eq!(cpu.read_u16(0x0200), 0xCAFE);
    cpu.write_u16(0xFFFF, 0x0102);
    assert_eq!(cpu.read_u16(0xFFFF), 0x0102);
    assert_eq!(cpu.read(0x0000), 0x01);
    assert_eq!(cpu.get_memory()[0x0200], 0xFE);
    assert_eq!(cpu.get_state(), vec![0, 0, 0, 0xFF, 0, 0, 0]);
}

#[test]
fn load_program_places_bytes_and_vector() {
    let mut cpu = CPU::custom(1, 2, 3, 4, 0x0506, 7, 8, Bus::new());
    cpu.load_program(vec![0xA9, 0x05, 0x00]);
    assert_eq!(cpu.read_u16(0xFFFC), 0x0600);
    assert_eq!(cpu.read(0x0600), 0xA9);
    assert_eq!(cpu.read(0x0601), 0x05);
    assert_eq!(cpu.read(0x0602), 0x00);
    assert_eq!(cpu.read(0x05FF), 0x00);
    assert_eq!(cpu.get_state(), vec![1, 2, 3, 4, 0x0506, 7, 8]);
}

#[test]
fn load_program_up_to_the_end_of_memory() {
    let mut cpu = CPU::new(Bus::new());
    let program = vec![0x5A; 0xFA00];
    cpu.load_program(program);
    assert_eq!(cpu.read(0x0600), 0x5A);
    assert_eq!(cpu.read(0xFFFF), 0x5A);
    assert_eq!(cpu.read(0x05FF), 0x00);
    // the program reaches the reset vector and replaces it
    assert_eq!(cpu.read_u16(0xFFFC), 0x5A5A);
}

#[test]
fn write_block_copies_a_range() {
    let mut cpu = CPU::new(Bus::new());
    let source = vec![1, 2, 3, 4, 5, 6];
    cpu.write_block(0xFFFD, &source, 2, 3);
    assert_eq!(cpu.read(0xFFFC), 0);
    assert_eq!(cpu.read(0xFFFD), 3);
    assert_eq!(cpu.read(0xFFFE), 4);
    assert_eq!(cpu.read(0xFFFF), 5);
    assert_eq!(cpu.read(0x0000), 0);
    cpu.write_block(0x0010, &source, 6, 0);
    assert_eq!(cpu.read(0x0010), 0);
}

#[test]
fn addressing_mode_facts() {
    assert!(AddressingMode::REL.addresses_memory());
    assert!(AddressingMode::IDY.addresses_memory());
    assert!(!AddressingMode::IMP.addresses_memory());
    assert!(!AddressingMode::ACC.addresses_memory());
}
