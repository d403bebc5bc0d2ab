use mos_6502_emulator::{
    bus::Bus,
    cpu::{AddressingMode, Flags, CPU},
    machine::Status,
    opcode::Mnemonic,
};

#[test]
fn idy_adds_y_to_the_zero_page_word() {
    let pc: u16 = 0x0301;
    let y: u8 = 0x02;
    let zp_addr: u8 = 0x30;
    let mut cpu: CPU = CPU::custom(0, 0, y, 0, pc, 0, 0, Bus::new());
    cpu.write(pc, zp_addr);
    cpu.write(zp_addr as u16, 0x91);
    cpu.write(zp_addr as u16 + 1, 0xEF);
    assert_eq!(cpu.get_address(AddressingMode::IDY), 0xEF93);
    assert_eq!(cpu.get_pc(), pc + 1);
}

#[test]
fn zero_page_modes_wrap_inside_page_zero() {
    let mut cpu = CPU::custom(0, 0x20, 0x30, 0, 0x0600, 0, 0, Bus::new());
    cpu.write(0x0600, 0xF0);
    cpu.write(0x0601, 0xF0);
    assert_eq!(cpu.get_address(AddressingMode::ZPX), 0x0010);
    assert_eq!(cpu.get_address(AddressingMode::ZPY), 0x0020);

    // (zp,X): the pointer lies at 0xFF, its high byte at 0x00
    let mut cpu = CPU::custom(0, 0x0F, 0, 0, 0x0600, 0, 0, Bus::new());
    cpu.write(0x0600, 0xF0);
    cpu.write(0x00FF, 0x34);
    cpu.write(0x0000, 0x12);
    assert_eq!(cpu.get_address(AddressingMode::IDX), 0x1234);

    // (zp),Y: the same, then Y is added with 16 bits
    let mut cpu = CPU::custom(0, 0, 0x10, 0, 0x0600, 0, 0, Bus::new());
    cpu.write(0x0600, 0xFF);
    cpu.write(0x00FF, 0xF8);
    cpu.write(0x0000, 0xFF);
    assert_eq!(cpu.get_address(AddressingMode::IDY), 0x0008);
}

#[test]
fn absolute_indexed_wraps_at_the_end_of_memory() {
    let mut cpu = CPU::custom(0, 0x10, 0x20, 0, 0x0600, 0, 0, Bus::new());
    cpu.write_u16(0x0600, 0xFFF8);
    cpu.write_u16(0x0602, 0xFFF8);
    assert_eq!(cpu.get_address(AddressingMode::ABX), 0x0008);
    assert_eq!(cpu.get_address(AddressingMode::ABY), 0x0018);
    assert_eq!(cpu.get_pc(), 0x0604);
}

#[test]
fn indirect_reads_the_pointer_across_a_page_boundary() {
    let mut cpu = CPU::custom(0, 0, 0, 0, 0x0600, 0, 0, Bus::new());
    cpu.write_u16(0x0600, 0x12FF);
    cpu.write(0x12FF, 0x30);
    cpu.write(0x1300, 0x24);
    cpu.write(0x1200, 0x99);
    assert_eq!(cpu.get_address(AddressingMode::IND), 0x2430);
    assert_eq!(cpu.get_pc(), 0x0602);
}

#[test]
fn program_counter_wraps_at_the_end_of_memory() {
    let mut cpu = CPU::custom(0, 0, 0, 0, 0xFFFF, 0, 0, Bus::new());
    assert_eq!(cpu.get_address(AddressingMode::IMM), 0xFFFF);
    assert_eq!(cpu.get_pc(), 0x0000);

    let mut cpu = CPU::custom(0, 0, 0, 0, 0xFFFF, 0, 0, Bus::new());
    cpu.write(0xFFFF, 0x34);
    cpu.write(0x0000, 0x12);
    assert_eq!(cpu.get_address(AddressingMode::ABS), 0x1234);
    assert_eq!(cpu.get_pc(), 0x0001);
}

#[test]
fn relative_wraps_in_both_directions() {
    let mut cpu = CPU::custom(0, 0, 0, 0, 0x0010, 0, 0, Bus::new());
    cpu.write(0x0010, 0x80);
    assert_eq!(cpu.get_address(AddressingMode::REL), 0xFF91);

    let mut cpu = CPU::custom(0, 0, 0, 0, 0xFFF0, 0, 0, Bus::new());
    cpu.write(0xFFF0, 0x7F);
    assert_eq!(cpu.get_address(AddressingMode::REL), 0x0070);
}

#[test]
fn branch_not_taken_skips_the_offset() {
    let mut cpu = CPU::custom(0, 0, 0, 0xFF, 0x0600, 0b0000_0010, 0, Bus::new());
    cpu.write(0x0600, 0x10);
    cpu.BNE(AddressingMode::REL);
    assert_eq!(cpu.get_pc(), 0x0601);
    assert_eq!(cpu.get_sr(), 0b0000_0010);
}

#[test]
fn branches_test_their_flag() {
    let cases: [(Mnemonic, u8, bool); 16] = [
        (Mnemonic::BCC, 0x00, true),
        (Mnemonic::BCC, 0x01, false),
        (Mnemonic::BCS, 0x01, true),
        (Mnemonic::BCS, 0x00, false),
        (Mnemonic::BNE, 0x00, true),
        (Mnemonic::BNE, 0x02, false),
        (Mnemonic::BEQ, 0x02, true),
        (Mnemonic::BEQ, 0x00, false),
        (Mnemonic::BPL, 0x00, true),
        (Mnemonic::BPL, 0x80, false),
        (Mnemonic::BMI, 0x80, true),
        (Mnemonic::BMI, 0x00, false),
        (Mnemonic::BVC, 0x00, true),
        (Mnemonic::BVC, 0x40, false),
        (Mnemonic::BVS, 0x40, true),
        (Mnemonic::BVS, 0x00, false),
    ];
    for (mnemonic, sr, taken) in cases {
        let mut cpu = CPU::custom(0, 0, 0, 0xFF, 0x0600, sr, 0, Bus::new());
        cpu.write(0x0600, 0x05);
        cpu.execute(mnemonic, AddressingMode::REL);
        assert_eq!(cpu.get_pc(), if taken { 0x0606 } else { 0x0601 });
        assert_eq!(cpu.get_sr(), sr);
    }
}

#[test]
fn jsr_pushes_the_last_byte_of_the_call() {
    let mut cpu = CPU::custom(0, 0, 0, 0xFF, 0x0601, 0, 0, Bus::new());
    cpu.write_u16(0x0601, 0x1234);
    cpu.JSR(AddressingMode::ABS);
    assert_eq!(cpu.get_pc(), 0x1234);
    assert_eq!(cpu.get_sp(), 0xFD);
    assert_eq!(cpu.read(0x01FF), 0x06);
    assert_eq!(cpu.read(0x01FE), 0x02);
    cpu.RTS();
    assert_eq!(cpu.get_pc(), 0x0603);
    assert_eq!(cpu.get_sp(), 0xFF);
}

#[test]
fn subroutine_call_and_return() {
    let mut cpu = CPU::new(Bus::new());
    // JSR $0606; LDA #$01; BRK; LDX #$07; RTS
    let status = cpu.quick_start(vec![0x20, 0x06, 0x06, 0xA9, 0x01, 0x00, 0xA2, 0x07, 0x60]);
    assert_eq!(status, Status::Halted);
    assert_eq!(cpu.get_a(), 0x01);
    assert_eq!(cpu.get_x(), 0x07);
}

#[test]
fn brk_enters_the_interrupt_handler() {
    let mut cpu = CPU::new(Bus::new());
    cpu.write_u16(0xFFFE, 0x0700);
    let status = cpu.quick_start(vec![0xA9, 0x05, 0x00]);
    assert_eq!(status, Status::Halted);
    // A, X, Y, SP, PC, status with B and I, opcode
    assert_eq!(cpu.get_state(), vec![0x05, 0, 0, 0xFC, 0x0700, 0b0001_0100, 0x00]);
    // the address two past the opcode, then the status with B set
    assert_eq!(cpu.read(0x01FF), 0x06);
    assert_eq!(cpu.read(0x01FE), 0x04);
    assert_eq!(cpu.read(0x01FD), 0b0001_0000);
}

#[test]
fn brk_without_a_handler_continues_at_zero() {
    let mut cpu = CPU::new(Bus::new());
    cpu.quick_start(vec![0x00]);
    assert_eq!(cpu.get_pc(), 0x0000);
    assert!(cpu.get_flag(Flags::B));
    assert!(cpu.get_flag(Flags::I));
}

#[test]
fn rti_returns_behind_the_brk() {
    let mut cpu = CPU::new(Bus::new());
    cpu.write_u16(0xFFFE, 0x0700);
    // handler: LDA #$09; RTI
    cpu.write(0x0700, 0xA9);
    cpu.write(0x0701, 0x09);
    cpu.write(0x0702, 0x40);
    // SEC; BRK; padding; LDX #$03
    cpu.load_program(vec![0x38, 0x00, 0xEA, 0xA2, 0x03]);
    cpu.reset();
    assert_eq!(cpu.advance(), Status::Running);
    assert_eq!(cpu.advance(), Status::Running);
    assert_eq!(cpu.advance(), Status::Halted);
    assert_eq!(cpu.get_pc(), 0x0700);
    assert_eq!(cpu.advance(), Status::Running);
    assert_eq!(cpu.get_a(), 0x09);
    assert_eq!(cpu.advance(), Status::Running);
    assert_eq!(cpu.get_opcode(), 0x40);
    assert_eq!(cpu.get_pc(), 0x0603);
    assert_eq!(cpu.get_sp(), 0xFF);
    // the status as it was pushed: C from SEC, B from BRK, not yet I
    assert_eq!(cpu.get_sr(), 0b0001_0001);
    assert_eq!(cpu.advance(), Status::Running);
    assert_eq!(cpu.get_x(), 0x03);
}

#[test]
fn irq_respects_interrupt_disable() {
    let mut cpu = CPU::custom(0, 0, 0, 0xFF, 0x1234, 0b0000_0100, 0, Bus::new());
    cpu.write_u16(0xFFFE, 0x0700);
    cpu.irq();
    assert_eq!(cpu.get_state(), vec![0, 0, 0, 0xFF, 0x1234, 0b0000_0100, 0]);
    assert_eq!(cpu.read(0x01FF), 0x00);

    let mut cpu = CPU::custom(0, 0, 0, 0xFF, 0x1234, 0b0000_0001, 0, Bus::new());
    cpu.write_u16(0xFFFE, 0x0700);
    cpu.irq();
    assert_eq!(cpu.get_state(), vec![0, 0, 0, 0xFC, 0x0700, 0b0000_0101, 0]);
    assert_eq!(cpu.read(0x01FF), 0x12);
    assert_eq!(cpu.read(0x01FE), 0x34);
    assert_eq!(cpu.read(0x01FD), 0b0000_0001);
    cpu.RTI();
    assert_eq!(cpu.get_state(), vec![0, 0, 0, 0xFF, 0x1234, 0b0000_0001, 0]);
}

#[test]
fn nmi_ignores_interrupt_disable() {
    let mut cpu = CPU::custom(0, 0, 0, 0xFF, 0x1234, 0b0000_0100, 0, Bus::new());
    cpu.write_u16(0xFFFA, 0x0800);
    cpu.write_u16(0xFFFE, 0x0700);
    cpu.nmi();
    assert_eq!(cpu.get_state(), vec![0, 0, 0, 0xFC, 0x0800, 0b0000_0100, 0]);
    assert_eq!(cpu.read(0x01FF), 0x12);
    assert_eq!(cpu.read(0x01FE), 0x34);
    assert_eq!(cpu.read(0x01FD), 0b0000_0100);
}

#[test]
fn illegal_opcode_is_reported() {
    let mut cpu = CPU::new(Bus::new());
    let status = cpu.quick_start(vec![0xA9, 0x07, 0x02, 0xA9, 0x09, 0x00]);
    assert_eq!(status, Status::IllegalOpcode { opcode: 0x02, pc: 0x0602 });
    assert_eq!(cpu.get_state(), vec![0x07, 0, 0, 0xFF, 0x0603, 0, 0x02]);
}

#[test]
fn illegal_opcode_on_a_single_step() {
    let mut cpu = CPU::custom(1, 2, 3, 0xFF, 0x0600, 0x41, 0, Bus::new());
    cpu.write(0x0600, 0x80);
    assert_eq!(cpu.advance(), Status::IllegalOpcode { opcode: 0x80, pc: 0x0600 });
    assert_eq!(cpu.get_state(), vec![1, 2, 3, 0xFF, 0x0601, 0x41, 0x80]);
    assert_eq!(cpu.step(), Status::Halted);
}

#[test]
fn run_stops_when_its_steps_are_used_up() {
    let mut cpu = CPU::new(Bus::new());
    // INX; JMP $0600
    cpu.load_program(vec![0xE8, 0x4C, 0x00, 0x06]);
    cpu.reset();
    assert_eq!(cpu.advance(), Status::Running);
    assert_eq!(cpu.run(0), Status::OutOfSteps);
    assert_eq!(cpu.get_x(), 0);
    assert_eq!(cpu.run(7), Status::OutOfSteps);
    assert_eq!(cpu.get_x(), 4);
    assert_eq!(cpu.get_pc(), 0x0601);
}

#[test]
fn run_halts_at_brk_within_its_steps() {
    let mut cpu = CPU::custom(0, 0, 0, 0xFF, 0x0600, 0, 0, Bus::new());
    cpu.load_program(vec![0xE8, 0xE8, 0x00]);
    assert_eq!(cpu.run(3), Status::Halted);
    assert_eq!(cpu.get_x(), 2);

    let mut cpu = CPU::custom(0, 0, 0, 0xFF, 0x0600, 0, 0, Bus::new());
    cpu.load_program(vec![0xE8, 0xE8, 0x00]);
    assert_eq!(cpu.run(2), Status::OutOfSteps);
    assert_eq!(cpu.get_pc(), 0x0602);
}

#[test]
fn clock_loads_the_start_address_only_after_a_reset() {
    let mut cpu = CPU::custom(0, 0, 0, 0xFF, 0x0700, 0, 0, Bus::new());
    cpu.load_program(vec![0xA9, 0x01, 0x00]);
    cpu.write(0x0700, 0xA9);
    cpu.write(0x0701, 0x02);
    assert_eq!(cpu.clock(), Status::Halted);
    assert_eq!(cpu.get_a(), 0x02);

    cpu.reset();
    assert_eq!(cpu.clock(), Status::Halted);
    assert_eq!(cpu.get_a(), 0x01);
}

#[test]
fn cli_clears_interrupt_disable() {
    let mut cpu: CPU = CPU::new(Bus::new());
    assert!(!cpu.get_flag(Flags::I));
    cpu.load_program(vec![0x58, 0x00]);
    cpu.reset();
    cpu.set_flag(Flags::I, true);
    assert!(cpu.get_flag(Flags::I));
    assert_eq!(cpu.advance(), Status::Running);
    assert_eq!(cpu.advance(), Status::Running);
    assert!(!cpu.get_flag(Flags::I));
    // the BRK that ends the program disables interrupts again
    assert_eq!(cpu.advance(), Status::Halted);
    assert!(cpu.get_flag(Flags::I));
}
