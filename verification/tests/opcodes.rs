use mos_6502_emulator::{
    bus::Bus,
    cpu::{AddressingMode, CPU},
    machine::Status,
    opcode::{decode, Mnemonic},
};

#[test]
fn matrix_has_151_opcodes() {
    let legal = (0..=255u8).filter(|op| decode(*op).is_some()).count();
    assert_eq!(legal, 151);
}

#[test]
fn decode_known_opcodes() {
    assert_eq!(decode(0x00), Some((Mnemonic::BRK, AddressingMode::IMP)));
    assert_eq!(decode(0xA9), Some((Mnemonic::LDA, AddressingMode::IMM)));
    assert_eq!(decode(0x01), Some((Mnemonic::ORA, AddressingMode::IDX)));
    assert_eq!(decode(0x11), Some((Mnemonic::ORA, AddressingMode::IDY)));
    assert_eq!(decode(0x6C), Some((Mnemonic::JMP, AddressingMode::IND)));
    assert_eq!(decode(0x75), Some((Mnemonic::ADC, AddressingMode::ZPX)));
    assert_eq!(decode(0x0A), Some((Mnemonic::ASL, AddressingMode::ACC)));
    assert_eq!(decode(0x96), Some((Mnemonic::STX, AddressingMode::ZPY)));
    assert_eq!(decode(0xBE), Some((Mnemonic::LDX, AddressingMode::ABY)));
    assert_eq!(decode(0xC8), Some((Mnemonic::INY, AddressingMode::IMP)));
    assert_eq!(decode(0xF0), Some((Mnemonic::BEQ, AddressingMode::REL)));
    assert_eq!(decode(0xEA), Some((Mnemonic::NOP, AddressingMode::IMP)));
    assert_eq!(decode(0xFE), Some((Mnemonic::INC, AddressingMode::ABX)));
}

#[test]
fn decode_rejects_undocumented_opcodes() {
    for op in [0x02u8, 0x03, 0x04, 0x80, 0x89, 0x9C, 0xEB, 0xFF] {
        assert_eq!(decode(op), None);
    }
}

#[test]
fn decoded_modes_fit_their_instructions() {
    for op in 0..=255u8 {
        if let Some((mnemonic, mode)) = decode(op) {
            let implied = matches!(mode, AddressingMode::IMP);
            let accumulator = matches!(mode, AddressingMode::ACC);
            let shifts = matches!(
                mnemonic,
                Mnemonic::ASL | Mnemonic::LSR | Mnemonic::ROL | Mnemonic::ROR
            );
            let branch = matches!(
                mnemonic,
                Mnemonic::BCC
                    | Mnemonic::BCS
                    | Mnemonic::BEQ
                    | Mnemonic::BNE
                    | Mnemonic::BMI
                    | Mnemonic::BPL
                    | Mnemonic::BVC
                    | Mnemonic::BVS
            );
            assert!(!accumulator || shifts);
            assert_eq!(branch, matches!(mode, AddressingMode::REL));
            assert_eq!(implied, !mode.addresses_memory() && !accumulator);
        }
    }
}

#[test]
fn takes_tells_which_modes_an_instruction_accepts() {
    assert!(Mnemonic::LDA.takes(AddressingMode::IMM));
    assert!(Mnemonic::LDA.takes(AddressingMode::IDY));
    assert!(!Mnemonic::LDA.takes(AddressingMode::IMP));
    assert!(!Mnemonic::LDA.takes(AddressingMode::ACC));
    assert!(Mnemonic::ASL.takes(AddressingMode::ACC));
    assert!(Mnemonic::ROR.takes(AddressingMode::ZPX));
    assert!(!Mnemonic::ASL.takes(AddressingMode::IMP));
    assert!(Mnemonic::NOP.takes(AddressingMode::IMP));
    assert!(Mnemonic::CLC.takes(AddressingMode::ACC));
    assert!(!Mnemonic::JMP.takes(AddressingMode::ACC));
    for op in 0..=255u8 {
        if let Some((mnemonic, mode)) = decode(op) {
            assert!(mnemonic.takes(mode));
        }
    }
}

#[test]
fn every_opcode_can_be_stepped() {
    for op in 0..=255u8 {
        let mut cpu = CPU::custom(0x12, 0x34, 0x56, 0x80, 0x0600, 0x00, 0, Bus::new());
        cpu.write(0x0600, op);
        cpu.write(0x0601, 0x40);
        cpu.write(0x0602, 0x02);
        let status = cpu.step();
        assert_eq!(cpu.get_opcode(), op);
        match decode(op) {
            Some((Mnemonic::BRK, _)) => assert_eq!(status, Status::Halted),
            Some(_) => assert_eq!(status, Status::Running),
            None => {
                assert_eq!(status, Status::IllegalOpcode { opcode: op, pc: 0x0600 });
                assert_eq!(cpu.get_state(), vec![0x12, 0x34, 0x56, 0x80, 0x0601, 0x00, op as u16]);
            }
        }
    }
}

#[test]
fn instructions_consume_their_operand_bytes() {
    for op in 0..=255u8 {
        if let Some((mnemonic, mode)) = decode(op) {
            let jumps = matches!(
                mnemonic,
                Mnemonic::JMP | Mnemonic::JSR | Mnemonic::RTS | Mnemonic::RTI | Mnemonic::BRK
            );
            if jumps || matches!(mode, AddressingMode::REL) {
                continue;
            }
            let mut cpu = CPU::custom(0, 0, 0, 0x80, 0x0600, 0x00, 0, Bus::new());
            cpu.write(0x0600, op);
            cpu.step();
            let operand_bytes = match mode {
                AddressingMode::IMP | AddressingMode::ACC => 0,
                AddressingMode::ABS | AddressingMode::ABX | AddressingMode::ABY => 2,
                _ => 1,
            };
            assert_eq!(cpu.get_pc(), 0x0601 + operand_bytes);
        }
    }
}

#[test]
fn lda_in_each_of_its_modes() {
    // opcode, operand bytes, address of the byte that is loaded
    let cases: [(u8, u8, u8, u16); 8] = [
        (0xA9, 0x5A, 0x00, 0x0601),
        (0xA5, 0x40, 0x00, 0x0040),
        (0xB5, 0x40, 0x00, 0x0044),
        (0xAD, 0x34, 0x12, 0x1234),
        (0xBD, 0x34, 0x12, 0x1238),
        (0xB9, 0x34, 0x12, 0x123A),
        (0xA1, 0x50, 0x00, 0x2000),
        (0xB1, 0x60, 0x00, 0x3006),
    ];
    for (op, lo, hi, from) in cases {
        let mut cpu = CPU::custom(0, 0x04, 0x06, 0xFF, 0x0600, 0, 0, Bus::new());
        // pointers for the two indirect modes
        cpu.write_u16(0x0054, 0x2000);
        cpu.write_u16(0x0060, 0x3000);
        cpu.write(0x0600, op);
        cpu.write(0x0601, lo);
        cpu.write(0x0602, hi);
        cpu.write(from, 0x5A);
        assert_eq!(cpu.step(), Status::Running);
        assert_eq!(cpu.get_a(), 0x5A);
    }
}
