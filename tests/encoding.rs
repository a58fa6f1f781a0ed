use rust_decode::assembled_instruction::{
    AssembledInstruction, AssembledInstructionLookupError, BitFlag, BitOrder, BitUsage, Bits, Byte,
    Operation, TemplateId,
};
use rust_decode::singlebits::SingleBits;
use rust_decode::table::{assembled_instruction, get_assembled_instruction, match_first_byte};

fn field(usage: BitUsage, size: u8) -> Bits {
    Bits { usage, size, value: None, shift: None }
}

#[test]
fn test_get_assembled_instruction() {
    assert!(matches!(
        get_assembled_instruction(0b10001011).unwrap().operation,
        Operation::MOV
    ));
    assert!(get_assembled_instruction(0b10110000).is_ok());
    assert!(matches!(
        get_assembled_instruction(0b00000000).unwrap().operation,
        Operation::ADD
    ));
}

#[test]
fn test_shift() {
    let mov_rm = assembled_instruction(TemplateId::MovRmReg);
    let mov_imm = assembled_instruction(TemplateId::MovImmReg);
    assert_eq!(mov_rm.bytes[0].bits[1].shift, Some(1));
    assert_eq!(mov_rm.bytes[1].bits[0].shift, Some(6));
    assert_eq!(mov_imm.bytes[0].bits[1].shift, Some(3));
}

#[test]
fn test_decoded_value() {
    let test_byte = 0b10001001;
    let bits = Bits { usage: BitUsage::Literal, size: 4, shift: Some(3), value: None };
    assert_eq!(bits.decode_value(test_byte), 1);
}

#[test]
fn test_includes_bits() {
    let instr = assembled_instruction(TemplateId::MovImmRm);
    assert!(instr.includes_bits(field(BitUsage::Disp(BitOrder::LOW), 8)));
    assert!(instr.includes_bits(field(BitUsage::Mode, 2)));
    assert!(!instr.includes_bits(field(BitUsage::Flag(BitFlag::s()), 1)));
}

#[test]
fn literal_after_a_field_takes_the_running_shift() {
    let group = assembled_instruction(TemplateId::ArithImmRm);
    assert_eq!(group.bytes[1].bits[0].shift, Some(6));
    assert_eq!(group.bytes[1].bits[1].shift, Some(3));
    assert_eq!(group.bytes[1].bits[2].shift, Some(0));
}

#[test]
fn every_byte_of_every_template_is_eight_bits_wide() {
    let ids = [
        TemplateId::MovRmReg,
        TemplateId::MovImmReg,
        TemplateId::MovImmRm,
        TemplateId::MovMemAcc,
        TemplateId::MovAccMem,
        TemplateId::AddRmReg,
        TemplateId::ArithImmRm,
        TemplateId::AddImmAcc,
        TemplateId::SubRmReg,
        TemplateId::SubImmAcc,
        TemplateId::CmpRmReg,
        TemplateId::CmpImmAcc,
        TemplateId::Jnz,
        TemplateId::AddImmRm,
        TemplateId::SubImmRm,
        TemplateId::CmpImmRm,
    ];
    for id in ids {
        let t = assembled_instruction(id);
        for byte in &t.bytes {
            let total: u32 = byte.bits.iter().map(|b| b.size as u32).sum();
            assert_eq!(total, 8);
            let last = byte.bits.last().unwrap();
            assert_eq!(last.shift, Some(0));
        }
    }
}

#[test]
fn fields_round_trip_through_a_byte() {
    // d = 1, w = 0 under the literal 100010; mode 01, reg 011, rm 101.
    let t = assembled_instruction(TemplateId::MovRmReg);
    let first: u8 = (0b100010 << 2) | (1 << 1);
    let values = [0b100010u8, 1, 0];
    for (bits, v) in t.bytes[0].bits.iter().zip(values) {
        assert_eq!(bits.decode_value(first), v);
    }
    let second: u8 = (0b01 << 6) | (0b011 << 3) | 0b101;
    let values = [0b01u8, 0b011, 0b101];
    for (bits, v) in t.bytes[1].bits.iter().zip(values) {
        assert_eq!(bits.decode_value(second), v);
    }
}

#[test]
fn first_byte_matching() {
    assert_eq!(match_first_byte(0x75), Some(TemplateId::Jnz));
    assert_eq!(match_first_byte(0x83), Some(TemplateId::ArithImmRm));
    assert_eq!(match_first_byte(0x3D), Some(TemplateId::CmpImmAcc));
    assert_eq!(match_first_byte(0x29), Some(TemplateId::SubRmReg));
    assert_eq!(match_first_byte(0xFF), None);
    assert!(matches!(
        get_assembled_instruction(0xFF),
        Err(AssembledInstructionLookupError::InstructionUndefinedError)
    ));
}

#[test]
fn literal_in_reports_incomplete_templates() {
    let empty = AssembledInstruction { operation: Operation::MOV, bytes: Vec::new() };
    assert_eq!(
        empty.literal_in(0),
        Err(AssembledInstructionLookupError::IncompleteDefinitionError)
    );
    let no_literal = AssembledInstruction {
        operation: Operation::MOV,
        bytes: vec![Byte { bits: vec![field(BitUsage::Mode, 2)] }],
    };
    assert_eq!(
        no_literal.literal_in(0),
        Err(AssembledInstructionLookupError::LiteralMissingError)
    );
    let t = assembled_instruction(TemplateId::Jnz);
    assert_eq!(t.literal_in(0x75), Ok(true));
    assert_eq!(t.literal_in(0x74), Ok(false));
}

#[test]
fn single_bits_set_and_read() {
    let mut bits = SingleBits::new();
    assert_eq!(bits.w(), 0);
    bits.set_w();
    bits.set_z();
    assert_eq!(bits.w(), SingleBits::W_MASK);
    assert_eq!(bits.z(), SingleBits::Z_MASK);
    assert_eq!(bits.s(), 0);
    assert_eq!(bits.d(), 0);
    bits.set_s();
    bits.set_d();
    bits.set_v();
    assert_eq!(bits.0, 0b11111);
    assert_eq!(bits.v(), SingleBits::V_MASK);
}
