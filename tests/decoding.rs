use rust_decode::assembled_instruction::{BitFlag, BitOrder, Operation};
use rust_decode::buffer::InstructionBuffer;
use rust_decode::disassemble::{disassemble_bytes_in, disassemble_instruction, DisassemblyError};
use rust_decode::instruction::{DecodingError, Instruction};
use rust_decode::operand::{
    Displacement, Operand, OperandToStrError, OperandType, OperandTypeError, Size,
};

const TEST_INSTRUCTION: u16 = 0b1000101111011001;
const TEST_INSTRUCTION2: u16 = 0b1000101110011001;

fn test_instruction(bytes: Vec<u8>, instruction_str: &str) {
    let mut buffer = InstructionBuffer::from_bytes(bytes.clone());
    let (instruction, bytes_processed) = disassemble_instruction(&mut buffer).unwrap();
    assert_eq!(bytes_processed, bytes.len());
    assert_eq!(instruction.to_text().unwrap(), instruction_str);
}

#[test]
fn test_memory_mode_instruction() {
    test_instruction(vec![0x8A, 0x00], "mov al, [bx + si]")
}

#[test]
fn test_memory_mode_instruction_displacement() {
    test_instruction(vec![0x8A, 0x80, 0x87, 0x13], "mov al, [bx + si+4999]")
}

#[test]
fn test_mov_a() {
    test_instruction(vec![0x8b, 0x41, 0xdb], "mov ax, [bx + di-37]")
}

#[test]
fn test_immediate_to_register() {
    test_instruction(vec![0xBA, 0x6C, 0x0F], "mov dx, 3948")
}

#[test]
fn test_immediate_to_memory() {
    test_instruction(vec![0xC6, 0x03, 0x07], "mov [bp + di], byte 7")
}

#[test]
fn test_immediate_add() {
    test_instruction(vec![0x83, 0xc6, 0x02], "add si, 2")
}

#[test]
fn test_immediate_add_a() {
    test_instruction(vec![0x03, 0x18], "add bx, [bx + si]")
}

#[test]
fn test_immediate_add_b() {
    test_instruction(vec![0x03, 0x18], "add bx, [bx + si]")
}

#[test]
fn test_immediate_add_c() {
    test_instruction(vec![0x02, 0x7A, 0x04], "add bh, [bp + si+4]")
}

#[test]
fn test_instruction_new() {
    let instr = Instruction::new(TEST_INSTRUCTION.to_be_bytes()[0]).unwrap();
    assert!(matches!(instr.operation(), Operation::MOV));
    assert!(instr.flags.is_flag_toogled(BitFlag::w()));

    let instr = Instruction::new(TEST_INSTRUCTION2.to_be_bytes()[0]).unwrap();
    assert!(matches!(instr.operation(), Operation::MOV));
    assert!(instr.flags.is_flag_toogled(BitFlag::w().union(BitFlag::d())));
}

#[test]
fn test_instruction_continue_disassembly() {
    let mut instr = Instruction::new(TEST_INSTRUCTION.to_be_bytes()[0]).unwrap();
    instr.continue_disassembly(TEST_INSTRUCTION.to_be_bytes()[1]).unwrap();
    assert!(matches!(
        instr.operand_a.unwrap().operand_type.unwrap(),
        OperandType::Register(Size::WORD)
    ));
    assert!(matches!(
        instr.operand_b.unwrap().operand_type.unwrap(),
        OperandType::Register(Size::WORD)
    ));

    let mut instr = Instruction::new(TEST_INSTRUCTION2.to_be_bytes()[0]).unwrap();
    instr.continue_disassembly(TEST_INSTRUCTION2.to_be_bytes()[1]).unwrap();
    assert!(matches!(
        instr.operand_a.unwrap().operand_type.unwrap(),
        OperandType::Register(Size::WORD)
    ));
    let rm_type = instr.operand_b.as_ref().unwrap().operand_type.as_ref().unwrap();
    assert!(matches!(rm_type, OperandType::Memory(Displacement::YES(Size::WORD))));
}

#[test]
fn test_instruction_display() {
    let mut instr = Instruction::new(TEST_INSTRUCTION.to_be_bytes()[0]).unwrap();
    instr.continue_disassembly(TEST_INSTRUCTION.to_be_bytes()[1]).unwrap();
    assert_eq!(instr.to_text().unwrap(), "mov bx, cx")
}

#[test]
fn test_signed_displacement() {
    let op = Operand {
        operand_type: Some(OperandType::Memory(Displacement::YES(Size::BYTE))),
        data: None,
        displacement: Some(0x00db),
        value: None,
    };
    assert!(op.signed_displacement().unwrap() == -37);
}

#[test]
fn group_code_selects_sub_and_cmp() {
    test_instruction(vec![0x83, 0xE9, 0x01], "sub cx, 1");
    test_instruction(vec![0x83, 0xF8, 0x05], "cmp ax, 5");
    test_instruction(vec![0x80, 0x07, 0x22], "add byte [bx], 34");
    test_instruction(vec![0x83, 0x3E, 0xE2, 0x12, 0x1D], "cmp word [4834], 29");
}

#[test]
fn sign_extended_immediate_is_negative() {
    test_instruction(vec![0x83, 0xC6, 0xFE], "add si, -2");
}

#[test]
fn register_to_register_forms() {
    test_instruction(vec![0x29, 0xD9], "sub cx, bx");
    test_instruction(vec![0x39, 0xD8], "cmp ax, bx");
    test_instruction(vec![0x01, 0xC3], "add bx, ax");
}

#[test]
fn accumulator_short_forms() {
    test_instruction(vec![0xA1, 0xFB, 0x09], "mov ax, [2555]");
    test_instruction(vec![0xA3, 0x0F, 0x00], "mov [15], ax");
    test_instruction(vec![0x05, 0xE8, 0x03], "add ax, 1000");
    test_instruction(vec![0x2C, 0x09], "sub al, 9");
    test_instruction(vec![0x3C, 0xE2], "cmp al, -30");
}

#[test]
fn jump_and_direct_address() {
    test_instruction(vec![0x75, 0xFB], "jnz -5");
    test_instruction(vec![0x8B, 0x2E, 0x05, 0x00], "mov bp, [5]");
    test_instruction(vec![0xC7, 0x06, 0x0A, 0x00, 0x2C, 0x01], "mov [10], word 300");
}

#[test]
fn unknown_first_byte_is_not_recognized() {
    let mut buffer = InstructionBuffer::from_bytes(vec![0xFF, 0x00]);
    assert_eq!(
        disassemble_instruction(&mut buffer).unwrap_err(),
        DisassemblyError::DecodeError(DecodingError::InstructionNotRecognizedError)
    );
}

#[test]
fn truncated_input_is_a_buffer_error() {
    let mut buffer = InstructionBuffer::from_bytes(vec![0x8A]);
    assert!(matches!(
        disassemble_instruction(&mut buffer),
        Err(DisassemblyError::BufferError(_))
    ));
    let mut buffer = InstructionBuffer::from_bytes(vec![0x8A, 0x80, 0x87]);
    assert!(matches!(
        disassemble_instruction(&mut buffer),
        Err(DisassemblyError::BufferError(_))
    ));
}

#[test]
fn whole_buffer_decodes_in_order() {
    let bytes = vec![0x8A, 0x00, 0xBA, 0x6C, 0x0F, 0x83, 0xC6, 0x02];
    let instrs = disassemble_bytes_in(InstructionBuffer::from_bytes(bytes)).unwrap();
    assert_eq!(instrs.len(), 3);
    assert_eq!(instrs[0].to_text().unwrap(), "mov al, [bx + si]");
    assert_eq!(instrs[1].to_text().unwrap(), "mov dx, 3948");
    assert_eq!(instrs[2].to_text().unwrap(), "add si, 2");
    assert!(disassemble_bytes_in(InstructionBuffer::from_bytes(vec![])).unwrap().is_empty());
}

#[test]
fn operand_fields_refuse_a_second_low_byte() {
    let mut op = Operand::new(None);
    op.operand_type = Some(OperandType::Immediate(Size::WORD));
    assert_eq!(op.set_data(0x34, BitOrder::HIGH), Err(DecodingError::FieldNotYetDecodedError));
    op.set_data(0x34, BitOrder::LOW).unwrap();
    assert_eq!(op.set_data(0x35, BitOrder::LOW), Err(DecodingError::FieldAlreadyDecodedError));
    op.set_data(0x92, BitOrder::HIGH).unwrap();
    assert_eq!(op.signed_data(), Ok(-28108));
    assert_eq!(op.signed_displacement().is_err(), true);
}

#[test]
fn byte_immediate_is_sign_extended() {
    let op = Operand {
        operand_type: Some(OperandType::Immediate(Size::BYTE)),
        value: None,
        displacement: None,
        data: Some(0xFF),
    };
    assert_eq!(op.signed_data(), Ok(-1));
}

#[test]
fn text_errors_name_the_bad_operand() {
    assert_eq!(
        OperandType::Register(Size::WORD).to_str(Some(9), None, None),
        Err(OperandToStrError::RegisterValueError)
    );
    assert_eq!(
        OperandType::Memory(Displacement::NO).to_str(Some(8), None, None),
        Err(OperandToStrError::EffectiveAddrValueError)
    );
    assert_eq!(Operand::new(None).to_text(), Err(OperandToStrError::UnexpctedOperandError));
    assert_eq!(
        OperandType::Memory(Displacement::YES(Size::BYTE)).to_str(Some(1), Some(-2), None).unwrap(),
        "[bx + di-2]"
    );
    assert_eq!(OperandType::DirectAccess(Displacement::YES(Size::WORD)).to_str(None, Some(-32768), None).unwrap(), "[-32768]");
}

#[test]
fn accessor_on_the_wrong_operand_kind_is_refused() {
    let reg = Operand::reg(3, BitFlag::w()).unwrap();
    assert_eq!(
        reg.signed_data(),
        Err(DecodingError::OperandTypeError(OperandTypeError::UncompatibleOperandTypeError))
    );
    assert_eq!(
        reg.signed_displacement(),
        Err(DecodingError::OperandTypeError(OperandTypeError::UncompatibleOperandTypeError))
    );
    assert_eq!(Operand::new(None).signed_data(), Err(DecodingError::FieldNotYetDecodedError));
    assert_eq!(
        Operand::rm(0, 4, BitFlag::nothing()),
        Err(OperandTypeError::UnknownModError)
    );
}
