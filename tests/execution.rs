use rust_decode::buffer::InstructionBuffer;
use rust_decode::cpu::{CpuFlags, CpuOperand, Reg, CPU};
use rust_decode::disassemble::DisassemblyError;
use rust_decode::instruction::DecodingError;

fn run(bytes: Vec<u8>) -> CPU {
    let mut cpu = CPU::new(InstructionBuffer::from_bytes(bytes));
    cpu.execute_instructions(1000).unwrap();
    cpu
}

fn zero(cpu: &CPU) -> bool {
    cpu.flags.is_flag_toogled(CpuFlags(2))
}

fn sign(cpu: &CPU) -> bool {
    cpu.flags.is_flag_toogled(CpuFlags(1))
}

#[test]
fn mov_immediate_sets_register_and_keeps_flags() {
    // mov cx, 3 ; sub cx, 3 ; mov cx, 7
    let cpu = run(vec![0xB9, 0x03, 0x00, 0x83, 0xE9, 0x03, 0xB9, 0x07, 0x00]);
    assert_eq!(cpu.registers.content_of(Reg::C), 7);
    assert!(zero(&cpu));
}

#[test]
fn cmp_keeps_destination_and_flags_match_sub() {
    // mov ax, 5 ; cmp ax, 5
    let cmp = run(vec![0xB8, 0x05, 0x00, 0x3D, 0x05, 0x00]);
    // mov ax, 5 ; sub ax, 5
    let sub = run(vec![0xB8, 0x05, 0x00, 0x2D, 0x05, 0x00]);
    assert_eq!(cmp.registers.content_of(Reg::A), 5);
    assert_eq!(sub.registers.content_of(Reg::A), 0);
    assert_eq!(cmp.flags, sub.flags);
    assert!(zero(&cmp));

    // mov ax, 2 ; cmp ax, 9 (group form)
    let cmp = run(vec![0xB8, 0x02, 0x00, 0x83, 0xF8, 0x09]);
    let sub = run(vec![0xB8, 0x02, 0x00, 0x83, 0xE8, 0x09]);
    assert_eq!(cmp.registers.content_of(Reg::A), 2);
    assert_eq!(sub.registers.content_of(Reg::A), -7);
    assert_eq!(cmp.flags, sub.flags);
    assert!(sign(&cmp) && !zero(&cmp));
}

#[test]
fn countdown_loop_runs_until_zero() {
    // mov cx, 3 ; loop: sub cx, 1 ; jnz loop
    let mut cpu = CPU::new(InstructionBuffer::from_bytes(vec![
        0xB9, 0x03, 0x00, 0x83, 0xE9, 0x01, 0x75, 0xFB,
    ]));
    let steps = cpu.execute_instructions(1000).unwrap();
    assert_eq!(steps, 7);
    assert_eq!(cpu.registers.content_of(Reg::C), 0);
    assert!(zero(&cpu));
    assert_eq!(cpu.buffer.last_read, 8);
}

#[test]
fn jnz_moves_by_displacement_only_when_not_zero() {
    let mut cpu = CPU::new(InstructionBuffer::from_bytes(vec![0x00; 16]));
    cpu.buffer.last_read = 10;
    cpu.execute_jnz(CpuOperand::Jump(-4)).unwrap();
    assert_eq!(cpu.buffer.last_read, 6);
    cpu.flags = CpuFlags(2);
    cpu.execute_jnz(CpuOperand::Jump(-4)).unwrap();
    assert_eq!(cpu.buffer.last_read, 6);
    cpu.flags = CpuFlags(0);
    assert!(cpu.execute_jnz(CpuOperand::Jump(-7)).is_err());
    assert_eq!(cpu.buffer.last_read, 6);
    assert!(cpu.execute_jnz(CpuOperand::Jump(11)).is_err());
    assert_eq!(cpu.buffer.last_read, 6);
    cpu.execute_jnz(CpuOperand::Jump(10)).unwrap();
    assert_eq!(cpu.buffer.last_read, 16);
}

#[test]
fn add_wraps_and_sets_sign() {
    // mov ax, 0x7fff ; add ax, 1
    let cpu = run(vec![0xB8, 0xFF, 0x7F, 0x05, 0x01, 0x00]);
    assert_eq!(cpu.registers.content_of(Reg::A), -32768);
    assert!(sign(&cpu) && !zero(&cpu));
}

#[test]
fn memory_is_little_endian() {
    // mov bx, 4 ; mov word [bx + si], 0x1234 via mov [bx+si], imm16 ; mov dx, [bx + si]
    let cpu = run(vec![
        0xBB, 0x04, 0x00, 0xC7, 0x00, 0x34, 0x12, 0x8B, 0x10,
    ]);
    assert_eq!(cpu.memory.mem[4], 0x34);
    assert_eq!(cpu.memory.mem[5], 0x12);
    assert_eq!(cpu.registers.content_of(Reg::D), 0x1234);
}

#[test]
fn byte_displacement_is_signed_in_addresses() {
    // mov bx, 40 ; mov byte [bx - 37], 9 ; mov ax, [3]
    let cpu = run(vec![
        0xBB, 0x28, 0x00, 0xC6, 0x47, 0xDB, 0x09, 0xA1, 0x03, 0x00,
    ]);
    assert_eq!(cpu.memory.mem[3], 9);
    assert_eq!(cpu.registers.content_of(Reg::A), 9);
}

#[test]
fn step_limit_stops_an_endless_loop() {
    // loop: jnz loop (zero flag clear)
    let mut cpu = CPU::new(InstructionBuffer::from_bytes(vec![0x75, 0xFE]));
    assert_eq!(cpu.execute_instructions(10).unwrap(), 10);
    assert_eq!(cpu.buffer.last_read, 0);
}

#[test]
fn jnz_needs_a_jump_operand() {
    let mut cpu = CPU::new(InstructionBuffer::from_bytes(vec![0x00; 4]));
    assert_eq!(
        cpu.execute_jnz(CpuOperand::Immediate(3)),
        Err(DisassemblyError::DecodeError(DecodingError::UnexpectedOperandError))
    );
}

#[test]
fn running_past_the_loaded_bytes_is_a_buffer_error() {
    // mov dx, imm16 with its last byte missing
    let mut cpu = CPU::new(InstructionBuffer::from_bytes(vec![0xBA, 0x6C]));
    assert!(matches!(cpu.execute_instructions(5), Err(DisassemblyError::BufferError(_))));
}

#[test]
fn byte_immediate_executes_with_its_stored_value() {
    // mov ax, 128 ; cmp al, 0x80
    let cpu = run(vec![0xB8, 0x80, 0x00, 0x3C, 0x80]);
    assert_eq!(cpu.registers.content_of(Reg::A), 128);
    assert!(zero(&cpu));
    // mov ax, 200 ; cmp ax, byte 200 through the group form without sign extension
    let cpu = run(vec![0xB8, 0xC8, 0x00, 0x80, 0xF8, 0xC8]);
    assert!(zero(&cpu));
}

#[test]
fn step_limit_short_of_the_end_returns_the_count() {
    let mut cpu = CPU::new(InstructionBuffer::from_bytes(vec![0xB8, 0x01, 0x00, 0xB8, 0x02, 0x00]));
    assert_eq!(cpu.execute_instructions(1).unwrap(), 1);
    assert!(!cpu.buffer.is_at_the_end());
    assert_eq!(cpu.execute_instructions(5).unwrap(), 1);
    assert!(cpu.buffer.is_at_the_end());
    assert_eq!(cpu.registers.content_of(Reg::A), 2);
}
