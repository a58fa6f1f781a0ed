use vstd::prelude::*;

use crate::assembled_instruction::Operation;
use crate::cpu::{alu, execute_spec, flag_z, flags_of, jnz_target, operand_value, CpuOperand};

verus! {

/// Moving a value never changes the flags.
pub proof fn lemma_mov_keeps_flags(
    regs: Seq<i16>,
    mem: Seq<u8>,
    flags: u8,
    dst: CpuOperand,
    src: CpuOperand,
)
    ensures
        execute_spec(regs, mem, flags, Operation::MOV, dst, src) is Ok ==> execute_spec(
            regs,
            mem,
            flags,
            Operation::MOV,
            dst,
            src,
        )->Ok_0.2 == flags,
{
}

/// A comparison leaves registers and memory as they were, succeeds wherever the matching
/// subtraction succeeds, and then sets exactly the flags that the subtraction sets.
pub proof fn lemma_cmp_flags_like_sub(
    regs: Seq<i16>,
    mem: Seq<u8>,
    flags: u8,
    dst: CpuOperand,
    src: CpuOperand,
)
    ensures
        execute_spec(regs, mem, flags, Operation::CMP, dst, src) is Ok ==> execute_spec(
            regs,
            mem,
            flags,
            Operation::CMP,
            dst,
            src,
        )->Ok_0.0 == regs && execute_spec(regs, mem, flags, Operation::CMP, dst, src)->Ok_0.1
            == mem,
        execute_spec(regs, mem, flags, Operation::SUB, dst, src) is Ok ==> execute_spec(
            regs,
            mem,
            flags,
            Operation::CMP,
            dst,
            src,
        ) is Ok && execute_spec(regs, mem, flags, Operation::CMP, dst, src)->Ok_0.2
            == execute_spec(regs, mem, flags, Operation::SUB, dst, src)->Ok_0.2,
{
}

proof fn lemma_zero_flag(v: i16)
    ensures
        (flags_of(v) & flag_z() == flag_z()) == (v == 0),
{
    assert((2u8 | 0u8) & 2u8 == 2u8) by (bit_vector);
    assert((2u8 | 1u8) & 2u8 == 2u8) by (bit_vector);
    assert((0u8 | 0u8) & 2u8 == 0u8) by (bit_vector);
    assert((0u8 | 1u8) & 2u8 == 0u8) by (bit_vector);
}

/// After an add, subtract or compare, a jump-if-not-zero leaves the cursor where it is when
/// the result was zero, and otherwise moves it by exactly its signed displacement.
pub proof fn lemma_jnz_after_result(
    regs: Seq<i16>,
    mem: Seq<u8>,
    flags: u8,
    op: Operation,
    dst: CpuOperand,
    src: CpuOperand,
    ip: int,
    displacement: i16,
)
    requires
        op == Operation::ADD || op == Operation::SUB || op == Operation::CMP,
        execute_spec(regs, mem, flags, op, dst, src) is Ok,
    ensures
        ({
            let v = alu(
                op,
                operand_value(regs, mem, dst)->Some_0,
                operand_value(regs, mem, src)->Some_0,
            );
            jnz_target(execute_spec(regs, mem, flags, op, dst, src)->Ok_0.2, ip, displacement)
                == if v == 0 {
                ip
            } else {
                ip + displacement
            }
        }),
{
    let v = alu(op, operand_value(regs, mem, dst)->Some_0, operand_value(regs, mem, src)->Some_0);
    lemma_zero_flag(v);
}

} // verus!
