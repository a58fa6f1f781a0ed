use vstd::prelude::*;

use crate::assembled_instruction::{extract, BitFlag, Bits, TemplateId};
use crate::instruction::{
    additional_spec, continue_spec, first_byte_fold, fresh, new_spec, reg_operand,
    second_byte_fold, DecodingError, Instruction,
};
use crate::operand::{type_from_mod_spec, Operand};
use crate::table::{
    lemma_leading_literal, lemma_match_is_literal, lemma_shifts3, literal_matches, match_spec,
    raw_layout, template_bytes, with_shifts,
};

verus! {

/// The register/memory-with-register forms of move, add, subtract and compare:
/// `opcode d w | mod reg rm | ...`.
pub open spec fn is_rm_reg(t: TemplateId) -> bool {
    t == TemplateId::MovRmReg || t == TemplateId::AddRmReg || t == TemplateId::SubRmReg || t
        == TemplateId::CmpRmReg
}

/// The flags the first byte of a register/memory form sets: D (4) from bit 1, W (1) from
/// bit 0.
pub open spec fn dw_flags(byte: u8) -> BitFlag {
    BitFlag((((byte >> 1u8) & 1u8) * 4 + (byte & 1u8)) as u8)
}

proof fn lemma_dw_bits(byte: u8)
    ensures
        extract(byte, 1, 1) <= 1,
        extract(byte, 0, 1) <= 1,
        extract(byte, 1, 1) == (byte >> 1u8) & 1u8,
        extract(byte, 0, 1) == byte & 1u8,
        extract(byte, 2, 6) == byte >> 2u8,
        (0u8 | 4u8) == 4u8,
        (4u8 | 1u8) == 5u8,
        (0u8 | 1u8) == 1u8,
{
    assert(extract(byte, 1, 1) <= 1 && extract(byte, 0, 1) <= 1) by (bit_vector);
    assert(extract(byte, 1, 1) == (byte >> 1u8) & 1u8 && extract(byte, 0, 1) == byte & 1u8)
        by (bit_vector);
    assert(extract(byte, 2, 6) == byte >> 2u8) by (bit_vector);
    assert((0u8 | 4u8) == 4u8 && (4u8 | 1u8) == 5u8 && (0u8 | 1u8) == 1u8) by (bit_vector);
}

proof fn lemma_mod_reg_rm_bits(b: u8)
    ensures
        extract(b, 6, 2) == b >> 6u8,
        extract(b, 3, 3) == (b >> 3u8) & 7u8,
        extract(b, 0, 3) == b & 7u8,
        b >> 6u8 <= 3,
{
    assert(extract(b, 6, 2) == b >> 6u8 && b >> 6u8 <= 3) by (bit_vector);
    assert(extract(b, 3, 3) == (b >> 3u8) & 7u8) by (bit_vector);
    assert(extract(b, 0, 3) == b & 7u8) by (bit_vector);
}

/// Decoding the first byte of a register/memory form: no operand yet, and the direction and
/// word flags read from bits 1 and 0.
pub proof fn lemma_decode_rm_reg_first(byte: u8)
    requires
        match_spec(byte) is Some,
        is_rm_reg(match_spec(byte)->Some_0),
    ensures
        new_spec(byte) == Ok::<Instruction, DecodingError>(
            Instruction {
                operand_a: None,
                operand_b: None,
                flags: dw_flags(byte),
                template: match_spec(byte)->Some_0,
            },
        ),
{
    let t = match_spec(byte)->Some_0;
    lemma_match_is_literal(byte, 0);
    lemma_leading_literal(t, byte);
    assert(literal_matches(t, byte));
    let raw = raw_layout(t)[0];
    lemma_shifts3(raw);
    let f = template_bytes(t)[0];
    assert(f == with_shifts(raw));
    lemma_dw_bits(byte);
    let s0 = fresh(t);
    assert(f.drop_last() =~= f.take(2));
    assert(f.take(2).drop_last() =~= f.take(1));
    assert(f.take(1).drop_last() =~= f.take(0));
    assert(f.take(0) =~= Seq::<Bits>::empty());
    let lit = byte >> 2u8;
    assert(first_byte_fold(s0, f.take(0), byte) == Ok::<
        (Instruction, Option<u8>),
        DecodingError,
    >((s0, None)));
    assert(first_byte_fold(s0, f.take(1), byte) == Ok::<
        (Instruction, Option<u8>),
        DecodingError,
    >((s0, Some(lit))));
    let d = (byte >> 1u8) & 1u8;
    let w = byte & 1u8;
    let s1 = Instruction { flags: BitFlag(if d == 1 { 4u8 } else { 0u8 }), ..s0 };
    assert(first_byte_fold(s0, f.take(2), byte) == Ok::<
        (Instruction, Option<u8>),
        DecodingError,
    >((s1, Some(lit))));
    let s2 = Instruction {
        flags: BitFlag(
            if d == 1 {
                if w == 1 {
                    5u8
                } else {
                    4u8
                }
            } else if w == 1 {
                1u8
            } else {
                0u8
            },
        ),
        ..s0
    };
    assert(first_byte_fold(s0, f, byte) == Ok::<
        (Instruction, Option<u8>),
        DecodingError,
    >((s2, Some(lit))));
    assert(s2.flags == dw_flags(byte));
}

/// Decoding the second byte of a register/memory form: the register field `(b >> 3) & 7`
/// fills the register-side operand, and the mode `b >> 6` with the RM field `b & 7` the other.
pub proof fn lemma_decode_rm_reg_second(s: Instruction, b: u8)
    requires
        is_rm_reg(s.template),
        s.operand_a is None,
        s.operand_b is None,
    ensures
        ({
            let s2 = Instruction {
                operand_a: Some(reg_operand((b >> 3u8) & 7u8, s.flags)),
                operand_b: Some(
                    Operand {
                        operand_type: Some(type_from_mod_spec(b & 7u8, b >> 6u8, s.flags)->Ok_0),
                        value: Some(b & 7u8),
                        displacement: None,
                        data: None,
                    },
                ),
                ..s
            };
            type_from_mod_spec(b & 7u8, b >> 6u8, s.flags) is Ok && continue_spec(s, b) == Ok::<
                (Instruction, u8),
                DecodingError,
            >((s2, additional_spec(s2)))
        }),
{
    let raw = raw_layout(s.template)[1];
    lemma_shifts3(raw);
    let f = template_bytes(s.template)[1];
    assert(f == with_shifts(raw));
    lemma_mod_reg_rm_bits(b);
    assert(f.drop_last() =~= f.take(2));
    assert(f.take(2).drop_last() =~= f.take(1));
    assert(f.take(1).drop_last() =~= f.take(0));
    assert(f.take(0) =~= Seq::<Bits>::empty());
    let mode = b >> 6u8;
    let reg = (b >> 3u8) & 7u8;
    let rm = b & 7u8;
    assert(second_byte_fold(s, f.take(0), b) == Ok::<
        (Instruction, Option<u8>, Option<u8>),
        DecodingError,
    >((s, None, None)));
    assert(second_byte_fold(s, f.take(1), b) == Ok::<
        (Instruction, Option<u8>, Option<u8>),
        DecodingError,
    >((s, Some(mode), None)));
    let s1 = Instruction { operand_a: Some(reg_operand(reg, s.flags)), ..s };
    assert(second_byte_fold(s, f.take(2), b) == Ok::<
        (Instruction, Option<u8>, Option<u8>),
        DecodingError,
    >((s1, Some(mode), None)));
    assert(second_byte_fold(s, f, b) == Ok::<
        (Instruction, Option<u8>, Option<u8>),
        DecodingError,
    >((s1, Some(mode), Some(rm))));
}

} // verus!
