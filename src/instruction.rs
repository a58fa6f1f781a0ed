use vstd::prelude::*;

use crate::assembled_instruction::{
    extract, AssembledInstruction, BitFlag, BitOrder, BitUsage, Bits, Operation, TemplateId,
};
use crate::operand::{
    bytes_needed_spec, has_s, includes_usage_s, sign_extend, size_spec, store_byte_spec,
    type_from_mod_spec, Displacement, Operand, OperandType, OperandTypeError, Size,
};
use crate::table::{
    assembled_instruction, match_first_byte, match_spec, template_bytes, template_operation,
};

verus! {

/// Why decoding one instruction failed.
#[derive(Debug, Clone, Copy, PartialEq, Eq, Structural)]
pub enum DecodingError {
    InvalidBitUsageError(BitUsage),
    FieldAlreadyDecodedError,
    FieldNotYetDecodedError,
    InstructionNotRecognizedError,
    UnexpectedDecodedValueError(u8),
    OperandTypeError(OperandTypeError),
    UnexpectedOperandError,
    TemplateTooShortError,
}

/// The decode state of one instruction: its two operand slots (the register side and the
/// other side), the flags read so far, and the template it is decoded against.
#[derive(Debug, Clone, Copy, PartialEq, Eq, Structural)]
pub struct Instruction {
    pub operand_a: Option<Operand>,
    pub operand_b: Option<Operand>,
    pub flags: BitFlag,
    pub template: TemplateId,
}

/// The value a placed field holds in `byte`; `None` for a field without a usable shift.
pub open spec fn field_value_spec(bits: Bits, byte: u8) -> Option<u8> {
    match bits.shift {
        Some(sh) => if sh < 8 && bits.size <= 8 {
            Some(extract(byte, sh, bits.size))
        } else {
            None
        },
        None => None,
    }
}

/// A step's outcome matches the expected one: the same error, or success with that state.
pub open spec fn follows<T>(
    r: Result<T, DecodingError>,
    after: Instruction,
    expected: Result<Instruction, DecodingError>,
) -> bool {
    match expected {
        Ok(s) => r is Ok && after == s,
        Err(e) => r is Err && r->Err_0 == e,
    }
}

/// The decode state right after the template is chosen.
pub open spec fn fresh(t: TemplateId) -> Instruction {
    Instruction { operand_a: None, operand_b: None, flags: BitFlag(0), template: t }
}

/// A one-bit flag field: a set bit joins the flags.
pub open spec fn set_flag_spec(s: Instruction, flag: BitFlag, value: u8) -> Result<
    Instruction,
    DecodingError,
> {
    if value == 1 {
        Ok(Instruction { flags: BitFlag(s.flags.0 | flag.0), ..s })
    } else if value == 0 {
        Ok(s)
    } else {
        Err(DecodingError::UnexpectedDecodedValueError(value))
    }
}

/// The register operand of a register code, sized by the word flag.
pub open spec fn reg_operand(reg: u8, flags: BitFlag) -> Operand {
    Operand {
        operand_type: Some(OperandType::Register(size_spec(flags))),
        value: Some(reg),
        displacement: None,
        data: None,
    }
}

/// An immediate operand, sized by the word flag, with its low byte if known.
pub open spec fn immediate_operand(data: Option<u8>, flags: BitFlag) -> Operand {
    Operand {
        operand_type: Some(OperandType::Immediate(size_spec(flags))),
        value: None,
        displacement: None,
        data: match data {
            Some(d) => Some(d as i16),
            None => None,
        },
    }
}

/// The register field fills the register-side slot, which must be empty.
pub open spec fn set_reg_spec(s: Instruction, reg: u8) -> Result<Instruction, DecodingError> {
    match s.operand_a {
        Some(_) => Err(DecodingError::FieldAlreadyDecodedError),
        None => Ok(Instruction { operand_a: Some(reg_operand(reg, s.flags)), ..s }),
    }
}

/// The mode and RM fields, seen together, fill the other slot, which must be empty.
pub open spec fn set_rm_spec(s: Instruction, rm: Option<u8>, mode: Option<u8>) -> Result<
    Instruction,
    DecodingError,
> {
    match (rm, mode) {
        (None, None) => Ok(s),
        (Some(rm), Some(mode)) => match s.operand_b {
            Some(_) => Err(DecodingError::FieldAlreadyDecodedError),
            None => match type_from_mod_spec(rm, mode, s.flags) {
                Ok(t) => Ok(
                    Instruction {
                        operand_b: Some(
                            Operand {
                                operand_type: Some(t),
                                value: Some(rm),
                                displacement: None,
                                data: None,
                            },
                        ),
                        ..s
                    },
                ),
                Err(e) => Err(DecodingError::OperandTypeError(e)),
            },
        },
        _ => Err(DecodingError::FieldNotYetDecodedError),
    }
}

/// What a data byte stores: a low byte read under the sign-extend flag is widened by sign.
pub open spec fn data_store_spec(slot: Option<i16>, data: u8, order: BitOrder, flags: BitFlag) -> Result<
    i16,
    DecodingError,
> {
    match store_byte_spec(slot, data, order) {
        Ok(v) => Ok(
            if order == BitOrder::LOW && has_s(flags) {
                sign_extend(data)
            } else {
                v
            },
        ),
        Err(e) => Err(e),
    }
}

/// Whether an operand is an immediate.
pub open spec fn is_immediate(op: Operand) -> bool {
    op.operand_type matches Some(OperandType::Immediate(_))
}

/// Whether an operand is a memory reference through registers.
pub open spec fn is_memory(op: Operand) -> bool {
    op.operand_type matches Some(OperandType::Memory(_))
}

/// Whether an operand is a direct address.
pub open spec fn is_direct(op: Operand) -> bool {
    op.operand_type matches Some(OperandType::DirectAccess(_))
}

/// A data byte goes to the immediate operand, when exactly one operand is immediate.
pub open spec fn set_data_spec(s: Instruction, data: u8, order: BitOrder) -> Result<
    Instruction,
    DecodingError,
> {
    match (s.operand_a, s.operand_b) {
        (Some(a), Some(b)) => if is_immediate(a) && is_immediate(b) {
            Err(DecodingError::UnexpectedOperandError)
        } else if is_immediate(a) {
            match data_store_spec(a.data, data, order, s.flags) {
                Ok(v) => Ok(Instruction { operand_a: Some(Operand { data: Some(v), ..a }), ..s }),
                Err(e) => Err(e),
            }
        } else if is_immediate(b) {
            match data_store_spec(b.data, data, order, s.flags) {
                Ok(v) => Ok(Instruction { operand_b: Some(Operand { data: Some(v), ..b }), ..s }),
                Err(e) => Err(e),
            }
        } else {
            Err(DecodingError::UnexpectedOperandError)
        },
        _ => Err(DecodingError::FieldNotYetDecodedError),
    }
}

/// A data field: makes the immediate operand in a free slot, or stores into the existing one.
pub open spec fn set_immediate_spec(s: Instruction, data: Option<u8>, order: BitOrder) -> Result<
    Instruction,
    DecodingError,
> {
    match (s.operand_a, s.operand_b) {
        (Some(_), None) => Ok(
            Instruction { operand_b: Some(immediate_operand(data, s.flags)), ..s },
        ),
        (None, _) => Ok(Instruction { operand_a: Some(immediate_operand(data, s.flags)), ..s }),
        (Some(_), Some(_)) => match data {
            None => Err(DecodingError::FieldAlreadyDecodedError),
            Some(d) => set_data_spec(s, d, order),
        },
    }
}

/// A displacement field: with no operands yet it makes the two jump operands, otherwise it
/// goes to the memory operand, else to the direct-address operand.
pub open spec fn set_displacement_spec(s: Instruction, disp: u8, order: BitOrder) -> Result<
    Instruction,
    DecodingError,
> {
    match (s.operand_a, s.operand_b) {
        (None, None) => Ok(
            Instruction {
                operand_a: Some(
                    Operand {
                        operand_type: Some(OperandType::Jump),
                        value: None,
                        displacement: Some(disp as i16),
                        data: None,
                    },
                ),
                operand_b: Some(
                    Operand {
                        operand_type: Some(OperandType::NotUsed),
                        value: None,
                        displacement: None,
                        data: None,
                    },
                ),
                ..s
            },
        ),
        (Some(a), Some(b)) => if is_memory(b) && is_memory(a) {
            Err(DecodingError::UnexpectedOperandError)
        } else if is_memory(b) || (!is_memory(a) && is_direct(b)) {
            match store_byte_spec(b.displacement, disp, order) {
                Ok(v) => Ok(
                    Instruction { operand_b: Some(Operand { displacement: Some(v), ..b }), ..s },
                ),
                Err(e) => Err(e),
            }
        } else if is_memory(a) || is_direct(a) {
            match store_byte_spec(a.displacement, disp, order) {
                Ok(v) => Ok(
                    Instruction { operand_a: Some(Operand { displacement: Some(v), ..a }), ..s },
                ),
                Err(e) => Err(e),
            }
        } else {
            Err(DecodingError::UnexpectedOperandError)
        },
        _ => Err(DecodingError::FieldNotYetDecodedError),
    }
}

/// The accumulator short forms whose first-byte literal stands for operands of its own.
pub open spec fn handle_first_spec(s: Instruction, literal: u8) -> Result<Instruction, DecodingError> {
    if literal == 0b1010000 || literal == 0b1010001 {
        match set_reg_spec(s, 0) {
            Ok(s1) => match set_rm_spec(s1, Some(0b110), Some(0b00)) {
                Ok(s2) => if literal == 0b1010000 {
                    set_flag_spec(s2, BitFlag(4), 1)
                } else {
                    Ok(s2)
                },
                Err(e) => Err(e),
            },
            Err(e) => Err(e),
        }
    } else if literal == 0b0000010 || literal == 0b0010110 || literal == 0b0011110 {
        match set_reg_spec(s, 0) {
            Ok(s1) => set_immediate_spec(s1, None, BitOrder::LOW),
            Err(e) => Err(e),
        }
    } else {
        Ok(s)
    }
}

/// The templates of the immediate-to-register/memory group, told apart by the second byte.
pub open spec fn is_arith_group(t: TemplateId) -> bool {
    t == TemplateId::ArithImmRm || t == TemplateId::AddImmRm || t == TemplateId::SubImmRm || t
        == TemplateId::CmpImmRm
}

/// The concrete template that the group code of the second byte selects.
pub open spec fn group_template(t: TemplateId, code: u8) -> TemplateId {
    if is_arith_group(t) {
        if code == 0b000 {
            TemplateId::AddImmRm
        } else if code == 0b101 {
            TemplateId::SubImmRm
        } else if code == 0b111 {
            TemplateId::CmpImmRm
        } else {
            t
        }
    } else {
        t
    }
}

/// A literal in the second byte picks the concrete template of a group, then adds an
/// immediate operand.
pub open spec fn handle_second_spec(s: Instruction, literal: u8) -> Result<Instruction, DecodingError> {
    set_immediate_spec(
        Instruction { template: group_template(s.template, literal), ..s },
        None,
        BitOrder::LOW,
    )
}

/// One field of the first byte: literal, flag or register.
pub open spec fn first_byte_step(s: Instruction, lit: Option<u8>, bits: Bits, byte: u8) -> Result<
    (Instruction, Option<u8>),
    DecodingError,
> {
    match field_value_spec(bits, byte) {
        None => Err(DecodingError::InvalidBitUsageError(bits.usage)),
        Some(v) => match bits.usage {
            BitUsage::Literal => Ok((s, Some(v))),
            BitUsage::Flag(f) => match set_flag_spec(s, f, v) {
                Ok(x) => Ok((x, lit)),
                Err(e) => Err(e),
            },
            BitUsage::Reg => match set_reg_spec(s, v) {
                Ok(x) => Ok((x, lit)),
                Err(e) => Err(e),
            },
            u => Err(DecodingError::InvalidBitUsageError(u)),
        },
    }
}

/// The fields of the first byte applied left to right, with the literal value seen.
pub open spec fn first_byte_fold(s: Instruction, fields: Seq<Bits>, byte: u8) -> Result<
    (Instruction, Option<u8>),
    DecodingError,
>
    decreases fields.len(),
{
    if fields.len() == 0 {
        Ok((s, None))
    } else {
        match first_byte_fold(s, fields.drop_last(), byte) {
            Ok((st, lit)) => first_byte_step(st, lit, fields.last(), byte),
            Err(e) => Err(e),
        }
    }
}

/// The decode state after the first byte of an instruction.
pub open spec fn new_spec(byte: u8) -> Result<Instruction, DecodingError> {
    match match_spec(byte) {
        None => Err(DecodingError::InstructionNotRecognizedError),
        Some(t) => if template_bytes(t).len() == 0 {
            Err(DecodingError::InstructionNotRecognizedError)
        } else {
            match first_byte_fold(fresh(t), template_bytes(t)[0], byte) {
                Ok((s, lit)) => match lit {
                    Some(l) => handle_first_spec(s, l),
                    None => Ok(s),
                },
                Err(e) => Err(e),
            }
        },
    }
}

/// One field of the second byte.
pub open spec fn second_byte_step(
    st: (Instruction, Option<u8>, Option<u8>),
    bits: Bits,
    byte: u8,
) -> Result<(Instruction, Option<u8>, Option<u8>), DecodingError> {
    let (s, mode, rm) = st;
    match field_value_spec(bits, byte) {
        None => Err(DecodingError::InvalidBitUsageError(bits.usage)),
        Some(v) => {
            let next = match bits.usage {
                BitUsage::Literal => handle_second_spec(s, v),
                BitUsage::Flag(f) => set_flag_spec(s, f, v),
                BitUsage::Reg => set_reg_spec(s, v),
                BitUsage::Data(o) => set_immediate_spec(s, Some(v), o),
                BitUsage::Disp(o) => set_displacement_spec(s, v, o),
                BitUsage::Rm => Ok(s),
                BitUsage::Mode => Ok(s),
                u => Err(DecodingError::InvalidBitUsageError(u)),
            };
            match next {
                Ok(x) => Ok(
                    (
                        x,
                        if bits.usage == BitUsage::Mode {
                            Some(v)
                        } else {
                            mode
                        },
                        if bits.usage == BitUsage::Rm {
                            Some(v)
                        } else {
                            rm
                        },
                    ),
                ),
                Err(e) => Err(e),
            }
        },
    }
}

/// The fields of the second byte applied left to right, with the mode and RM values seen.
pub open spec fn second_byte_fold(s: Instruction, fields: Seq<Bits>, byte: u8) -> Result<
    (Instruction, Option<u8>, Option<u8>),
    DecodingError,
>
    decreases fields.len(),
{
    if fields.len() == 0 {
        Ok((s, None, None))
    } else {
        match second_byte_fold(s, fields.drop_last(), byte) {
            Ok(st) => second_byte_step(st, fields.last(), byte),
            Err(e) => Err(e),
        }
    }
}

/// The trailing bytes both operands still need.
pub open spec fn additional_spec(s: Instruction) -> u8 {
    let template_s = includes_usage_s(template_bytes(s.template));
    let a = match s.operand_a {
        Some(op) => bytes_needed_spec(op, s.flags, template_s),
        None => 0,
    };
    let b = match s.operand_b {
        Some(op) => bytes_needed_spec(op, s.flags, template_s),
        None => 0,
    };
    (a + b) as u8
}

/// The decode state after the second byte, with the count of trailing bytes still needed.
pub open spec fn continue_spec(s: Instruction, byte: u8) -> Result<(Instruction, u8), DecodingError> {
    if template_bytes(s.template).len() < 2 {
        Err(DecodingError::TemplateTooShortError)
    } else {
        match second_byte_fold(s, template_bytes(s.template)[1], byte) {
            Ok((s1, mode, rm)) => match set_rm_spec(s1, rm, mode) {
                Ok(s2) => Ok((s2, additional_spec(s2))),
                Err(e) => Err(e),
            },
            Err(e) => Err(e),
        }
    }
}

/// Whether a trailing field carries meaning for the operands decoded so far.
pub open spec fn should_process_spec(s: Instruction, bits: Bits) -> bool {
    match bits.usage {
        BitUsage::Data(order) => order == BitOrder::LOW || size_spec(s.flags) == Size::WORD,
        BitUsage::Disp(order) => match s.operand_b {
            Some(b) => match b.operand_type {
                Some(OperandType::Memory(Displacement::YES(size))) => order == BitOrder::LOW || size
                    == Size::WORD,
                Some(OperandType::DirectAccess(_)) => true,
                _ => false,
            },
            None => false,
        },
        _ => true,
    }
}

/// The template bytes, from the third on and before `hi`, whose first field carries meaning.
pub open spec fn selected_bytes(s: Instruction, hi: int) -> Seq<int>
    decreases hi,
{
    if hi <= 2 {
        Seq::empty()
    } else {
        let rest = selected_bytes(s, hi - 1);
        let fields = template_bytes(s.template)[hi - 1];
        if fields.len() > 0 && should_process_spec(s, fields[0]) {
            rest.push(hi - 1)
        } else {
            rest
        }
    }
}

/// One field of a trailing byte: data or displacement, when it carries meaning.
pub open spec fn trailing_step(s: Instruction, bits: Bits, byte: u8) -> Result<Instruction, DecodingError> {
    match field_value_spec(bits, byte) {
        None => Err(DecodingError::InvalidBitUsageError(bits.usage)),
        Some(v) => if should_process_spec(s, bits) {
            match bits.usage {
                BitUsage::Data(o) => set_immediate_spec(s, Some(v), o),
                BitUsage::Disp(o) => set_displacement_spec(s, v, o),
                u => Err(DecodingError::InvalidBitUsageError(u)),
            }
        } else {
            Ok(s)
        },
    }
}

/// The fields of one trailing byte applied left to right.
pub open spec fn trailing_fold(s: Instruction, fields: Seq<Bits>, byte: u8) -> Result<Instruction, DecodingError>
    decreases fields.len(),
{
    if fields.len() == 0 {
        Ok(s)
    } else {
        match trailing_fold(s, fields.drop_last(), byte) {
            Ok(st) => trailing_step(st, fields.last(), byte),
            Err(e) => Err(e),
        }
    }
}

/// The first `n` given trailing bytes applied to the selected template bytes, in order.
pub open spec fn finalize_fold(
    s: Instruction,
    sel: Seq<int>,
    given: Seq<u8>,
    template: TemplateId,
    n: int,
) -> Result<Instruction, DecodingError>
    decreases n,
{
    if n <= 0 {
        Ok(s)
    } else {
        match finalize_fold(s, sel, given, template, n - 1) {
            Ok(st) => trailing_fold(st, template_bytes(template)[sel[n - 1]], given[n - 1]),
            Err(e) => Err(e),
        }
    }
}

/// The decode state once the trailing bytes are read: each given byte fills the next
/// template byte that carries meaning; extra given bytes are ignored.
pub open spec fn finalize_spec(s: Instruction, given: Seq<u8>) -> Result<Instruction, DecodingError> {
    let sel = selected_bytes(s, template_bytes(s.template).len() as int);
    let n = if given.len() < sel.len() {
        given.len() as int
    } else {
        sel.len() as int
    };
    finalize_fold(s, sel, given, s.template, n)
}

/// The destination and the source, in that order: the register side is the destination
/// when the direction flag is set or the other side is an immediate.
pub open spec fn sorted_spec(s: Instruction) -> (Operand, Operand) {
    let a = s.operand_a.unwrap();
    let b = s.operand_b.unwrap();
    if s.flags.0 & 4 == 4 || is_immediate(b) {
        (a, b)
    } else {
        (b, a)
    }
}

fn field_value(bits: &Bits, byte: u8) -> (r: Option<u8>)
    ensures
        r == field_value_spec(*bits, byte),
{
    match bits.shift {
        Some(sh) => if sh < 8 && bits.size <= 8 {
            Some(bits.decode_value(byte))
        } else {
            None
        },
        None => None,
    }
}

proof fn lemma_first_fold_err(s: Instruction, fields: Seq<Bits>, byte: u8, i: int)
    requires
        0 <= i <= fields.len(),
        first_byte_fold(s, fields.take(i), byte) is Err,
    ensures
        first_byte_fold(s, fields, byte) == first_byte_fold(s, fields.take(i), byte),
    decreases fields.len(),
{
    if i < fields.len() {
        assert(fields.drop_last().take(i) =~= fields.take(i));
        lemma_first_fold_err(s, fields.drop_last(), byte, i);
    } else {
        assert(fields.take(i) =~= fields);
    }
}

proof fn lemma_second_fold_err(s: Instruction, fields: Seq<Bits>, byte: u8, i: int)
    requires
        0 <= i <= fields.len(),
        second_byte_fold(s, fields.take(i), byte) is Err,
    ensures
        second_byte_fold(s, fields, byte) == second_byte_fold(s, fields.take(i), byte),
    decreases fields.len(),
{
    if i < fields.len() {
        assert(fields.drop_last().take(i) =~= fields.take(i));
        lemma_second_fold_err(s, fields.drop_last(), byte, i);
    } else {
        assert(fields.take(i) =~= fields);
    }
}

proof fn lemma_trailing_fold_err(s: Instruction, fields: Seq<Bits>, byte: u8, i: int)
    requires
        0 <= i <= fields.len(),
        trailing_fold(s, fields.take(i), byte) is Err,
    ensures
        trailing_fold(s, fields, byte) == trailing_fold(s, fields.take(i), byte),
    decreases fields.len(),
{
    if i < fields.len() {
        assert(fields.drop_last().take(i) =~= fields.take(i));
        lemma_trailing_fold_err(s, fields.drop_last(), byte, i);
    } else {
        assert(fields.take(i) =~= fields);
    }
}

proof fn lemma_finalize_fold_err(
    s: Instruction,
    sel: Seq<int>,
    given: Seq<u8>,
    t: TemplateId,
    i: int,
    n: int,
)
    requires
        0 <= i <= n,
        finalize_fold(s, sel, given, t, i) is Err,
    ensures
        finalize_fold(s, sel, given, t, n) == finalize_fold(s, sel, given, t, i),
    decreases n,
{
    if i < n {
        lemma_finalize_fold_err(s, sel, given, t, i, n - 1);
    }
}

impl Instruction {
    /// Starts decoding an instruction from its first byte.
    pub fn new(byte: u8) -> (r: Result<Self, DecodingError>)
        ensures
            r == new_spec(byte),
    {
        let t = match match_first_byte(byte) {
            Some(t) => t,
            None => {
                return Err(DecodingError::InstructionNotRecognizedError);
            },
        };
        let template = assembled_instruction(t);
        if template.bytes.len() == 0 {
            return Err(DecodingError::InstructionNotRecognizedError);
        }
        let mut instr = Instruction {
            operand_a: None,
            operand_b: None,
            flags: BitFlag(0),
            template: t,
        };
        let fields = &template.bytes[0].bits;
        let ghost s0 = fresh(t);
        let ghost fs = fields@;
        assert(fs == template_bytes(t)[0]);
        let mut lit_val: Option<u8> = None;
        let mut i: usize = 0;
        while i < fields.len()
            invariant
                0 <= i <= fields.len(),
                fs == fields@,
                fs == template_bytes(t)[0],
                s0 == fresh(t),
                match_spec(byte) == Some(t),
                template_bytes(t).len() > 0,
                first_byte_fold(s0, fs.take(i as int), byte) == Ok::<
                    (Instruction, Option<u8>),
                    DecodingError,
                >((instr, lit_val)),
            decreases fields.len() - i,
        {
            let bits = fields[i];
            assert(fs.take(i + 1).drop_last() =~= fs.take(i as int));
            let v = match field_value(&bits, byte) {
                Some(v) => v,
                None => {
                    proof {
                        lemma_first_fold_err(s0, fs, byte, i + 1);
                    }
                    return Err(DecodingError::InvalidBitUsageError(bits.usage));
                },
            };
            let step = match bits.usage {
                BitUsage::Literal => {
                    lit_val = Some(v);
                    Ok(())
                },
                BitUsage::Flag(f) => instr.set_flag(f, v),
                BitUsage::Reg => instr.set_reg_operand(v),
                u => Err(DecodingError::InvalidBitUsageError(u)),
            };
            match step {
                Ok(()) => {},
                Err(e) => {
                    proof {
                        lemma_first_fold_err(s0, fs, byte, i + 1);
                    }
                    return Err(e);
                },
            }
            i += 1;
        }
        assert(fs.take(i as int) =~= fs);
        match lit_val {
            Some(l) => {
                match instr.handle_literal_in_first_byte(l) {
                    Ok(()) => {},
                    Err(e) => {
                        return Err(e);
                    },
                }
            },
            None => {},
        }
        Ok(instr)
    }

    pub fn operation(&self) -> (r: Operation)
        ensures
            r == template_operation(self.template),
    {
        assembled_instruction(self.template).operation
    }

    fn set_flag(&mut self, flag: BitFlag, value: u8) -> (r: Result<(), DecodingError>)
        ensures
            follows(r, *final(self), set_flag_spec(*old(self), flag, value)),
    {
        if value == 1 {
            self.flags = BitFlag(self.flags.0 | flag.0);
            Ok(())
        } else if value == 0 {
            Ok(())
        } else {
            Err(DecodingError::UnexpectedDecodedValueError(value))
        }
    }

    fn set_reg_operand(&mut self, reg: u8) -> (r: Result<(), DecodingError>)
        ensures
            follows(r, *final(self), set_reg_spec(*old(self), reg)),
    {
        match self.operand_a {
            Some(_) => Err(DecodingError::FieldAlreadyDecodedError),
            None => {
                match Operand::reg(reg, self.flags) {
                    Ok(op) => {
                        self.operand_a = Some(op);
                        Ok(())
                    },
                    Err(e) => Err(DecodingError::OperandTypeError(e)),
                }
            },
        }
    }

    fn set_rm_operand(&mut self, rm: Option<u8>, mode: Option<u8>) -> (r: Result<(), DecodingError>)
        ensures
            follows(r, *final(self), set_rm_spec(*old(self), rm, mode)),
    {
        match (rm, mode) {
            (None, None) => Ok(()),
            (Some(rm), Some(mode)) => match self.operand_b {
                Some(_) => Err(DecodingError::FieldAlreadyDecodedError),
                None => match Operand::rm(rm, mode, self.flags) {
                    Ok(op) => {
                        self.operand_b = Some(op);
                        Ok(())
                    },
                    Err(e) => Err(DecodingError::OperandTypeError(e)),
                },
            },
            _ => Err(DecodingError::FieldNotYetDecodedError),
        }
    }

    fn set_data(&mut self, data: u8, bit_order: BitOrder) -> (r: Result<(), DecodingError>)
        ensures
            follows(r, *final(self), set_data_spec(*old(self), data, bit_order)),
    {
        let widen = bit_order == BitOrder::LOW && self.flags.is_flag_toogled(BitFlag::s());
        match (self.operand_a, self.operand_b) {
            (Some(mut a), Some(mut b)) => {
                let a_imm = matches!(a.operand_type, Some(OperandType::Immediate(_)));
                let b_imm = matches!(b.operand_type, Some(OperandType::Immediate(_)));
                if a_imm && b_imm {
                    Err(DecodingError::UnexpectedOperandError)
                } else if a_imm {
                    a.set_data(data, bit_order)?;
                    if widen {
                        a.data = Some(sign_extend_byte(data));
                    }
                    self.operand_a = Some(a);
                    Ok(())
                } else if b_imm {
                    b.set_data(data, bit_order)?;
                    if widen {
                        b.data = Some(sign_extend_byte(data));
                    }
                    self.operand_b = Some(b);
                    Ok(())
                } else {
                    Err(DecodingError::UnexpectedOperandError)
                }
            },
            _ => Err(DecodingError::FieldNotYetDecodedError),
        }
    }

    fn set_immediate_operand(&mut self, data: Option<u8>, bit_order: BitOrder) -> (r: Result<
        (),
        DecodingError,
    >)
        ensures
            follows(r, *final(self), set_immediate_spec(*old(self), data, bit_order)),
    {
        match (self.operand_a, self.operand_b) {
            (Some(_), None) => {
                match Operand::immediate(data, self.flags) {
                    Ok(op) => {
                        self.operand_b = Some(op);
                        Ok(())
                    },
                    Err(e) => Err(DecodingError::OperandTypeError(e)),
                }
            },
            (None, _) => {
                match Operand::immediate(data, self.flags) {
                    Ok(op) => {
                        self.operand_a = Some(op);
                        Ok(())
                    },
                    Err(e) => Err(DecodingError::OperandTypeError(e)),
                }
            },
            (Some(_), Some(_)) => match data {
                None => Err(DecodingError::FieldAlreadyDecodedError),
                Some(d) => self.set_data(d, bit_order),
            },
        }
    }

    fn set_displacement(&mut self, displacement_decoded: u8, bit_order: BitOrder) -> (r: Result<
        (),
        DecodingError,
    >)
        ensures
            follows(r, *final(self), set_displacement_spec(*old(self), displacement_decoded, bit_order)),
    {
        match (self.operand_a, self.operand_b) {
            (None, None) => {
                let (a, b) = Operand::jump_operands(displacement_decoded);
                self.operand_a = Some(a);
                self.operand_b = Some(b);
                Ok(())
            },
            (Some(mut a), Some(mut b)) => {
                let a_mem = matches!(a.operand_type, Some(OperandType::Memory(_)));
                let b_mem = matches!(b.operand_type, Some(OperandType::Memory(_)));
                let a_direct = matches!(a.operand_type, Some(OperandType::DirectAccess(_)));
                let b_direct = matches!(b.operand_type, Some(OperandType::DirectAccess(_)));
                if a_mem && b_mem {
                    Err(DecodingError::UnexpectedOperandError)
                } else if b_mem || (!a_mem && b_direct) {
                    b.set_displacement(displacement_decoded, bit_order)?;
                    self.operand_b = Some(b);
                    Ok(())
                } else if a_mem || a_direct {
                    a.set_displacement(displacement_decoded, bit_order)?;
                    self.operand_a = Some(a);
                    Ok(())
                } else {
                    Err(DecodingError::UnexpectedOperandError)
                }
            },
            _ => Err(DecodingError::FieldNotYetDecodedError),
        }
    }

    fn handle_literal_in_first_byte(&mut self, decoded_value: u8) -> (r: Result<(), DecodingError>)
        ensures
            follows(r, *final(self), handle_first_spec(*old(self), decoded_value)),
    {
        if decoded_value == 0b1010000 || decoded_value == 0b1010001 {
            self.set_reg_operand(0)?;
            self.set_rm_operand(Some(0b110), Some(0b00))?;
            if decoded_value == 0b1010000 {
                self.set_flag(BitFlag::d(), 1)
            } else {
                Ok(())
            }
        } else if decoded_value == 0b0000010 || decoded_value == 0b0010110 || decoded_value
            == 0b0011110 {
            self.set_reg_operand(0)?;
            self.set_immediate_operand(None, BitOrder::LOW)
        } else {
            Ok(())
        }
    }

    fn handle_literal_in_second_byte(&mut self, decoded_value: u8) -> (r: Result<(), DecodingError>)
        ensures
            follows(r, *final(self), handle_second_spec(*old(self), decoded_value)),
    {
        let group = match self.template {
            TemplateId::ArithImmRm | TemplateId::AddImmRm | TemplateId::SubImmRm
            | TemplateId::CmpImmRm => true,
            _ => false,
        };
        if group {
            if decoded_value == 0b000 {
                self.template = TemplateId::AddImmRm;
            } else if decoded_value == 0b101 {
                self.template = TemplateId::SubImmRm;
            } else if decoded_value == 0b111 {
                self.template = TemplateId::CmpImmRm;
            }
        }
        self.set_immediate_operand(None, BitOrder::LOW)
    }
}

proof fn lemma_selected_range(s: Instruction, hi: int)
    ensures
        forall|j: int|
            0 <= j < selected_bytes(s, hi).len() ==> 2 <= #[trigger] selected_bytes(s, hi)[j] < hi,
    decreases hi,
{
    if hi > 2 {
        lemma_selected_range(s, hi - 1);
        let rest = selected_bytes(s, hi - 1);
        assert forall|j: int| 0 <= j < selected_bytes(s, hi).len() implies 2 <= #[trigger] selected_bytes(s, hi)[j] < hi by {
            if j < rest.len() {
                assert(selected_bytes(s, hi)[j] == rest[j]);
            }
        }
    }
}

impl Instruction {
    /// Reads the second byte: mode, register, RM, flag and literal fields, or the first
    /// displacement or data byte of the short forms. Returns how many trailing bytes remain.
    pub fn continue_disassembly(&mut self, byte: u8) -> (r: Result<usize, DecodingError>)
        ensures
            match continue_spec(*old(self), byte) {
                Ok((s, n)) => r == Ok::<usize, DecodingError>(n as usize) && *final(self) == s,
                Err(e) => r == Err::<usize, DecodingError>(e),
            },
    {
        let template = assembled_instruction(self.template);
        if template.bytes.len() < 2 {
            return Err(DecodingError::TemplateTooShortError);
        }
        let fields = &template.bytes[1].bits;
        let ghost s0 = *self;
        let ghost fs = fields@;
        assert(fs == template_bytes(s0.template)[1]);
        let mut mode: Option<u8> = None;
        let mut rm: Option<u8> = None;
        let mut i: usize = 0;
        while i < fields.len()
            invariant
                0 <= i <= fields.len(),
                fs == fields@,
                fs == template_bytes(s0.template)[1],
                template_bytes(s0.template).len() >= 2,
                s0 == *old(self),
                second_byte_fold(s0, fs.take(i as int), byte) == Ok::<
                    (Instruction, Option<u8>, Option<u8>),
                    DecodingError,
                >((*self, mode, rm)),
            decreases fields.len() - i,
        {
            let bits = fields[i];
            assert(fs.take(i + 1).drop_last() =~= fs.take(i as int));
            let v = match field_value(&bits, byte) {
                Some(v) => v,
                None => {
                    proof {
                        lemma_second_fold_err(s0, fs, byte, i + 1);
                    }
                    return Err(DecodingError::InvalidBitUsageError(bits.usage));
                },
            };
            let step = match bits.usage {
                BitUsage::Literal => self.handle_literal_in_second_byte(v),
                BitUsage::Flag(f) => self.set_flag(f, v),
                BitUsage::Reg => self.set_reg_operand(v),
                BitUsage::Data(o) => self.set_immediate_operand(Some(v), o),
                BitUsage::Disp(o) => self.set_displacement(v, o),
                BitUsage::Rm => {
                    rm = Some(v);
                    Ok(())
                },
                BitUsage::Mode => {
                    mode = Some(v);
                    Ok(())
                },
                u => Err(DecodingError::InvalidBitUsageError(u)),
            };
            match step {
                Ok(()) => {},
                Err(e) => {
                    proof {
                        lemma_second_fold_err(s0, fs, byte, i + 1);
                    }
                    return Err(e);
                },
            }
            i += 1;
        }
        assert(fs.take(i as int) =~= fs);
        self.set_rm_operand(rm, mode)?;
        Ok(self.additional_byte_count() as usize)
    }

    fn additional_byte_count(&self) -> (r: u8)
        ensures
            r == additional_spec(*self),
    {
        let template = assembled_instruction(self.template);
        let a = match self.operand_a {
            Some(op) => op.n_bytes_needed(self.flags, &template),
            None => 0,
        };
        let b = match self.operand_b {
            Some(op) => op.n_bytes_needed(self.flags, &template),
            None => 0,
        };
        a + b
    }

    fn should_process_bits(&self, bits: Bits) -> (r: bool)
        ensures
            r == should_process_spec(*self, bits),
    {
        match bits.usage {
            BitUsage::Data(order) => match order {
                BitOrder::LOW => true,
                BitOrder::HIGH => self.flags.is_flag_toogled(BitFlag::w()),
            },
            BitUsage::Disp(order) => match self.operand_b {
                Some(b) => match b.operand_type {
                    Some(OperandType::Memory(Displacement::YES(size))) => match order {
                        BitOrder::LOW => true,
                        BitOrder::HIGH => size == Size::WORD,
                    },
                    Some(OperandType::DirectAccess(_)) => true,
                    _ => false,
                },
                None => false,
            },
            _ => true,
        }
    }

    /// The template bytes, from the third on, that the trailing bytes will fill.
    fn bytes_to_finalize(&self, template: &AssembledInstruction) -> (r: Vec<usize>)
        requires
            template.bytes_view() == template_bytes(self.template),
        ensures
            r@.len() == selected_bytes(*self, template.bytes@.len() as int).len(),
            forall|j: int|
                0 <= j < r@.len() ==> r@[j] as int == selected_bytes(
                    *self,
                    template.bytes@.len() as int,
                )[j],
    {
        let mut r: Vec<usize> = Vec::new();
        let mut k: usize = 2;
        if template.bytes.len() <= 2 {
            return r;
        }
        while k < template.bytes.len()
            invariant
                2 <= k <= template.bytes.len(),
                template.bytes_view() == template_bytes(self.template),
                r@.len() == selected_bytes(*self, k as int).len(),
                forall|j: int| 0 <= j < r@.len() ==> r@[j] as int == selected_bytes(*self, k as int)[j],
            decreases template.bytes.len() - k,
        {
            let fields = &template.bytes[k].bits;
            assert(fields@ == template_bytes(self.template)[k as int]);
            if fields.len() > 0 && self.should_process_bits(fields[0]) {
                r.push(k);
            }
            k += 1;
        }
        r
    }

    /// Reads the trailing displacement and data bytes. Each given byte fills the next
    /// template byte that carries meaning for the operands decoded so far.
    pub fn finalize_disassembly(&mut self, bytes_given: Vec<u8>) -> (r: Result<(), DecodingError>)
        ensures
            follows(r, *final(self), finalize_spec(*old(self), bytes_given@)),
    {
        let template = assembled_instruction(self.template);
        let sel = self.bytes_to_finalize(&template);
        let ghost s0 = *self;
        let ghost selv = selected_bytes(s0, template_bytes(s0.template).len() as int);
        proof {
            lemma_selected_range(s0, template_bytes(s0.template).len() as int);
        }
        let n = if bytes_given.len() < sel.len() {
            bytes_given.len()
        } else {
            sel.len()
        };
        let mut j: usize = 0;
        while j < n
            invariant
                0 <= j <= n,
                n <= bytes_given.len(),
                n <= sel@.len(),
                sel@.len() == selv.len(),
                forall|x: int| 0 <= x < sel@.len() ==> sel@[x] as int == selv[x],
                forall|x: int|
                    0 <= x < selv.len() ==> 2 <= #[trigger] selv[x] < template_bytes(
                        s0.template,
                    ).len(),
                template.bytes_view() == template_bytes(s0.template),
                s0 == *old(self),
                n as int == (if bytes_given@.len() < selv.len() {
                    bytes_given@.len() as int
                } else {
                    selv.len() as int
                }),
                selv == selected_bytes(s0, template_bytes(s0.template).len() as int),
                finalize_fold(s0, selv, bytes_given@, s0.template, j as int) == Ok::<
                    Instruction,
                    DecodingError,
                >(*self),
            decreases n - j,
        {
            let k = sel[j];
            let given = bytes_given[j];
            assert(selv[j as int] == k as int);
            let fields = &template.bytes[k].bits;
            let ghost fs = fields@;
            let ghost st = *self;
            assert(fs == template_bytes(s0.template)[selv[j as int]]);
            let mut i: usize = 0;
            while i < fields.len()
                invariant
                    0 <= i <= fields.len(),
                    fs == fields@,
                    0 <= j < n,
                    n <= bytes_given.len(),
                    given == bytes_given@[j as int],
                    selv == selected_bytes(s0, template_bytes(s0.template).len() as int),
                    n <= selv.len(),
                    n as int == (if bytes_given@.len() < selv.len() {
                        bytes_given@.len() as int
                    } else {
                        selv.len() as int
                    }),
                    fs == template_bytes(s0.template)[selv[j as int]],
                    s0 == *old(self),
                    finalize_fold(s0, selv, bytes_given@, s0.template, j as int) == Ok::<
                        Instruction,
                        DecodingError,
                    >(st),
                    trailing_fold(st, fs.take(i as int), given) == Ok::<Instruction, DecodingError>(
                        *self,
                    ),
                decreases fields.len() - i,
            {
                let bits = fields[i];
                assert(fs.take(i + 1).drop_last() =~= fs.take(i as int));
                let v = match field_value(&bits, given) {
                    Some(v) => v,
                    None => {
                        proof {
                            lemma_trailing_fold_err(st, fs, given, i + 1);
                            lemma_finalize_fold_err(s0, selv, bytes_given@, s0.template, j + 1, n as int);
                        }
                        return Err(DecodingError::InvalidBitUsageError(bits.usage));
                    },
                };
                if self.should_process_bits(bits) {
                    let step = match bits.usage {
                        BitUsage::Data(o) => self.set_immediate_operand(Some(v), o),
                        BitUsage::Disp(o) => self.set_displacement(v, o),
                        u => Err(DecodingError::InvalidBitUsageError(u)),
                    };
                    match step {
                        Ok(()) => {},
                        Err(e) => {
                            proof {
                                lemma_trailing_fold_err(st, fs, given, i + 1);
                                lemma_finalize_fold_err(s0, selv, bytes_given@, s0.template, j + 1, n as int);
                            }
                            return Err(e);
                        },
                    }
                }
                i += 1;
            }
            assert(fs.take(i as int) =~= fs);
            j += 1;
        }
        Ok(())
    }

    /// The destination and the source operands, in that order.
    pub fn operands_sorted(&self) -> (r: (Operand, Operand))
        requires
            self.operand_a is Some,
            self.operand_b is Some,
        ensures
            r == sorted_spec(*self),
    {
        let a = self.operand_a.unwrap();
        let b = self.operand_b.unwrap();
        let b_imm = matches!(b.operand_type, Some(OperandType::Immediate(_)));
        if self.flags.is_flag_toogled(BitFlag::d()) || b_imm {
            (a, b)
        } else {
            (b, a)
        }
    }
}

fn sign_extend_byte(b: u8) -> (r: i16)
    ensures
        r == sign_extend(b),
{
    if b < 128 {
        b as i16
    } else {
        b as i16 - 256
    }
}

} // verus!
