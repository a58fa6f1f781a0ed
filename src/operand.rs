use vstd::prelude::*;

use crate::assembled_instruction::{
    includes_usage, AssembledInstruction, BitFlag, BitOrder, BitUsage, Bits,
};
use crate::instruction::DecodingError;

verus! {

/// Why an operand has no assembly text.
#[derive(Debug, Clone, Copy, PartialEq, Eq, Structural)]
pub enum OperandToStrError {
    RegisterValueError,
    EffectiveAddrValueError,
    UnexpctedOperandError,
}

/// Either kind of operand failure.
#[derive(Debug, Clone, Copy, PartialEq, Eq, Structural)]
pub enum OperandError {
    TypeDecodingError(OperandTypeError),
    ToStrError(OperandToStrError),
}

/// Why an operand type cannot be formed or used.
#[derive(Debug, Clone, Copy, PartialEq, Eq, Structural)]
pub enum OperandTypeError {
    UnknownModError,
    MissingSizeSpecifierError,
    UncompatibleOperandTypeError,
}

/// The width of a register or an immediate.
#[derive(Debug, Clone, Copy, PartialEq, Eq, Structural)]
pub enum Size {
    BYTE,
    WORD,
}

/// Whether a memory operand carries a displacement, and of which width.
#[derive(Debug, Clone, Copy, PartialEq, Eq, Structural)]
pub enum Displacement {
    NO,
    YES(Size),
}

/// The kind of a decoded operand.
#[derive(Debug, Clone, Copy, PartialEq, Eq, Structural)]
pub enum OperandType {
    Register(Size),
    Memory(Displacement),
    DirectAccess(Displacement),
    Immediate(Size),
    Jump,
    NotUsed,
}

/// Whether the accumulated flags hold the word flag.
pub open spec fn has_w(flags: BitFlag) -> bool {
    flags.0 & 1 == 1
}

/// Whether the accumulated flags hold the sign-extend flag.
pub open spec fn has_s(flags: BitFlag) -> bool {
    flags.0 & 2 == 2
}

/// The operand size that the word flag selects.
pub open spec fn size_spec(flags: BitFlag) -> Size {
    if has_w(flags) {
        Size::WORD
    } else {
        Size::BYTE
    }
}

/// The bytes of a quantity of this size.
pub open spec fn size_bytes(size: Size) -> u8 {
    match size {
        Size::BYTE => 1,
        Size::WORD => 2,
    }
}

/// The displacement bytes that follow a memory operand.
pub open spec fn displacement_bytes(d: Displacement) -> u8 {
    match d {
        Displacement::NO => 0,
        Displacement::YES(size) => size_bytes(size),
    }
}

/// Whether a template carries a sign-extend flag field.
pub open spec fn template_has_s(ass_instr: &AssembledInstruction) -> bool {
    includes_usage_s(ass_instr.bytes_view())
}

/// Whether some field of the template bytes is the sign-extend flag.
pub open spec fn includes_usage_s(bytes: Seq<Seq<Bits>>) -> bool {
    includes_usage(bytes, BitUsage::Flag(BitFlag(2)))
}

/// The trailing bytes an operand of type `t` takes: none for a register, its displacement
/// for memory, two for a direct address, its size for an immediate, one less when the
/// template has a sign-extend field and the flag is set.
pub open spec fn total_bytes_spec(t: OperandType, flags: BitFlag, template_s: bool) -> u8 {
    match t {
        OperandType::Immediate(size) => if template_s && has_s(flags) {
            (size_bytes(size) - 1) as u8
        } else {
            size_bytes(size)
        },
        OperandType::Memory(d) => displacement_bytes(d),
        OperandType::DirectAccess(_) => 2,
        _ => 0,
    }
}

/// The operand type that a mode field and an RM field select.
pub open spec fn type_from_mod_spec(rm: u8, mode: u8, flags: BitFlag) -> Result<
    OperandType,
    OperandTypeError,
> {
    if mode == 0 {
        if rm == 0b110 {
            Ok(OperandType::DirectAccess(Displacement::YES(Size::WORD)))
        } else {
            Ok(OperandType::Memory(Displacement::NO))
        }
    } else if mode == 1 {
        Ok(OperandType::Memory(Displacement::YES(Size::BYTE)))
    } else if mode == 2 {
        Ok(OperandType::Memory(Displacement::YES(Size::WORD)))
    } else if mode == 3 {
        Ok(OperandType::Register(size_spec(flags)))
    } else {
        Err(OperandTypeError::UnknownModError)
    }
}

/// The low byte of a stored 16-bit quantity.
pub open spec fn low_byte(v: i16) -> u8 {
    (v as u16 % 256) as u8
}

/// A byte read as a two's complement number, widened to 16 bits.
pub open spec fn sign_extend(b: u8) -> i16 {
    if b < 128 {
        b as i16
    } else {
        (b as int - 256) as i16
    }
}

/// A stored low byte joined with a high byte, read as a 16-bit two's complement number.
pub open spec fn with_high(v: i16, high: u8) -> i16 {
    (low_byte(v) as int + 256 * high as int) as u16 as i16
}

impl OperandType {
    pub fn total_bytes_required(&self, flags: BitFlag, ass_instr: &AssembledInstruction) -> (r: u8)
        ensures
            r == total_bytes_spec(*self, flags, template_has_s(ass_instr)),
    {
        match self {
            OperandType::Register(_) => 0,
            OperandType::Immediate(size) => {
                let s_field = Bits {
                    usage: BitUsage::Flag(BitFlag::s()),
                    size: 1,
                    value: None,
                    shift: None,
                };
                if ass_instr.includes_bits(s_field) && flags.is_flag_toogled(BitFlag::s()) {
                    size.byte_count() - 1
                } else {
                    size.byte_count()
                }
            },
            OperandType::Memory(displacement) => displacement.byte_count(),
            OperandType::DirectAccess(_) => 2,
            OperandType::Jump => 0,
            OperandType::NotUsed => 0,
        }
    }

    pub fn try_from_mod(rm: u8, mode: u8, flags: BitFlag) -> (r: Result<Self, OperandTypeError>)
        ensures
            r == type_from_mod_spec(rm, mode, flags),
    {
        match mode {
            0b00 => {
                if rm == 0b110 {
                    Ok(OperandType::DirectAccess(Displacement::YES(Size::WORD)))
                } else {
                    Ok(OperandType::Memory(Displacement::NO))
                }
            },
            0b01 => Ok(OperandType::Memory(Displacement::YES(Size::BYTE))),
            0b10 => Ok(OperandType::Memory(Displacement::YES(Size::WORD))),
            0b11 => Ok(OperandType::Register(Size::new(flags))),
            _ => Err(OperandTypeError::UnknownModError),
        }
    }
}

impl Displacement {
    pub fn byte_count(&self) -> (r: u8)
        ensures
            r == displacement_bytes(*self),
    {
        match self {
            Displacement::NO => 0,
            Displacement::YES(size) => size.byte_count(),
        }
    }
}

impl Size {
    pub fn new(flags: BitFlag) -> (r: Self)
        ensures
            r == size_spec(flags),
    {
        if flags.is_flag_toogled(BitFlag::w()) {
            Size::WORD
        } else {
            Size::BYTE
        }
    }

    pub fn byte_count(&self) -> (r: u8)
        ensures
            r == size_bytes(*self),
    {
        match self {
            Size::BYTE => 1,
            Size::WORD => 2,
        }
    }
}

/// A decoded operand: its type, the register or RM code, and the displacement and data
/// magnitudes as they were read, low byte first.
#[derive(Debug, Clone, Copy, PartialEq, Eq, Structural)]
pub struct Operand {
    pub operand_type: Option<OperandType>,
    pub value: Option<u8>,
    pub displacement: Option<i16>,
    pub data: Option<i16>,
}

/// The value of an immediate operand, sign-extended when it is one byte wide.
pub open spec fn signed_data_spec(op: Operand) -> Result<i16, DecodingError> {
    match op.operand_type {
        Some(OperandType::Immediate(size)) => match op.data {
            None => Err(DecodingError::FieldNotYetDecodedError),
            Some(d) => Ok(
                match size {
                    Size::BYTE => sign_extend(low_byte(d)),
                    Size::WORD => d,
                },
            ),
        },
        Some(_) => Err(DecodingError::OperandTypeError(OperandTypeError::UncompatibleOperandTypeError)),
        None => Err(DecodingError::FieldNotYetDecodedError),
    }
}

/// The displacement of a memory, direct-address or jump operand, sign-extended when it is
/// one byte wide.
pub open spec fn signed_displacement_spec(op: Operand) -> Result<i16, DecodingError> {
    match op.operand_type {
        Some(OperandType::Memory(Displacement::YES(size))) => match op.displacement {
            None => Err(DecodingError::FieldNotYetDecodedError),
            Some(d) => Ok(
                match size {
                    Size::BYTE => sign_extend(low_byte(d)),
                    Size::WORD => d,
                },
            ),
        },
        Some(OperandType::DirectAccess(_)) => match op.displacement {
            None => Err(DecodingError::FieldNotYetDecodedError),
            Some(d) => Ok(d),
        },
        Some(OperandType::Jump) => match op.displacement {
            None => Err(DecodingError::FieldNotYetDecodedError),
            Some(d) => Ok(sign_extend(low_byte(d))),
        },
        Some(_) => Err(DecodingError::OperandTypeError(OperandTypeError::UncompatibleOperandTypeError)),
        None => Err(DecodingError::FieldNotYetDecodedError),
    }
}

/// Storing a byte of a 16-bit quantity: the low byte goes into an empty slot, the high byte
/// joins a low byte already stored.
pub open spec fn store_byte_spec(slot: Option<i16>, byte: u8, order: BitOrder) -> Result<
    i16,
    DecodingError,
> {
    match order {
        BitOrder::LOW => match slot {
            Some(_) => Err(DecodingError::FieldAlreadyDecodedError),
            None => Ok(byte as i16),
        },
        BitOrder::HIGH => match slot {
            None => Err(DecodingError::FieldNotYetDecodedError),
            Some(v) => Ok(with_high(v, byte)),
        },
    }
}

/// The trailing bytes an operand still needs: its type's count, less the low byte when
/// that has been stored already.
pub open spec fn bytes_needed_spec(op: Operand, flags: BitFlag, template_s: bool) -> u8 {
    match op.operand_type {
        None => 0,
        Some(t) => {
            let total = total_bytes_spec(t, flags, template_s);
            let stored = match t {
                OperandType::Memory(Displacement::YES(_)) => op.displacement is Some,
                OperandType::DirectAccess(Displacement::YES(_)) => op.displacement is Some,
                OperandType::Immediate(_) => op.data is Some,
                _ => false,
            };
            if stored && total > 0 {
                (total - 1) as u8
            } else {
                total
            }
        },
    }
}

fn sign_extend_low(v: i16) -> (r: i16)
    ensures
        r == sign_extend(low_byte(v)),
{
    let b: u8 = (v as u16 % 256) as u8;
    if b < 128 {
        b as i16
    } else {
        b as i16 - 256
    }
}

fn store_byte(slot: Option<i16>, byte: u8, order: BitOrder) -> (r: Result<i16, DecodingError>)
    ensures
        r == store_byte_spec(slot, byte, order),
{
    match order {
        BitOrder::LOW => match slot {
            Some(_) => Err(DecodingError::FieldAlreadyDecodedError),
            None => Ok(byte as i16),
        },
        BitOrder::HIGH => match slot {
            None => Err(DecodingError::FieldNotYetDecodedError),
            Some(v) => {
                let low: u8 = (v as u16 % 256) as u8;
                let joined: u16 = low as u16 + 256 * (byte as u16);
                Ok(joined as i16)
            },
        },
    }
}

impl Operand {
    pub fn new(value: Option<u8>) -> (r: Self)
        ensures
            r == (Operand { operand_type: None, value, displacement: None, data: None }),
    {
        Operand { operand_type: None, value, displacement: None, data: None }
    }

    /// An immediate operand sized by the word flag, holding `data` if it is known.
    pub fn immediate(data: Option<u8>, flags: BitFlag) -> (r: Result<Self, OperandTypeError>)
        ensures
            r == Ok::<Operand, OperandTypeError>(
                Operand {
                    operand_type: Some(OperandType::Immediate(size_spec(flags))),
                    value: None,
                    displacement: None,
                    data: match data {
                        Some(d) => Some(d as i16),
                        None => None,
                    },
                },
            ),
    {
        let data = match data {
            Some(d) => Some(d as i16),
            None => None,
        };
        Ok(
            Operand {
                operand_type: Some(OperandType::Immediate(Size::new(flags))),
                value: None,
                displacement: None,
                data,
            },
        )
    }

    /// The operand that a mode field and an RM field describe.
    pub fn rm(rm: u8, mode: u8, flags: BitFlag) -> (r: Result<Self, OperandTypeError>)
        ensures
            r == match type_from_mod_spec(rm, mode, flags) {
                Ok(t) => Ok::<Operand, OperandTypeError>(
                    Operand { operand_type: Some(t), value: Some(rm), displacement: None, data: None },
                ),
                Err(e) => Err(e),
            },
    {
        let operand_type = OperandType::try_from_mod(rm, mode, flags)?;
        Ok(Operand { operand_type: Some(operand_type), value: Some(rm), displacement: None, data: None })
    }

    /// The two operands of a relative jump: the target and an unused slot.
    pub fn jump_operands(displacement: u8) -> (r: (Operand, Operand))
        ensures
            r.0 == (Operand {
                operand_type: Some(OperandType::Jump),
                value: None,
                displacement: Some(displacement as i16),
                data: None,
            }),
            r.1 == (Operand { operand_type: Some(OperandType::NotUsed), value: None, displacement: None, data: None }),
    {
        let op_a = Operand {
            operand_type: Some(OperandType::Jump),
            value: None,
            displacement: Some(displacement as i16),
            data: None,
        };
        let op_b = Operand {
            operand_type: Some(OperandType::NotUsed),
            value: None,
            displacement: None,
            data: None,
        };
        (op_a, op_b)
    }

    /// A register operand sized by the word flag.
    pub fn reg(value: u8, flags: BitFlag) -> (r: Result<Self, OperandTypeError>)
        ensures
            r == Ok::<Operand, OperandTypeError>(
                Operand {
                    operand_type: Some(OperandType::Register(size_spec(flags))),
                    value: Some(value),
                    displacement: None,
                    data: None,
                },
            ),
    {
        Ok(
            Operand {
                operand_type: Some(OperandType::Register(Size::new(flags))),
                value: Some(value),
                displacement: None,
                data: None,
            },
        )
    }

    pub fn signed_data(&self) -> (r: Result<i16, DecodingError>)
        ensures
            r == signed_data_spec(*self),
    {
        match self.operand_type {
            Some(OperandType::Immediate(size)) => match self.data {
                None => Err(DecodingError::FieldNotYetDecodedError),
                Some(d) => match size {
                    Size::BYTE => Ok(sign_extend_low(d)),
                    Size::WORD => Ok(d),
                },
            },
            Some(_) => Err(DecodingError::OperandTypeError(OperandTypeError::UncompatibleOperandTypeError)),
            None => Err(DecodingError::FieldNotYetDecodedError),
        }
    }

    pub fn signed_displacement(&self) -> (r: Result<i16, DecodingError>)
        ensures
            r == signed_displacement_spec(*self),
    {
        match self.operand_type {
            Some(OperandType::Memory(Displacement::YES(size))) => match self.displacement {
                None => Err(DecodingError::FieldNotYetDecodedError),
                Some(d) => match size {
                    Size::BYTE => Ok(sign_extend_low(d)),
                    Size::WORD => Ok(d),
                },
            },
            Some(OperandType::DirectAccess(_)) => match self.displacement {
                None => Err(DecodingError::FieldNotYetDecodedError),
                Some(d) => Ok(d),
            },
            Some(OperandType::Jump) => match self.displacement {
                None => Err(DecodingError::FieldNotYetDecodedError),
                Some(d) => Ok(sign_extend_low(d)),
            },
            Some(_) => Err(DecodingError::OperandTypeError(OperandTypeError::UncompatibleOperandTypeError)),
            None => Err(DecodingError::FieldNotYetDecodedError),
        }
    }

    /// Stores one byte of the immediate data; a failed store leaves the operand unchanged.
    pub fn set_data(&mut self, data_decoded: u8, bit_order: BitOrder) -> (r: Result<(), DecodingError>)
        ensures
            match store_byte_spec(old(self).data, data_decoded, bit_order) {
                Ok(v) => r is Ok && *final(self) == (Operand { data: Some(v), ..*old(self) }),
                Err(e) => r == Err::<(), DecodingError>(e) && *final(self) == *old(self),
            },
    {
        let v = store_byte(self.data, data_decoded, bit_order)?;
        self.data = Some(v);
        Ok(())
    }

    /// Stores one byte of the displacement; a failed store leaves the operand unchanged.
    pub fn set_displacement(&mut self, displacement_decoded: u8, bit_order: BitOrder) -> (r: Result<
        (),
        DecodingError,
    >)
        ensures
            match store_byte_spec(old(self).displacement, displacement_decoded, bit_order) {
                Ok(v) => r is Ok && *final(self) == (Operand { displacement: Some(v), ..*old(self) }),
                Err(e) => r == Err::<(), DecodingError>(e) && *final(self) == *old(self),
            },
    {
        let v = store_byte(self.displacement, displacement_decoded, bit_order)?;
        self.displacement = Some(v);
        Ok(())
    }

    pub fn n_bytes_needed(&self, flags: BitFlag, ass_instr: &AssembledInstruction) -> (r: u8)
        ensures
            r == bytes_needed_spec(*self, flags, template_has_s(ass_instr)),
    {
        match self.operand_type {
            None => 0,
            Some(t) => {
                let total = t.total_bytes_required(flags, ass_instr);
                let stored = match t {
                    OperandType::Memory(Displacement::YES(_)) => self.displacement.is_some(),
                    OperandType::DirectAccess(Displacement::YES(_)) => self.displacement.is_some(),
                    OperandType::Immediate(_) => self.data.is_some(),
                    _ => false,
                };
                if stored && total > 0 {
                    total - 1
                } else {
                    total
                }
            },
        }
    }
}

} // verus!
