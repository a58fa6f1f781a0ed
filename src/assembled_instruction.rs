use vstd::prelude::*;

verus! {

/// What a group of bits inside an encoded byte stands for.
#[derive(Debug, Clone, Copy, PartialEq, Eq, Structural)]
pub enum BitUsage {
    Literal,
    Mode,
    Reg,
    Rm,
    Flag(BitFlag),
    Data(BitOrder),
    Disp(BitOrder),
    Placeholder,
}

/// Which half of a 16-bit quantity a data or displacement byte carries.
#[derive(Debug, Clone, Copy, PartialEq, Eq, Structural)]
pub enum BitOrder {
    LOW,
    HIGH,
}

/// A set of single-bit instruction flags (W, S, D, V, Z), one bit each.
#[derive(Debug, Clone, Copy, PartialEq, Eq, Structural)]
pub struct BitFlag(pub u8);

impl BitFlag {
    pub fn nothing() -> (r: BitFlag)
        ensures
            r.0 == 0,
    {
        BitFlag(0)
    }

    pub fn w() -> (r: BitFlag)
        ensures
            r.0 == 1,
    {
        BitFlag(0b00001)
    }

    pub fn s() -> (r: BitFlag)
        ensures
            r.0 == 2,
    {
        BitFlag(0b00010)
    }

    pub fn d() -> (r: BitFlag)
        ensures
            r.0 == 4,
    {
        BitFlag(0b00100)
    }

    pub fn v() -> (r: BitFlag)
        ensures
            r.0 == 8,
    {
        BitFlag(0b01000)
    }

    pub fn z() -> (r: BitFlag)
        ensures
            r.0 == 16,
    {
        BitFlag(0b10000)
    }

    /// The set holding the flags of both operands.
    pub fn union(self, other: BitFlag) -> (r: BitFlag)
        ensures
            r.0 == self.0 | other.0,
    {
        BitFlag(self.0 | other.0)
    }

    /// Whether every flag of `flag` is present in `self`.
    pub fn is_flag_toogled(&self, flag: BitFlag) -> (r: bool)
        ensures
            r == (self.0 & flag.0 == flag.0),
    {
        self.0 & flag.0 == flag.0
    }
}

/// The mask of the `width` lowest bits of a byte.
pub open spec fn low_mask(width: u8) -> u8 {
    if width == 0 {
        0
    } else if width == 1 {
        1
    } else if width == 2 {
        3
    } else if width == 3 {
        7
    } else if width == 4 {
        15
    } else if width == 5 {
        31
    } else if width == 6 {
        63
    } else if width == 7 {
        127
    } else {
        255
    }
}

/// The right-aligned value of the `width` bits of `byte` that start `shift` bits above bit 0.
pub open spec fn extract(byte: u8, shift: u8, width: u8) -> u8 {
    (byte >> shift) & low_mask(width)
}

/// A field descriptor: the role, the width and, once placed in a byte, the shift of a bit group.
#[derive(Debug, Clone, Copy)]
pub struct Bits {
    pub usage: BitUsage,
    pub size: u8,
    pub value: Option<u8>,
    pub shift: Option<u8>,
}

impl Bits {
    /// A literal field of `size` bits that starts at bit 7.
    pub fn literal(value: u8, size: u8) -> (r: Self)
        requires
            size <= 8,
        ensures
            r == (Bits { usage: BitUsage::Literal, value: Some(value), shift: Some((8 - size) as u8), size }),
    {
        Bits { usage: BitUsage::Literal, value: Some(value), shift: Some(8 - size), size }
    }

    pub fn is_bit_usage(&self, bit_usage: &BitUsage) -> (r: bool)
        ensures
            r == (self.usage == *bit_usage),
    {
        self.usage == *bit_usage
    }

    fn mask(&self) -> (r: u8)
        requires
            self.size <= 8,
        ensures
            r == low_mask(self.size),
    {
        let size = self.size;
        let wide: u16 = 1u16 << (size as u16);
        assert(size <= 8 ==> (1u16 << (size as u16)) >= 1 && ((1u16 << (size as u16)) - 1) as u8
            == low_mask(size)) by (bit_vector);
        (wide - 1) as u8
    }

    /// The value this field holds in `byte`.
    pub fn decode_value(&self, byte: u8) -> (r: u8)
        requires
            self.shift is Some,
            self.shift.unwrap() < 8,
            self.size <= 8,
        ensures
            r == extract(byte, self.shift.unwrap(), self.size),
    {
        let shift = self.shift.unwrap();
        (byte >> shift) & self.mask()
    }
}

/// The field descriptors of one byte of an encoding, left to right.
#[derive(Debug)]
pub struct Byte {
    pub bits: Vec<Bits>,
}

/// Why a template lookup failed.
#[derive(Debug, Clone, Copy, PartialEq, Eq, Structural)]
pub enum AssembledInstructionLookupError {
    IncompleteDefinitionError,
    LiteralMissingError,
    InstructionUndefinedError,
}

/// The operations this decoder knows.
#[derive(Debug, Clone, Copy, PartialEq, Eq, Structural)]
pub enum Operation {
    MOV,
    ADD,
    SUB,
    CMP,
    JNZ,
}

impl Operation {
    /// The assembly mnemonic of the operation.
    pub fn mnemonic(&self) -> (r: &'static str)
        ensures
            r@ == mnemonic_of(*self),
    {
        match self {
            Operation::MOV => "mov",
            Operation::ADD => "add",
            Operation::SUB => "sub",
            Operation::CMP => "cmp",
            Operation::JNZ => "jnz",
        }
    }
}

/// The mnemonic of each operation.
pub open spec fn mnemonic_of(op: Operation) -> Seq<char> {
    match op {
        Operation::MOV => "mov"@,
        Operation::ADD => "add"@,
        Operation::SUB => "sub"@,
        Operation::CMP => "cmp"@,
        Operation::JNZ => "jnz"@,
    }
}

/// The encoding forms of the table.
#[derive(Debug, Clone, Copy, PartialEq, Eq, Structural)]
pub enum TemplateId {
    MovRmReg,
    MovImmReg,
    MovImmRm,
    MovMemAcc,
    MovAccMem,
    AddRmReg,
    ArithImmRm,
    AddImmAcc,
    SubRmReg,
    SubImmAcc,
    CmpRmReg,
    CmpImmAcc,
    Jnz,
    AddImmRm,
    SubImmRm,
    CmpImmRm,
}

/// An encoding template: the operation and the field descriptors of each of its bytes.
#[derive(Debug)]
pub struct AssembledInstruction {
    pub operation: Operation,
    pub bytes: Vec<Byte>,
}

impl AssembledInstruction {
    pub open spec fn bytes_view(&self) -> Seq<Seq<Bits>> {
        self.bytes@.map_values(|b: Byte| b.bits@)
    }

    /// Whether the leading literal of the template matches the leading bits of `byte`.
    pub fn literal_in(&self, byte: u8) -> (r: Result<bool, AssembledInstructionLookupError>)
        ensures
            r == literal_in_spec(self.bytes_view(), byte),
    {
        if self.bytes.len() == 0 || self.bytes[0].bits.len() == 0 {
            return Err(AssembledInstructionLookupError::IncompleteDefinitionError);
        }
        let literal = self.bytes[0].bits[0];
        match literal.usage {
            BitUsage::Literal => {},
            _ => {
                return Err(AssembledInstructionLookupError::LiteralMissingError);
            },
        }
        match (literal.value, literal.shift) {
            (Some(value), Some(shift)) => {
                if shift < 8 {
                    Ok(value == byte >> shift)
                } else {
                    Err(AssembledInstructionLookupError::IncompleteDefinitionError)
                }
            },
            _ => Err(AssembledInstructionLookupError::IncompleteDefinitionError),
        }
    }

    /// Whether some field of the template has the role of `bits_checked_againts`.
    pub fn includes_bits(&self, bits_checked_againts: Bits) -> (r: bool)
        ensures
            r == includes_usage(self.bytes_view(), bits_checked_againts.usage),
    {
        let ghost bv = self.bytes_view();
        let mut k: usize = 0;
        while k < self.bytes.len()
            invariant
                0 <= k <= self.bytes.len(),
                bv == self.bytes_view(),
                forall|a: int, b: int|
                    0 <= a < k && 0 <= b < bv[a].len() ==> bv[a][b].usage
                        != bits_checked_againts.usage,
            decreases self.bytes.len() - k,
        {
            let byte = &self.bytes[k];
            let mut j: usize = 0;
            while j < byte.bits.len()
                invariant
                    0 <= j <= byte.bits.len(),
                    0 <= k < self.bytes.len(),
                    *byte == self.bytes@[k as int],
                    bv == self.bytes_view(),
                    forall|b: int| 0 <= b < j ==> bv[k as int][b].usage != bits_checked_againts.usage,
                decreases byte.bits.len() - j,
            {
                if byte.bits[j].is_bit_usage(&bits_checked_againts.usage) {
                    assert(bv[k as int][j as int].usage == bits_checked_againts.usage);
                    return true;
                }
                j += 1;
            }
            k += 1;
        }
        false
    }
}

/// Whether a template's leading literal matches `byte`, or why the template cannot tell.
pub open spec fn literal_in_spec(bytes: Seq<Seq<Bits>>, byte: u8) -> Result<
    bool,
    AssembledInstructionLookupError,
> {
    if bytes.len() == 0 || bytes[0].len() == 0 {
        Err(AssembledInstructionLookupError::IncompleteDefinitionError)
    } else if bytes[0][0].usage != BitUsage::Literal {
        Err(AssembledInstructionLookupError::LiteralMissingError)
    } else {
        match (bytes[0][0].value, bytes[0][0].shift) {
            (Some(value), Some(shift)) => if shift < 8 {
                Ok(value == byte >> shift)
            } else {
                Err(AssembledInstructionLookupError::IncompleteDefinitionError)
            },
            _ => Err(AssembledInstructionLookupError::IncompleteDefinitionError),
        }
    }
}

/// Whether some field of the template bytes has the role `usage`.
pub open spec fn includes_usage(bytes: Seq<Seq<Bits>>, usage: BitUsage) -> bool {
    exists|a: int, b: int| 0 <= a < bytes.len() && 0 <= b < bytes[a].len() && bytes[a][b].usage == usage
}

} // verus!
