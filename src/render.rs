use vstd::prelude::*;
use vstd::string::*;

use crate::assembled_instruction::{mnemonic_of, Operation};
use crate::instruction::{sorted_spec, Instruction};
use crate::operand::{
    signed_data_spec, signed_displacement_spec, Displacement, Operand, OperandToStrError,
    OperandType, Size,
};
use crate::table::template_operation;

verus! {

/// The character of a decimal digit.
pub open spec fn digit_char(d: int) -> char {
    if d == 0 {
        '0'
    } else if d == 1 {
        '1'
    } else if d == 2 {
        '2'
    } else if d == 3 {
        '3'
    } else if d == 4 {
        '4'
    } else if d == 5 {
        '5'
    } else if d == 6 {
        '6'
    } else if d == 7 {
        '7'
    } else if d == 8 {
        '8'
    } else {
        '9'
    }
}

/// The decimal digits of `n`, most significant first.
pub open spec fn digits(n: nat) -> Seq<char>
    decreases n,
{
    if n < 10 {
        seq![digit_char(n as int)]
    } else {
        digits(n / 10) + seq![digit_char(n as int % 10)]
    }
}

/// `v` in decimal, with a minus sign when it is negative.
pub open spec fn decimal(v: int) -> Seq<char> {
    if v < 0 {
        seq!['-'] + digits((-v) as nat)
    } else {
        digits(v as nat)
    }
}

/// `v` in decimal, always with its sign.
pub open spec fn signed_decimal(v: int) -> Seq<char> {
    if v < 0 {
        seq!['-'] + digits((-v) as nat)
    } else {
        seq!['+'] + digits(v as nat)
    }
}

/// The name of a register code, for word or byte registers.
pub open spec fn reg_name(size: Size, v: u8) -> Seq<char> {
    match size {
        Size::WORD => if v == 0 {
            "ax"@
        } else if v == 1 {
            "cx"@
        } else if v == 2 {
            "dx"@
        } else if v == 3 {
            "bx"@
        } else if v == 4 {
            "sp"@
        } else if v == 5 {
            "bp"@
        } else if v == 6 {
            "si"@
        } else {
            "di"@
        },
        Size::BYTE => if v == 0 {
            "al"@
        } else if v == 1 {
            "cl"@
        } else if v == 2 {
            "dl"@
        } else if v == 3 {
            "bl"@
        } else if v == 4 {
            "ah"@
        } else if v == 5 {
            "ch"@
        } else if v == 6 {
            "dh"@
        } else {
            "bh"@
        },
    }
}

/// The base/index text of an RM code.
pub open spec fn address_name(v: u8) -> Seq<char> {
    if v == 0 {
        "bx + si"@
    } else if v == 1 {
        "bx + di"@
    } else if v == 2 {
        "bp + si"@
    } else if v == 3 {
        "bp + di"@
    } else if v == 4 {
        "si"@
    } else if v == 5 {
        "di"@
    } else if v == 6 {
        "bp"@
    } else {
        "bx"@
    }
}

/// The keyword of an operand size.
pub open spec fn size_word(size: Size) -> Seq<char> {
    match size {
        Size::BYTE => "byte"@,
        Size::WORD => "word"@,
    }
}

/// The assembly text of an operand of type `t`: a register name, a bracketed address
/// with its signed displacement unless that is zero, a bracketed direct address, or a
/// decimal number.
pub open spec fn type_text(
    t: OperandType,
    value: Option<u8>,
    displacement: Option<i16>,
    data: Option<i16>,
) -> Result<Seq<char>, OperandToStrError> {
    match t {
        OperandType::Register(size) => match value {
            Some(v) => if v < 8 {
                Ok(reg_name(size, v))
            } else {
                Err(OperandToStrError::RegisterValueError)
            },
            None => Err(OperandToStrError::RegisterValueError),
        },
        OperandType::Memory(d) => match value {
            Some(v) => if v >= 8 {
                Err(OperandToStrError::EffectiveAddrValueError)
            } else if d == Displacement::NO {
                Ok("["@ + address_name(v) + "]"@)
            } else {
                match displacement {
                    Some(x) => if x == 0 {
                        Ok("["@ + address_name(v) + "]"@)
                    } else {
                        Ok("["@ + address_name(v) + signed_decimal(x as int) + "]"@)
                    },
                    None => Err(OperandToStrError::UnexpctedOperandError),
                }
            },
            None => Err(OperandToStrError::EffectiveAddrValueError),
        },
        OperandType::DirectAccess(_) => match displacement {
            Some(x) => Ok("["@ + decimal(x as int) + "]"@),
            None => Err(OperandToStrError::UnexpctedOperandError),
        },
        OperandType::Immediate(_) => match data {
            Some(x) => Ok(decimal(x as int)),
            None => Err(OperandToStrError::UnexpctedOperandError),
        },
        OperandType::Jump => match displacement {
            Some(x) => Ok(decimal(x as int)),
            None => Err(OperandToStrError::UnexpctedOperandError),
        },
        OperandType::NotUsed => Ok(Seq::empty()),
    }
}

/// The value of a successful result.
pub open spec fn ok_value<E>(r: Result<i16, E>) -> Option<i16> {
    match r {
        Ok(v) => Some(v),
        Err(_) => None,
    }
}

/// The assembly text of an operand, with its displacement and data sign-extended.
pub open spec fn operand_text(op: Operand) -> Result<Seq<char>, OperandToStrError> {
    match op.operand_type {
        Some(t) => type_text(
            t,
            op.value,
            ok_value(signed_displacement_spec(op)),
            ok_value(signed_data_spec(op)),
        ),
        None => Err(OperandToStrError::UnexpctedOperandError),
    }
}

/// The size keyword, with its space, that goes before the destination and before the
/// source: a memory destination with an immediate source takes one, on the source for a
/// move and on the destination otherwise.
pub open spec fn size_prefixes(op: Operation, dst: Operand, src: Operand) -> (Seq<char>, Seq<char>) {
    match (dst.operand_type, src.operand_type) {
        (Some(OperandType::Memory(_)), Some(OperandType::Immediate(size)))
        | (Some(OperandType::DirectAccess(_)), Some(OperandType::Immediate(size))) => if op
            == Operation::MOV {
            (Seq::empty(), size_word(size) + " "@)
        } else {
            (size_word(size) + " "@, Seq::empty())
        },
        _ => (Seq::empty(), Seq::empty()),
    }
}

/// One line of assembly: `op dst, src`, or `op target` for a jump.
pub open spec fn instruction_text(s: Instruction) -> Result<Seq<char>, OperandToStrError> {
    if s.operand_a is None || s.operand_b is None {
        Err(OperandToStrError::UnexpctedOperandError)
    } else {
        let (dst, src) = sorted_spec(s);
        let op = template_operation(s.template);
        match operand_text(dst) {
            Err(e) => Err(e),
            Ok(d) => match operand_text(src) {
                Err(e) => Err(e),
                Ok(x) => if dst.operand_type == Some(OperandType::NotUsed) {
                    Ok(mnemonic_of(op) + " "@ + x)
                } else {
                    let (dp, sp) = size_prefixes(op, dst, src);
                    Ok(mnemonic_of(op) + " "@ + dp + d + ", "@ + sp + x)
                },
            },
        }
    }
}

fn digit_str(d: u32) -> (r: &'static str)
    requires
        d < 10,
    ensures
        r@ == seq![digit_char(d as int)],
{
    proof {
        reveal_strlit("0");
        reveal_strlit("1");
        reveal_strlit("2");
        reveal_strlit("3");
        reveal_strlit("4");
        reveal_strlit("5");
        reveal_strlit("6");
        reveal_strlit("7");
        reveal_strlit("8");
        reveal_strlit("9");
    }
    let r = if d == 0 {
        "0"
    } else if d == 1 {
        "1"
    } else if d == 2 {
        "2"
    } else if d == 3 {
        "3"
    } else if d == 4 {
        "4"
    } else if d == 5 {
        "5"
    } else if d == 6 {
        "6"
    } else if d == 7 {
        "7"
    } else if d == 8 {
        "8"
    } else {
        "9"
    };
    assert(r@ =~= seq![digit_char(d as int)]);
    r
}

fn push_digits(s: &mut String, n: u32)
    ensures
        final(s)@ == old(s)@ + digits(n as nat),
    decreases n,
{
    if n >= 10 {
        push_digits(s, n / 10);
    }
    let ghost mid = s@;
    s.append(digit_str(n % 10));
    proof {
        if n >= 10 {
            assert(final(s)@ =~= old(s)@ + digits(n as nat));
        } else {
            assert(final(s)@ =~= old(s)@ + digits(n as nat));
        }
    }
}

fn push_decimal(s: &mut String, v: i16)
    ensures
        final(s)@ == old(s)@ + decimal(v as int),
{
    if v < 0 {
        proof {
            reveal_strlit("-");
        }
        s.append("-");
        push_digits(s, (0 - (v as i32)) as u32);
        assert(final(s)@ =~= old(s)@ + decimal(v as int));
    } else {
        push_digits(s, v as u32);
    }
}

fn push_signed_decimal(s: &mut String, v: i16)
    ensures
        final(s)@ == old(s)@ + signed_decimal(v as int),
{
    if v < 0 {
        proof {
            reveal_strlit("-");
        }
        s.append("-");
        push_digits(s, (0 - (v as i32)) as u32);
    } else {
        proof {
            reveal_strlit("+");
        }
        s.append("+");
        push_digits(s, v as u32);
    }
    assert(final(s)@ =~= old(s)@ + signed_decimal(v as int));
}

fn reg_str(size: Size, v: u8) -> (r: &'static str)
    ensures
        r@ == reg_name(size, v),
{
    match size {
        Size::WORD => if v == 0 {
            "ax"
        } else if v == 1 {
            "cx"
        } else if v == 2 {
            "dx"
        } else if v == 3 {
            "bx"
        } else if v == 4 {
            "sp"
        } else if v == 5 {
            "bp"
        } else if v == 6 {
            "si"
        } else {
            "di"
        },
        Size::BYTE => if v == 0 {
            "al"
        } else if v == 1 {
            "cl"
        } else if v == 2 {
            "dl"
        } else if v == 3 {
            "bl"
        } else if v == 4 {
            "ah"
        } else if v == 5 {
            "ch"
        } else if v == 6 {
            "dh"
        } else {
            "bh"
        },
    }
}

fn address_str(v: u8) -> (r: &'static str)
    ensures
        r@ == address_name(v),
{
    if v == 0 {
        "bx + si"
    } else if v == 1 {
        "bx + di"
    } else if v == 2 {
        "bp + si"
    } else if v == 3 {
        "bp + di"
    } else if v == 4 {
        "si"
    } else if v == 5 {
        "di"
    } else if v == 6 {
        "bp"
    } else {
        "bx"
    }
}

impl Size {
    /// The size keyword of assembly text.
    pub fn keyword(&self) -> (r: &'static str)
        ensures
            r@ == size_word(*self),
    {
        match self {
            Size::BYTE => "byte",
            Size::WORD => "word",
        }
    }
}

impl OperandType {
    /// The assembly text of an operand of this type.
    pub fn to_str(&self, value: Option<u8>, displacement_value: Option<i16>, data: Option<i16>) -> (r:
        Result<String, OperandToStrError>)
        ensures
            match type_text(*self, value, displacement_value, data) {
                Ok(t) => r is Ok && r->Ok_0@ == t,
                Err(e) => r == Err::<String, OperandToStrError>(e),
            },
    {
        let mut s = String::new();
        match self {
            OperandType::Register(size) => match value {
                Some(v) => if v < 8 {
                    s.append(reg_str(*size, v));
                    assert(s@ =~= reg_name(*size, v));
                    Ok(s)
                } else {
                    Err(OperandToStrError::RegisterValueError)
                },
                None => Err(OperandToStrError::RegisterValueError),
            },
            OperandType::Memory(d) => match value {
                Some(v) => if v >= 8 {
                    Err(OperandToStrError::EffectiveAddrValueError)
                } else {
                    let with_disp = match d {
                        Displacement::NO => None,
                        Displacement::YES(_) => match displacement_value {
                            Some(x) => Some(x),
                            None => {
                                return Err(OperandToStrError::UnexpctedOperandError);
                            },
                        },
                    };
                    s.append("[");
                    s.append(address_str(v));
                    match with_disp {
                        Some(x) => if x != 0 {
                            push_signed_decimal(&mut s, x);
                        },
                        None => {},
                    }
                    s.append("]");
                    assert(s@ =~= type_text(*self, value, displacement_value, data)->Ok_0);
                    Ok(s)
                },
                None => Err(OperandToStrError::EffectiveAddrValueError),
            },
            OperandType::DirectAccess(_) => match displacement_value {
                Some(x) => {
                    s.append("[");
                    push_decimal(&mut s, x);
                    s.append("]");
                    assert(s@ =~= type_text(*self, value, displacement_value, data)->Ok_0);
                    Ok(s)
                },
                None => Err(OperandToStrError::UnexpctedOperandError),
            },
            OperandType::Immediate(_) => match data {
                Some(x) => {
                    push_decimal(&mut s, x);
                    assert(s@ =~= decimal(x as int));
                    Ok(s)
                },
                None => Err(OperandToStrError::UnexpctedOperandError),
            },
            OperandType::Jump => match displacement_value {
                Some(x) => {
                    push_decimal(&mut s, x);
                    assert(s@ =~= decimal(x as int));
                    Ok(s)
                },
                None => Err(OperandToStrError::UnexpctedOperandError),
            },
            OperandType::NotUsed => Ok(s),
        }
    }
}

impl Operand {
    /// The assembly text of the operand.
    pub fn to_text(&self) -> (r: Result<String, OperandToStrError>)
        ensures
            match operand_text(*self) {
                Ok(t) => r is Ok && r->Ok_0@ == t,
                Err(e) => r == Err::<String, OperandToStrError>(e),
            },
    {
        match self.operand_type {
            Some(t) => {
                let disp = match self.signed_displacement() {
                    Ok(v) => Some(v),
                    Err(_) => None,
                };
                let data = match self.signed_data() {
                    Ok(v) => Some(v),
                    Err(_) => None,
                };
                t.to_str(self.value, disp, data)
            },
            None => Err(OperandToStrError::UnexpctedOperandError),
        }
    }
}

impl Instruction {
    /// The instruction as one line of assembly.
    pub fn to_text(&self) -> (r: Result<String, OperandToStrError>)
        ensures
            match instruction_text(*self) {
                Ok(t) => r is Ok && r->Ok_0@ == t,
                Err(e) => r == Err::<String, OperandToStrError>(e),
            },
    {
        match (self.operand_a, self.operand_b) {
            (Some(_), Some(_)) => {},
            _ => {
                return Err(OperandToStrError::UnexpctedOperandError);
            },
        }
        let (dst, src) = self.operands_sorted();
        let op = self.operation();
        let d = dst.to_text()?;
        let x = src.to_text()?;
        let mut s = String::new();
        s.append(op.mnemonic());
        s.append(" ");
        if dst.operand_type == Some(OperandType::NotUsed) {
            s.append(x.as_str());
            assert(s@ =~= instruction_text(*self)->Ok_0);
            return Ok(s);
        }
        let (dst_prefix, src_prefix) = match (dst.operand_type, src.operand_type) {
            (Some(OperandType::Memory(_)), Some(OperandType::Immediate(size)))
            | (Some(OperandType::DirectAccess(_)), Some(OperandType::Immediate(size))) => {
                if op == Operation::MOV {
                    (None, Some(size))
                } else {
                    (Some(size), None)
                }
            },
            _ => (None, None),
        };
        match dst_prefix {
            Some(size) => {
                s.append(size.keyword());
                s.append(" ");
            },
            None => {},
        }
        s.append(d.as_str());
        s.append(", ");
        match src_prefix {
            Some(size) => {
                s.append(size.keyword());
                s.append(" ");
            },
            None => {},
        }
        s.append(x.as_str());
        assert(s@ =~= instruction_text(*self)->Ok_0);
        Ok(s)
    }
}

} // verus!
