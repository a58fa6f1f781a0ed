use vstd::prelude::*;

use crate::assembled_instruction::Operation;
use crate::buffer::{BufferEndReachedError, InstructionBuffer, MEMORY_SIZE};
use crate::disassemble::{decode_at, disassemble_instruction, DisassemblyError};
use crate::instruction::{sorted_spec, DecodingError, Instruction};
use crate::operand::{
    signed_displacement_spec, Displacement, Operand, OperandType, Size,
};
use crate::render::reg_name;
use crate::table::template_operation;

verus! {

/// An operand ready for execution.
#[derive(Debug, Clone, Copy, PartialEq, Eq, Structural)]
pub enum CpuOperand {
    Register(Reg),
    Memory(Access),
    Immediate(i16),
    Jump(i16),
    NotUsed,
}

/// How a memory operand finds its address.
#[derive(Debug, Clone, Copy, PartialEq, Eq, Structural)]
pub enum Access {
    Address(EffectiveAddress),
    Direct(usize),
}

/// A base/index register combination with its signed displacement.
#[derive(Debug, Clone, Copy, PartialEq, Eq, Structural)]
pub enum EffectiveAddress {
    BxSi(i16),
    BxDi(i16),
    BpSi(i16),
    BpDi(i16),
    Si(i16),
    Di(i16),
    Bp(i16),
    Bx(i16),
}

/// The general registers.
#[derive(Debug, Clone, Copy, PartialEq, Eq, Hash, Structural)]
pub enum Reg {
    A,
    B,
    C,
    D,
    Sp,
    Bp,
    Si,
    Di,
}

/// The register that a 3-bit register code names.
pub open spec fn reg_of_code(value: u8) -> Reg {
    if value == 0 {
        Reg::A
    } else if value == 1 {
        Reg::C
    } else if value == 2 {
        Reg::D
    } else if value == 3 {
        Reg::B
    } else if value == 4 {
        Reg::Sp
    } else if value == 5 {
        Reg::Bp
    } else if value == 6 {
        Reg::Si
    } else {
        Reg::Di
    }
}

/// The slot of a register in the register file: its 3-bit code.
pub open spec fn reg_index(r: Reg) -> int {
    match r {
        Reg::A => 0,
        Reg::C => 1,
        Reg::D => 2,
        Reg::B => 3,
        Reg::Sp => 4,
        Reg::Bp => 5,
        Reg::Si => 6,
        Reg::Di => 7,
    }
}

/// The addressing combination that a 3-bit RM code names, with its displacement.
pub open spec fn address_of_code(value: u8, d: i16) -> EffectiveAddress {
    if value == 0 {
        EffectiveAddress::BxSi(d)
    } else if value == 1 {
        EffectiveAddress::BxDi(d)
    } else if value == 2 {
        EffectiveAddress::BpSi(d)
    } else if value == 3 {
        EffectiveAddress::BpDi(d)
    } else if value == 4 {
        EffectiveAddress::Si(d)
    } else if value == 5 {
        EffectiveAddress::Di(d)
    } else if value == 6 {
        EffectiveAddress::Bp(d)
    } else {
        EffectiveAddress::Bx(d)
    }
}

impl EffectiveAddress {
    pub fn new(value: u8, displacement: Option<i16>) -> (r: Self)
        requires
            value < 8,
        ensures
            r == address_of_code(
                value,
                match displacement {
                    Some(d) => d,
                    None => 0,
                },
            ),
    {
        let d = match displacement {
            Some(d) => d,
            None => 0,
        };
        match value {
            0 => EffectiveAddress::BxSi(d),
            1 => EffectiveAddress::BxDi(d),
            2 => EffectiveAddress::BpSi(d),
            3 => EffectiveAddress::BpDi(d),
            4 => EffectiveAddress::Si(d),
            5 => EffectiveAddress::Di(d),
            6 => EffectiveAddress::Bp(d),
            _ => EffectiveAddress::Bx(d),
        }
    }
}

impl Reg {
    pub fn new(value: u8) -> (r: Self)
        requires
            value < 8,
        ensures
            r == reg_of_code(value),
            reg_index(r) == value,
    {
        match value {
            0 => Reg::A,
            1 => Reg::C,
            2 => Reg::D,
            3 => Reg::B,
            4 => Reg::Sp,
            5 => Reg::Bp,
            6 => Reg::Si,
            _ => Reg::Di,
        }
    }

    /// The register's name in assembly text.
    pub fn name(&self) -> (r: &'static str)
        ensures
            r@ == reg_name(Size::WORD, reg_index(*self) as u8),
    {
        match self {
            Reg::A => "ax",
            Reg::B => "bx",
            Reg::C => "cx",
            Reg::D => "dx",
            Reg::Sp => "sp",
            Reg::Bp => "bp",
            Reg::Si => "si",
            Reg::Di => "di",
        }
    }

    /// Every register, in the order of a register dump.
    pub fn all() -> (r: Vec<Reg>)
        ensures
            r@ == seq![Reg::A, Reg::B, Reg::C, Reg::D, Reg::Sp, Reg::Bp, Reg::Si, Reg::Di],
    {
        let r = vec![Reg::A, Reg::B, Reg::C, Reg::D, Reg::Sp, Reg::Bp, Reg::Si, Reg::Di];
        assert(r@ =~= seq![Reg::A, Reg::B, Reg::C, Reg::D, Reg::Sp, Reg::Bp, Reg::Si, Reg::Di]);
        r
    }

    pub fn index(&self) -> (r: usize)
        ensures
            r == reg_index(*self),
    {
        match self {
            Reg::A => 0,
            Reg::C => 1,
            Reg::D => 2,
            Reg::B => 3,
            Reg::Sp => 4,
            Reg::Bp => 5,
            Reg::Si => 6,
            Reg::Di => 7,
        }
    }
}

/// The zero and sign flags of the processor, one bit each.
#[derive(Debug, Clone, Copy, PartialEq, Eq, Structural)]
pub struct CpuFlags(pub u8);

/// The sign flag bit.
pub open spec fn flag_s() -> u8 {
    1
}

/// The zero flag bit.
pub open spec fn flag_z() -> u8 {
    2
}

/// The flags a 16-bit result sets: zero when it is 0, sign when it is negative.
pub open spec fn flags_of(v: i16) -> u8 {
    (if v == 0 {
        flag_z()
    } else {
        0u8
    }) | (if v < 0 {
        flag_s()
    } else {
        0u8
    })
}

impl CpuFlags {
    pub fn is_flag_toogled(&self, flag: CpuFlags) -> (r: bool)
        ensures
            r == (self.0 & flag.0 == flag.0),
    {
        self.0 & flag.0 == flag.0
    }
}

/// The register file, indexed by register code.
pub struct Registers {
    pub regs: Vec<i16>,
}

impl Registers {
    pub fn mov(&mut self, reg: Reg, new: i16)
        requires
            old(self).regs@.len() == 8,
        ensures
            final(self).regs@ == old(self).regs@.update(reg_index(reg), new),
    {
        let i = reg.index();
        self.regs.set(i, new);
    }

    pub fn content_of(&self, reg: Reg) -> (r: i16)
        requires
            self.regs@.len() == 8,
        ensures
            r == self.regs@[reg_index(reg)],
    {
        self.regs[reg.index()]
    }
}

/// A 16-bit address, wrapped into the 64 KiB that 16 bits can reach.
pub open spec fn wrap16(x: int) -> int {
    (x + 131072) % 65536
}

/// The little-endian 16-bit value at `index`.
pub open spec fn read16(mem: Seq<u8>, index: int) -> i16 {
    (mem[index] as int + 256 * mem[index + 1] as int) as u16 as i16
}

/// `mem` with `v` written little-endian at `index`.
pub open spec fn write16(mem: Seq<u8>, index: int, v: i16) -> Seq<u8> {
    mem.update(index, (v as u16 % 256) as u8).update(index + 1, (v as u16 / 256) as u8)
}

/// The byte-addressable memory of the processor.
pub struct Memory {
    pub mem: Vec<u8>,
}

impl Memory {
    pub fn new() -> (r: Self)
        ensures
            r.mem@.len() == MEMORY_SIZE,
            forall|i: int| 0 <= i < MEMORY_SIZE ==> r.mem@[i] == 0,
    {
        Memory { mem: vec![0u8; MEMORY_SIZE] }
    }

    fn value_at(&self, index: usize) -> (r: i16)
        requires
            index + 1 < self.mem@.len(),
            self.mem@.len() <= MEMORY_SIZE,
        ensures
            r == read16(self.mem@, index as int),
    {
        let low = self.mem[index];
        let high = self.mem[index + 1];
        let v: u16 = low as u16 + 256 * (high as u16);
        v as i16
    }

    fn save_value_at(&mut self, index: usize, value: i16)
        requires
            index + 1 < old(self).mem@.len(),
            old(self).mem@.len() <= MEMORY_SIZE,
        ensures
            final(self).mem@ == write16(old(self).mem@, index as int, value),
    {
        let u = value as u16;
        self.mem.set(index, (u % 256) as u8);
        self.mem.set(index + 1, (u / 256) as u8);
    }
}

/// The memory index an operand's access reaches, given the register file.
pub open spec fn access_index(regs: Seq<i16>, access: Access) -> int {
    match access {
        Access::Direct(i) => i as int,
        Access::Address(a) => wrap16(
            match a {
                EffectiveAddress::BxSi(d) => regs[3] + regs[6] + d,
                EffectiveAddress::BxDi(d) => regs[3] + regs[7] + d,
                EffectiveAddress::BpSi(d) => regs[5] + regs[6] + d,
                EffectiveAddress::BpDi(d) => regs[5] + regs[7] + d,
                EffectiveAddress::Si(d) => regs[6] + d,
                EffectiveAddress::Di(d) => regs[7] + d,
                EffectiveAddress::Bp(d) => regs[5] + d,
                EffectiveAddress::Bx(d) => regs[3] + d,
            },
        ),
    }
}

/// Whether a memory access stays inside memory, its second byte included.
pub open spec fn access_fits(regs: Seq<i16>, mem: Seq<u8>, access: Access) -> bool {
    0 <= access_index(regs, access) && access_index(regs, access) + 1 < mem.len()
}

/// The value an operand reads; `None` for operands without a value or out of memory.
pub open spec fn operand_value(regs: Seq<i16>, mem: Seq<u8>, op: CpuOperand) -> Option<i16> {
    match op {
        CpuOperand::Immediate(v) => Some(v),
        CpuOperand::Register(r) => Some(regs[reg_index(r)]),
        CpuOperand::Memory(a) => if access_fits(regs, mem, a) {
            Some(read16(mem, access_index(regs, a)))
        } else {
            None
        },
        _ => None,
    }
}

/// The register file and memory after writing `v` to a destination.
pub open spec fn store_spec(regs: Seq<i16>, mem: Seq<u8>, dst: CpuOperand, v: i16) -> Option<
    (Seq<i16>, Seq<u8>),
> {
    match dst {
        CpuOperand::Register(r) => Some((regs.update(reg_index(r), v), mem)),
        CpuOperand::Memory(a) => if access_fits(regs, mem, a) {
            Some((regs, write16(mem, access_index(regs, a), v)))
        } else {
            None
        },
        _ => None,
    }
}

/// A sum or difference of two 16-bit values, wrapped to 16-bit two's complement.
pub open spec fn wrap_i16(x: int) -> i16 {
    (if x > 32767 {
        x - 65536
    } else if x < -32768 {
        x + 65536
    } else {
        x
    }) as i16
}

fn wrap_exec(x: i32) -> (r: i16)
    requires
        -65536 <= x <= 65535,
    ensures
        r == wrap_i16(x as int),
{
    if x > 32767 {
        (x - 65536) as i16
    } else if x < -32768 {
        (x + 65536) as i16
    } else {
        x as i16
    }
}

/// The 16-bit result of an operation on destination and source values.
pub open spec fn alu(op: Operation, d: i16, s: i16) -> i16 {
    match op {
        Operation::MOV => s,
        Operation::ADD => wrap_i16(d + s),
        Operation::SUB | Operation::CMP => wrap_i16(d - s),
        Operation::JNZ => d,
    }
}

/// The error of an operand that cannot be read or written.
pub open spec fn operand_error() -> DisassemblyError {
    DisassemblyError::DecodeError(DecodingError::UnexpectedOperandError)
}

/// One data operation: read both operands, compute, write back unless it compares, and
/// set the flags from the result unless it moves.
pub open spec fn execute_spec(
    regs: Seq<i16>,
    mem: Seq<u8>,
    flags: u8,
    op: Operation,
    dst: CpuOperand,
    src: CpuOperand,
) -> Result<(Seq<i16>, Seq<u8>, u8), DisassemblyError> {
    match (operand_value(regs, mem, dst), operand_value(regs, mem, src)) {
        (Some(d), Some(s)) => {
            let v = alu(op, d, s);
            let new_flags = if op == Operation::MOV {
                flags
            } else {
                flags_of(v)
            };
            if op == Operation::CMP {
                Ok((regs, mem, new_flags))
            } else {
                match store_spec(regs, mem, dst, v) {
                    Some((r2, m2)) => Ok((r2, m2, new_flags)),
                    None => Err(operand_error()),
                }
            }
        },
        _ => Err(operand_error()),
    }
}

/// The cursor after a jump-if-not-zero: moved by the displacement unless the zero flag is set.
/// A move is allowed only to a position within the loaded bytes.
pub open spec fn jnz_target(flags: u8, ip: int, displacement: i16) -> int {
    if flags & flag_z() == flag_z() {
        ip
    } else {
        ip + displacement
    }
}

/// The operand for execution that a decoded operand stands for. An immediate carries its
/// stored data unchanged (a byte read under the sign-extend flag was widened when stored);
/// memory references carry their sign-extended displacement.
pub open spec fn parse_spec(op: Operand) -> Result<CpuOperand, DecodingError> {
    match op.operand_type {
        None => Err(DecodingError::FieldNotYetDecodedError),
        Some(t) => match t {
            OperandType::Register(_) => match op.value {
                Some(v) => if v < 8 {
                    Ok(CpuOperand::Register(reg_of_code(v)))
                } else {
                    Err(DecodingError::UnexpectedDecodedValueError(v))
                },
                None => Err(DecodingError::FieldNotYetDecodedError),
            },
            OperandType::Memory(d) => match op.value {
                Some(v) => if v >= 8 {
                    Err(DecodingError::UnexpectedDecodedValueError(v))
                } else if d == Displacement::NO {
                    Ok(CpuOperand::Memory(Access::Address(address_of_code(v, 0))))
                } else {
                    match signed_displacement_spec(op) {
                        Ok(disp) => Ok(CpuOperand::Memory(Access::Address(address_of_code(v, disp)))),
                        Err(e) => Err(e),
                    }
                },
                None => Err(DecodingError::FieldNotYetDecodedError),
            },
            OperandType::Immediate(_) => match op.data {
                Some(d) => Ok(CpuOperand::Immediate(d)),
                None => Err(DecodingError::FieldNotYetDecodedError),
            },
            OperandType::DirectAccess(_) => match op.displacement {
                Some(d) => Ok(CpuOperand::Memory(Access::Direct(wrap16(d as int) as usize))),
                None => Err(DecodingError::FieldNotYetDecodedError),
            },
            OperandType::Jump => match signed_displacement_spec(op) {
                Ok(v) => Ok(CpuOperand::Jump(v)),
                Err(e) => Err(e),
            },
            OperandType::NotUsed => Ok(CpuOperand::NotUsed),
        },
    }
}

impl Operand {
    pub fn parse_for_cpu(&self) -> (r: Result<CpuOperand, DecodingError>)
        ensures
            r == parse_spec(*self),
    {
        match self.operand_type {
            None => Err(DecodingError::FieldNotYetDecodedError),
            Some(t) => match t {
                OperandType::Register(_) => match self.value {
                    Some(v) => if v < 8 {
                        Ok(CpuOperand::Register(Reg::new(v)))
                    } else {
                        Err(DecodingError::UnexpectedDecodedValueError(v))
                    },
                    None => Err(DecodingError::FieldNotYetDecodedError),
                },
                OperandType::Memory(d) => match self.value {
                    Some(v) => if v >= 8 {
                        Err(DecodingError::UnexpectedDecodedValueError(v))
                    } else if d == Displacement::NO {
                        Ok(CpuOperand::Memory(Access::Address(EffectiveAddress::new(v, None))))
                    } else {
                        let disp = self.signed_displacement()?;
                        Ok(CpuOperand::Memory(Access::Address(EffectiveAddress::new(v, Some(disp)))))
                    },
                    None => Err(DecodingError::FieldNotYetDecodedError),
                },
                OperandType::Immediate(_) => match self.data {
                    Some(d) => Ok(CpuOperand::Immediate(d)),
                    None => Err(DecodingError::FieldNotYetDecodedError),
                },
                OperandType::DirectAccess(_) => match self.displacement {
                    Some(d) => {
                        let wrapped: i32 = (d as i32 + 131072) % 65536;
                        Ok(CpuOperand::Memory(Access::Direct(wrapped as usize)))
                    },
                    None => Err(DecodingError::FieldNotYetDecodedError),
                },
                OperandType::Jump => {
                    let v = self.signed_displacement()?;
                    Ok(CpuOperand::Jump(v))
                },
                OperandType::NotUsed => Ok(CpuOperand::NotUsed),
            },
        }
    }
}

/// The destination and source of a decoded instruction, ready for execution.
pub open spec fn cpu_operands(instr: Instruction) -> Result<(CpuOperand, CpuOperand), DisassemblyError> {
    if instr.operand_a is None || instr.operand_b is None {
        Err(DisassemblyError::DecodeError(DecodingError::FieldNotYetDecodedError))
    } else {
        let (d, s) = sorted_spec(instr);
        match parse_spec(d) {
            Err(e) => Err(DisassemblyError::DecodeError(e)),
            Ok(dst) => match parse_spec(s) {
                Err(e) => Err(DisassemblyError::DecodeError(e)),
                Ok(src) => Ok((dst, src)),
            },
        }
    }
}

/// What execution reads and changes of a processor: registers, memory, flags and cursor.
pub open spec fn machine(cpu: CPU) -> (Seq<i16>, Seq<u8>, u8, int) {
    (cpu.registers.regs@, cpu.memory.mem@, cpu.flags.0, cpu.buffer.last_read as int)
}

/// One step: decode the instruction at the cursor of `bytes`, move past it, and execute it.
pub open spec fn next_spec(m: (Seq<i16>, Seq<u8>, u8, int), bytes: Seq<u8>, limit: int) -> Result<
    (Seq<i16>, Seq<u8>, u8, int),
    DisassemblyError,
> {
    let (regs, mem, flags, pos) = m;
    match decode_at(bytes, limit, pos) {
        Err(e) => Err(e),
        Ok((instr, k)) => {
            let ip = pos + k;
            match cpu_operands(instr) {
                Err(e) => Err(e),
                Ok((dst, src)) => if template_operation(instr.template) == Operation::JNZ {
                    match src {
                        CpuOperand::Jump(j) => {
                            let target = jnz_target(flags, ip, j);
                            if target == ip || 0 <= target <= limit {
                                Ok((regs, mem, flags, target))
                            } else {
                                Err(DisassemblyError::BufferError(BufferEndReachedError))
                            }
                        },
                        _ => Err(operand_error()),
                    }
                } else {
                    match execute_spec(regs, mem, flags, template_operation(instr.template), dst, src) {
                        Ok((r2, m2, f2)) => Ok((r2, m2, f2, ip)),
                        Err(e) => Err(e),
                    }
                },
            }
        },
    }
}

/// Up to `fuel` steps, stopping early once the cursor reaches `loaded`; the final state and
/// the number of steps taken, or the first error.
pub open spec fn run_spec(
    m: (Seq<i16>, Seq<u8>, u8, int),
    bytes: Seq<u8>,
    limit: int,
    loaded: int,
    fuel: nat,
) -> Result<((Seq<i16>, Seq<u8>, u8, int), nat), DisassemblyError>
    decreases fuel,
{
    if fuel == 0 || m.3 >= loaded {
        Ok((m, 0))
    } else {
        match next_spec(m, bytes, limit) {
            Err(e) => Err(e),
            Ok(m1) => match run_spec(m1, bytes, limit, loaded, (fuel - 1) as nat) {
                Ok((m2, n)) => Ok((m2, n + 1)),
                Err(e) => Err(e),
            },
        }
    }
}

/// A processor: register file, flags, the program buffer with its cursor, and memory.
pub struct CPU {
    pub registers: Registers,
    pub flags: CpuFlags,
    pub buffer: InstructionBuffer,
    pub memory: Memory,
}

impl CPU {
    /// The shape every processor keeps: eight registers and the full memory.
    pub open spec fn wf(&self) -> bool {
        self.registers.regs@.len() == 8 && self.memory.mem@.len() == MEMORY_SIZE
    }

    /// A processor with zeroed registers, flags and memory, about to run `buffer`.
    pub fn new(buffer: InstructionBuffer) -> (r: Self)
        ensures
            r.wf(),
            r.registers.regs@ == Seq::new(8, |i: int| 0i16),
            r.flags.0 == 0,
            r.buffer == buffer,
            forall|i: int| 0 <= i < MEMORY_SIZE ==> r.memory.mem@[i] == 0,
    {
        let regs = vec![0i16; 8];
        assert(regs@ =~= Seq::new(8, |i: int| 0i16));
        CPU { registers: Registers { regs }, flags: CpuFlags(0), buffer, memory: Memory::new() }
    }

    fn address_to_index(&self, address: EffectiveAddress) -> (r: usize)
        requires
            self.wf(),
        ensures
            r == access_index(self.registers.regs@, Access::Address(address)),
    {
        let sum: i32 = match address {
            EffectiveAddress::Si(d) => self.registers.content_of(Reg::Si) as i32 + d as i32,
            EffectiveAddress::Di(d) => self.registers.content_of(Reg::Di) as i32 + d as i32,
            EffectiveAddress::Bp(d) => self.registers.content_of(Reg::Bp) as i32 + d as i32,
            EffectiveAddress::Bx(d) => self.registers.content_of(Reg::B) as i32 + d as i32,
            EffectiveAddress::BpSi(d) => self.registers.content_of(Reg::Bp) as i32
                + self.registers.content_of(Reg::Si) as i32 + d as i32,
            EffectiveAddress::BxSi(d) => self.registers.content_of(Reg::B) as i32
                + self.registers.content_of(Reg::Si) as i32 + d as i32,
            EffectiveAddress::BxDi(d) => self.registers.content_of(Reg::B) as i32
                + self.registers.content_of(Reg::Di) as i32 + d as i32,
            EffectiveAddress::BpDi(d) => self.registers.content_of(Reg::Bp) as i32
                + self.registers.content_of(Reg::Di) as i32 + d as i32,
        };
        ((sum + 131072) % 65536) as usize
    }

    /// The memory index an access reaches, when both bytes of a word there fit in memory.
    fn access_to_index(&self, access: Access) -> (r: Option<usize>)
        requires
            self.wf(),
        ensures
            access_fits(self.registers.regs@, self.memory.mem@, access) ==> r == Some(
                access_index(self.registers.regs@, access) as usize,
            ),
            !access_fits(self.registers.regs@, self.memory.mem@, access) ==> r is None,
    {
        let index = match access {
            Access::Direct(index) => index,
            Access::Address(addr) => self.address_to_index(addr),
        };
        if index < MEMORY_SIZE - 1 {
            Some(index)
        } else {
            None
        }
    }

    fn value(&self, source: CpuOperand) -> (r: Option<i16>)
        requires
            self.wf(),
        ensures
            r == operand_value(self.registers.regs@, self.memory.mem@, source),
    {
        match source {
            CpuOperand::Immediate(val) => Some(val),
            CpuOperand::Register(reg) => Some(self.registers.content_of(reg)),
            CpuOperand::Memory(access) => match self.access_to_index(access) {
                Some(i) => Some(self.memory.value_at(i)),
                None => None,
            },
            _ => None,
        }
    }

    fn put_value_in_destination(&mut self, destination: CpuOperand, value: i16) -> (r: bool)
        requires
            old(self).wf(),
        ensures
            final(self).wf(),
            final(self).flags == old(self).flags,
            final(self).buffer == old(self).buffer,
            match store_spec(old(self).registers.regs@, old(self).memory.mem@, destination, value) {
                Some((regs, mem)) => r && final(self).registers.regs@ == regs
                    && final(self).memory.mem@ == mem,
                None => !r && final(self).registers.regs@ == old(self).registers.regs@
                    && final(self).memory.mem@ == old(self).memory.mem@,
            },
    {
        match destination {
            CpuOperand::Register(reg) => {
                self.registers.mov(reg, value);
                true
            },
            CpuOperand::Memory(access) => match self.access_to_index(access) {
                Some(i) => {
                    self.memory.save_value_at(i, value);
                    true
                },
                None => false,
            },
            _ => false,
        }
    }

    fn flip_flags(&mut self, value: i16)
        ensures
            final(self).flags.0 == flags_of(value),
            final(self).registers == old(self).registers,
            final(self).memory == old(self).memory,
            final(self).buffer == old(self).buffer,
    {
        let z: u8 = if value == 0 {
            2
        } else {
            0
        };
        let s: u8 = if value < 0 {
            1
        } else {
            0
        };
        self.flags = CpuFlags(z | s);
    }

    /// Runs one data operation on a destination and a source.
    fn execute(&mut self, destination: CpuOperand, source: CpuOperand, op: Operation) -> (r: Result<
        (),
        DisassemblyError,
    >)
        requires
            old(self).wf(),
            op != Operation::JNZ,
        ensures
            final(self).wf(),
            final(self).buffer == old(self).buffer,
            r is Err ==> final(self).registers.regs@ == old(self).registers.regs@
                && final(self).memory.mem@ == old(self).memory.mem@ && final(self).flags == old(
                self,
            ).flags,
            match execute_spec(
                old(self).registers.regs@,
                old(self).memory.mem@,
                old(self).flags.0,
                op,
                destination,
                source,
            ) {
                Ok((regs, mem, flags)) => r is Ok && final(self).registers.regs@ == regs
                    && final(self).memory.mem@ == mem && final(self).flags.0 == flags,
                Err(e) => r == Err::<(), DisassemblyError>(e),
            },
    {
        let d = match self.value(destination) {
            Some(d) => d,
            None => {
                return Err(DisassemblyError::DecodeError(DecodingError::UnexpectedOperandError));
            },
        };
        let s = match self.value(source) {
            Some(s) => s,
            None => {
                return Err(DisassemblyError::DecodeError(DecodingError::UnexpectedOperandError));
            },
        };
        let v = match op {
            Operation::MOV => s,
            Operation::ADD => wrap_exec(d as i32 + s as i32),
            _ => wrap_exec(d as i32 - s as i32),
        };
        if op != Operation::CMP {
            if !self.put_value_in_destination(destination, v) {
                return Err(DisassemblyError::DecodeError(DecodingError::UnexpectedOperandError));
            }
        }
        if op != Operation::MOV {
            self.flip_flags(v);
        }
        Ok(())
    }

    pub fn execute_mov(&mut self, destination: CpuOperand, source: CpuOperand) -> (r: Result<
        (),
        DisassemblyError,
    >)
        requires
            old(self).wf(),
        ensures
            final(self).wf(),
            final(self).buffer == old(self).buffer,
            final(self).flags == old(self).flags,
            match execute_spec(
                old(self).registers.regs@,
                old(self).memory.mem@,
                old(self).flags.0,
                Operation::MOV,
                destination,
                source,
            ) {
                Ok((regs, mem, flags)) => r is Ok && final(self).registers.regs@ == regs
                    && final(self).memory.mem@ == mem,
                Err(e) => r == Err::<(), DisassemblyError>(e),
            },
    {
        self.execute(destination, source, Operation::MOV)
    }

    pub fn execute_add(&mut self, destination: CpuOperand, source: CpuOperand) -> (r: Result<
        (),
        DisassemblyError,
    >)
        requires
            old(self).wf(),
        ensures
            final(self).wf(),
            final(self).buffer == old(self).buffer,
            match execute_spec(
                old(self).registers.regs@,
                old(self).memory.mem@,
                old(self).flags.0,
                Operation::ADD,
                destination,
                source,
            ) {
                Ok((regs, mem, flags)) => r is Ok && final(self).registers.regs@ == regs
                    && final(self).memory.mem@ == mem && final(self).flags.0 == flags,
                Err(e) => r == Err::<(), DisassemblyError>(e),
            },
    {
        self.execute(destination, source, Operation::ADD)
    }

    pub fn execute_sub(&mut self, destination: CpuOperand, source: CpuOperand) -> (r: Result<
        (),
        DisassemblyError,
    >)
        requires
            old(self).wf(),
        ensures
            final(self).wf(),
            final(self).buffer == old(self).buffer,
            match execute_spec(
                old(self).registers.regs@,
                old(self).memory.mem@,
                old(self).flags.0,
                Operation::SUB,
                destination,
                source,
            ) {
                Ok((regs, mem, flags)) => r is Ok && final(self).registers.regs@ == regs
                    && final(self).memory.mem@ == mem && final(self).flags.0 == flags,
                Err(e) => r == Err::<(), DisassemblyError>(e),
            },
    {
        self.execute(destination, source, Operation::SUB)
    }

    pub fn execute_cmp(&mut self, destination: CpuOperand, source: CpuOperand) -> (r: Result<
        (),
        DisassemblyError,
    >)
        requires
            old(self).wf(),
        ensures
            final(self).wf(),
            final(self).buffer == old(self).buffer,
            final(self).registers.regs@ == old(self).registers.regs@,
            final(self).memory.mem@ == old(self).memory.mem@,
            match execute_spec(
                old(self).registers.regs@,
                old(self).memory.mem@,
                old(self).flags.0,
                Operation::CMP,
                destination,
                source,
            ) {
                Ok((regs, mem, flags)) => r is Ok && final(self).flags.0 == flags,
                Err(e) => r == Err::<(), DisassemblyError>(e),
            },
    {
        self.execute(destination, source, Operation::CMP)
    }

    /// Jumps by the operand's displacement unless the zero flag is set. A jump that would
    /// leave the loaded bytes is refused and moves nothing.
    pub fn execute_jnz(&mut self, jump_operand: CpuOperand) -> (r: Result<(), DisassemblyError>)
        ensures
            final(self).registers == old(self).registers,
            final(self).memory == old(self).memory,
            final(self).flags == old(self).flags,
            final(self).buffer.buf == old(self).buffer.buf,
            final(self).buffer.bytes_loaded == old(self).buffer.bytes_loaded,
            match jump_operand {
                CpuOperand::Jump(j) => {
                    let ip = old(self).buffer.last_read as int;
                    let target = jnz_target(old(self).flags.0, ip, j);
                    if target == ip || 0 <= target <= old(self).buffer.limit() {
                        r is Ok && final(self).buffer.last_read == target
                    } else {
                        r == Err::<(), DisassemblyError>(
                            DisassemblyError::BufferError(BufferEndReachedError),
                        ) && final(self).buffer.last_read == old(self).buffer.last_read
                    }
                },
                _ => r == Err::<(), DisassemblyError>(operand_error())
                    && final(self).buffer.last_read == old(self).buffer.last_read,
            },
    {
        match jump_operand {
            CpuOperand::Jump(jmp) => {
                if !self.flags.is_flag_toogled(CpuFlags(2)) {
                    let ip = self.buffer.last_read;
                    let limit = if self.buffer.bytes_loaded < self.buffer.buf.len() {
                        self.buffer.bytes_loaded
                    } else {
                        self.buffer.buf.len()
                    };
                    if jmp < 0 {
                        let back = (0 - (jmp as i32)) as usize;
                        if ip < back || ip - back > limit {
                            return Err(DisassemblyError::BufferError(BufferEndReachedError));
                        }
                    } else if jmp > 0 {
                        if ip > limit || (jmp as usize) > limit - ip {
                            return Err(DisassemblyError::BufferError(BufferEndReachedError));
                        }
                    }
                    self.buffer.jump_by(jmp);
                }
                Ok(())
            },
            _ => Err(DisassemblyError::DecodeError(DecodingError::UnexpectedOperandError)),
        }
    }

    /// Decodes the instruction at the cursor, moves the cursor past it and executes it.
    pub fn execute_next_instruction(&mut self) -> (r: Result<(), DisassemblyError>)
        requires
            old(self).wf(),
        ensures
            final(self).wf(),
            final(self).buffer.buf == old(self).buffer.buf,
            final(self).buffer.bytes_loaded == old(self).buffer.bytes_loaded,
            match next_spec(machine(*old(self)), old(self).buffer.buf@, old(self).buffer.limit()) {
                Ok(m) => r is Ok && machine(*final(self)) == m,
                Err(e) => r == Err::<(), DisassemblyError>(e),
            },
    {
        let (instr, _n) = disassemble_instruction(&mut self.buffer)?;
        let (a, b) = match (instr.operand_a, instr.operand_b) {
            (Some(_), Some(_)) => instr.operands_sorted(),
            _ => {
                return Err(DisassemblyError::DecodeError(DecodingError::FieldNotYetDecodedError));
            },
        };
        let dst = match a.parse_for_cpu() {
            Ok(op) => op,
            Err(e) => {
                return Err(DisassemblyError::DecodeError(e));
            },
        };
        let src = match b.parse_for_cpu() {
            Ok(op) => op,
            Err(e) => {
                return Err(DisassemblyError::DecodeError(e));
            },
        };
        match instr.operation() {
            Operation::MOV => self.execute_mov(dst, src),
            Operation::ADD => self.execute_add(dst, src),
            Operation::SUB => self.execute_sub(dst, src),
            Operation::CMP => self.execute_cmp(dst, src),
            Operation::JNZ => self.execute_jnz(src),
        }
    }

    /// Executes instructions until the cursor reaches the end of the loaded bytes, an error
    /// comes, or `max_steps` instructions have run. Returns how many ran.
    pub fn execute_instructions(&mut self, max_steps: usize) -> (r: Result<usize, DisassemblyError>)
        requires
            old(self).wf(),
        ensures
            final(self).wf(),
            match run_spec(
                machine(*old(self)),
                old(self).buffer.buf@,
                old(self).buffer.limit(),
                old(self).buffer.bytes_loaded as int,
                max_steps as nat,
            ) {
                Ok((m, n)) => r == Ok::<usize, DisassemblyError>(n as usize) && machine(*final(self))
                    == m,
                Err(e) => r == Err::<usize, DisassemblyError>(e),
            },
            r matches Ok(n) && n < max_steps ==> final(self).buffer.is_at_end(),
    {
        let ghost m0 = machine(*self);
        let ghost bytes = self.buffer.buf@;
        let ghost limit = self.buffer.limit();
        let ghost loaded = self.buffer.bytes_loaded as int;
        let mut steps: usize = 0;
        while steps < max_steps && !self.buffer.is_at_the_end()
            invariant
                self.wf(),
                steps <= max_steps,
                self.buffer.buf@ == bytes,
                self.buffer.limit() == limit,
                self.buffer.bytes_loaded as int == loaded,
                m0 == machine(*old(self)),
                bytes == old(self).buffer.buf@,
                limit == old(self).buffer.limit(),
                loaded == old(self).buffer.bytes_loaded as int,
                match run_spec(machine(*self), bytes, limit, loaded, (max_steps - steps) as nat) {
                    Ok((m, n)) => run_spec(m0, bytes, limit, loaded, max_steps as nat) == Ok::<
                        ((Seq<i16>, Seq<u8>, u8, int), nat),
                        DisassemblyError,
                    >((m, (n + steps) as nat)),
                    Err(e) => run_spec(m0, bytes, limit, loaded, max_steps as nat) == Err::<
                        ((Seq<i16>, Seq<u8>, u8, int), nat),
                        DisassemblyError,
                    >(e),
                },
            decreases max_steps - steps,
        {
            match self.execute_next_instruction() {
                Ok(()) => {},
                Err(e) => {
                    return Err(e);
                },
            }
            proof {
                assert((max_steps - steps - 1) as nat == ((max_steps - steps) as nat - 1) as nat);
            }
            steps += 1;
        }
        Ok(steps)
    }
}

} // verus!
