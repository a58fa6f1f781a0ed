use vstd::prelude::*;

use crate::assembled_instruction::AssembledInstructionLookupError;
use crate::buffer::{BufferEndReachedError, InstructionBuffer};
use crate::instruction::{continue_spec, finalize_spec, new_spec, DecodingError, Instruction};

verus! {

/// Why decoding or executing an instruction from a buffer failed.
#[derive(Debug, Clone, Copy, PartialEq, Eq, Structural)]
pub enum DisassemblyError {
    LookupError(AssembledInstructionLookupError),
    BufferError(BufferEndReachedError),
    DecodeError(DecodingError),
}

/// The instruction that starts at `pos`, with the number of bytes it takes, when `limit`
/// bytes of `bytes` can be read.
pub open spec fn decode_at(bytes: Seq<u8>, limit: int, pos: int) -> Result<
    (Instruction, nat),
    DisassemblyError,
> {
    if pos + 1 > limit {
        Err(DisassemblyError::BufferError(BufferEndReachedError))
    } else {
        match new_spec(bytes[pos]) {
            Err(e) => Err(DisassemblyError::DecodeError(e)),
            Ok(s) => if pos + 2 > limit {
                Err(DisassemblyError::BufferError(BufferEndReachedError))
            } else {
                match continue_spec(s, bytes[pos + 1]) {
                    Err(e) => Err(DisassemblyError::DecodeError(e)),
                    Ok((s2, n)) => if n == 0 {
                        Ok((s2, 2))
                    } else if pos + 2 + n > limit {
                        Err(DisassemblyError::BufferError(BufferEndReachedError))
                    } else {
                        match finalize_spec(s2, bytes.subrange(pos + 2, pos + 2 + n)) {
                            Ok(s3) => Ok((s3, (2 + n) as nat)),
                            Err(e) => Err(DisassemblyError::DecodeError(e)),
                        }
                    },
                }
            },
        }
    }
}

/// Every instruction from `pos` on, decoded one after the other while `pos` is before
/// `loaded`.
pub open spec fn decode_from(bytes: Seq<u8>, limit: int, loaded: int, pos: int) -> Result<
    Seq<Instruction>,
    DisassemblyError,
>
    decreases (if pos < loaded {
        loaded - pos
    } else {
        0
    }),
{
    if pos >= loaded {
        Ok(Seq::empty())
    } else {
        let step = decode_at(bytes, limit, pos);
        if step is Err {
            Err(step->Err_0)
        } else {
            let k = step->Ok_0.1 as int;
            if k <= 0 {
                Ok(Seq::empty())
            } else {
                match decode_from(bytes, limit, loaded, pos + k) {
                    Ok(rest) => Ok(seq![step->Ok_0.0].add(rest)),
                    Err(e) => Err(e),
                }
            }
        }
    }
}

/// Decodes the instruction at the cursor and moves the cursor past it.
pub fn disassemble_instruction(buffer: &mut InstructionBuffer) -> (r: Result<
    (Instruction, usize),
    DisassemblyError,
>)
    ensures
        final(buffer).buf == old(buffer).buf,
        final(buffer).bytes_loaded == old(buffer).bytes_loaded,
        match decode_at(old(buffer).buf@, old(buffer).limit(), old(buffer).last_read as int) {
            Ok((s, k)) => r == Ok::<(Instruction, usize), DisassemblyError>((s, k as usize))
                && final(buffer).last_read == old(buffer).last_read + k,
            Err(e) => r == Err::<(Instruction, usize), DisassemblyError>(e),
        },
{
    let first = match buffer.next_byte() {
        Ok(b) => b,
        Err(e) => {
            return Err(DisassemblyError::BufferError(e));
        },
    };
    let mut instr = match Instruction::new(first) {
        Ok(i) => i,
        Err(e) => {
            return Err(DisassemblyError::DecodeError(e));
        },
    };
    let second = match buffer.next_byte() {
        Ok(b) => b,
        Err(e) => {
            return Err(DisassemblyError::BufferError(e));
        },
    };
    let needed = match instr.continue_disassembly(second) {
        Ok(n) => n,
        Err(e) => {
            return Err(DisassemblyError::DecodeError(e));
        },
    };
    if needed == 0 {
        return Ok((instr, 2));
    }
    let rest = match buffer.next_n_bytes(needed) {
        Ok(v) => v,
        Err(e) => {
            return Err(DisassemblyError::BufferError(e));
        },
    };
    match instr.finalize_disassembly(rest) {
        Ok(()) => {},
        Err(e) => {
            return Err(DisassemblyError::DecodeError(e));
        },
    }
    Ok((instr, 2 + needed))
}

/// Decodes every instruction from the cursor to the end of the loaded bytes.
pub fn disassemble_bytes_in(buffer: InstructionBuffer) -> (r: Result<
    Vec<Instruction>,
    DisassemblyError,
>)
    ensures
        match decode_from(
            buffer.buf@,
            buffer.limit(),
            buffer.bytes_loaded as int,
            buffer.last_read as int,
        ) {
            Ok(v) => r is Ok && r->Ok_0@ == v,
            Err(e) => r == Err::<Vec<Instruction>, DisassemblyError>(e),
        },
{
    let ghost bytes = buffer.buf@;
    let ghost limit = buffer.limit();
    let ghost loaded = buffer.bytes_loaded as int;
    let ghost start = buffer.last_read as int;
    let mut cursor = buffer;
    let mut instructions: Vec<Instruction> = Vec::new();
    proof {
        match decode_from(bytes, limit, loaded, start) {
            Ok(rest) => {
                assert(instructions@.add(rest) =~= rest);
            },
            Err(e) => {},
        }
    }
    while cursor.last_read < cursor.bytes_loaded
        invariant
            cursor.buf@ == bytes,
            bytes == buffer.buf@,
            limit == buffer.limit(),
            loaded == buffer.bytes_loaded as int,
            start == buffer.last_read as int,
            cursor.limit() == limit,
            cursor.bytes_loaded as int == loaded,
            match decode_from(bytes, limit, loaded, cursor.last_read as int) {
                Ok(rest) => decode_from(bytes, limit, loaded, start) == Ok::<
                    Seq<Instruction>,
                    DisassemblyError,
                >(instructions@.add(rest)),
                Err(e) => decode_from(bytes, limit, loaded, start) == Err::<
                    Seq<Instruction>,
                    DisassemblyError,
                >(e),
            },
        decreases loaded - cursor.last_read,
    {
        let ghost pos = cursor.last_read as int;
        let instr = match disassemble_instruction(&mut cursor) {
            Ok((instr, _n)) => instr,
            Err(e) => {
                assert(decode_from(bytes, limit, loaded, pos) == Err::<
                    Seq<Instruction>,
                    DisassemblyError,
                >(e));
                return Err(e);
            },
        };
        proof {
            let (s, k) = decode_at(bytes, limit, pos)->Ok_0;
            match decode_from(bytes, limit, loaded, pos + k) {
                Ok(rest) => {
                    assert(instructions@.push(instr).add(rest) =~= instructions@.add(
                        seq![instr].add(rest),
                    ));
                },
                Err(e) => {},
            }
        }
        instructions.push(instr);
    }
    proof {
        assert(instructions@.add(Seq::<Instruction>::empty()) =~= instructions@);
    }
    Ok(instructions)
}

} // verus!
