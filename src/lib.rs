//! A decoder and interpreter for a small subset of the 8086 instruction set: a table of
//! encoding templates, a byte-at-a-time decoder, assembly text rendering, and an execution
//! engine over registers, flags and memory.

pub mod assembled_instruction;
pub mod buffer;
pub mod cpu;
pub mod decode_laws;
pub mod disassemble;
pub mod instruction;
pub mod laws;
pub mod operand;
pub mod render;
pub mod singlebits;
pub mod table;
