//! Storage and inspection layer for a bytecode program: growable buffers,
//! the chunk that pairs an instruction stream with a constant pool, and a
//! disassembler that decodes the stream into a trace.

use vstd::prelude::*;

pub mod buffer;
pub mod chunk;
pub mod debug;
pub mod memory;
pub mod trace;

use crate::chunk::{Chunk, DynamicArray, OP_CONSTANT, OP_RETURN};
use crate::debug::{dissassemble_chunk, trace_from, well_shaped_from};
use crate::memory::slots;
use crate::trace::{header_text, Disassembly, Instruction, TraceLine};

verus! {

/// The constant that the sample program loads: the double 1.2, as the 64
/// bits of its encoding.
pub const SAMPLE_CONSTANT: u64 = 0x3FF3_3333_3333_3333;

/// What a run of the sample program leaves to show: the storage of its
/// instruction stream and its disassembly.
#[derive(Clone, Debug, PartialEq, Eq)]
pub struct Report {
    pub code: Option<Vec<u8>>,
    pub trace: Disassembly,
}

/// Builds the sample program, a load of one constant followed by a return,
/// disassembles it under the label `test chunk` and releases it.
pub fn run() -> (report: Report)
    ensures
        slots(report.code) == Some(seq![OP_CONSTANT, 0u8, OP_RETURN, 0u8, 0u8, 0u8, 0u8, 0u8]),
        report.trace.header@ == header_text("test chunk"@),
        report.trace.lines@ == seq![
            TraceLine {
                offset: 0,
                instruction: Instruction::Constant { index: 0, value: SAMPLE_CONSTANT },
            },
            TraceLine { offset: 2, instruction: Instruction::Return },
        ],
{
    let mut chunk = Chunk::new();
    let constant: i32 = chunk.add_constant(SAMPLE_CONSTANT);
    chunk.write_chunk(OP_CONSTANT);
    chunk.write_chunk(constant as u8);
    chunk.write_chunk(OP_RETURN);
    let code = chunk.code_chunk.get_storage();
    proof {
        reveal_with_fuel(well_shaped_from, 4);
        reveal_with_fuel(trace_from, 4);
        assert(chunk.code() =~= seq![OP_CONSTANT, 0u8, OP_RETURN]);
        assert(chunk.pool() =~= seq![SAMPLE_CONSTANT]);
    }
    let trace = dissassemble_chunk(&chunk, "test chunk");
    chunk.free_chunk();
    Report { code, trace }
}

} // verus!
