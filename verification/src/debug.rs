//! The disassembler: a read-only walk over a chunk's instruction stream.

use vstd::prelude::*;
use crate::chunk::{Chunk, DynamicArray, OP_CONSTANT, OP_RETURN};
use crate::trace::{header_line, header_text, Disassembly, Instruction, TraceLine};

verus! {

/// Whether the instruction that starts at `offset` can be decoded: the
/// offset lies in the stream, and a load-constant there is followed by its
/// operand byte, which is the index of a constant that the pool holds.
pub open spec fn well_shaped_at(code: Seq<u8>, pool: Seq<u64>, offset: int) -> bool {
    &&& 0 <= offset < code.len()
    &&& code[offset] == OP_CONSTANT ==> offset + 1 < code.len() && code[offset + 1] < pool.len()
}

/// The instruction that starts at `offset`.
pub open spec fn decoded(code: Seq<u8>, pool: Seq<u64>, offset: int) -> Instruction {
    if code[offset] == OP_CONSTANT {
        Instruction::Constant { index: code[offset + 1], value: pool[code[offset + 1] as int] }
    } else if code[offset] == OP_RETURN {
        Instruction::Return
    } else {
        Instruction::Unknown { opcode: code[offset] }
    }
}

/// The offset of the instruction that follows the one at `offset`.
pub open spec fn next_offset(code: Seq<u8>, pool: Seq<u64>, offset: int) -> int {
    offset + decoded(code, pool, offset).width()
}

/// Whether every instruction met on the walk from `offset` to the end of
/// the stream can be decoded.
pub open spec fn well_shaped_from(code: Seq<u8>, pool: Seq<u64>, offset: int) -> bool
    decreases code.len() - offset,
{
    if 0 <= offset < code.len() {
        well_shaped_at(code, pool, offset) && well_shaped_from(
            code,
            pool,
            next_offset(code, pool, offset),
        )
    } else {
        offset == code.len()
    }
}

/// The trace of the walk from `offset` to the end of the stream: one line
/// per instruction, each starting where the one before it ended.
///
/// The measure allows for one step past the end, which a load-constant in
/// the last byte of a stream takes.
pub open spec fn trace_from(code: Seq<u8>, pool: Seq<u64>, offset: int) -> Seq<TraceLine>
    decreases code.len() + 1 - offset,
{
    if 0 <= offset < code.len() {
        seq![TraceLine { offset: offset as i32, instruction: decoded(code, pool, offset) }]
            + trace_from(code, pool, next_offset(code, pool, offset))
    } else {
        Seq::empty()
    }
}

impl Chunk {
    /// Whether the chunk can be disassembled: its buffers are well formed
    /// and the walk over its instruction stream meets only instructions
    /// that can be decoded.
    pub open spec fn well_shaped(&self) -> bool {
        self.wf() && well_shaped_from(self.code(), self.pool(), 0)
    }
}

/// The walk only moves forward. Its first line starts at `offset`, every
/// line starts inside the stream and holds the instruction decoded there,
/// each line starts where the one before it ended, so that offsets rise
/// strictly, and there are at most as many lines as bytes left. On a
/// stream whose instructions can all be decoded the last line ends exactly
/// at the end of the stream.
pub proof fn lemma_trace_walks_forward(code: Seq<u8>, pool: Seq<u64>, offset: int)
    requires
        0 <= offset <= code.len() <= i32::MAX,
    ensures
        ({
            let trace = trace_from(code, pool, offset);
            &&& trace.len() <= code.len() - offset
            &&& trace.len() == 0 <==> offset == code.len()
            &&& trace.len() > 0 ==> trace[0].offset == offset
            &&& forall|i: int|
                0 <= i < trace.len() ==> offset <= (#[trigger] trace[i]).offset < code.len()
            &&& forall|i: int|
                0 <= i < trace.len() ==> (#[trigger] trace[i]).instruction == decoded(
                    code,
                    pool,
                    trace[i].offset as int,
                )
            &&& forall|i: int|
                0 <= i < trace.len() - 1 ==> (#[trigger] trace[i + 1]).offset == next_offset(
                    code,
                    pool,
                    trace[i].offset as int,
                )
            &&& forall|i: int, j: int|
                0 <= i < j < trace.len() ==> (#[trigger] trace[i]).offset < (
                #[trigger] trace[j]).offset
            &&& well_shaped_from(code, pool, offset) && trace.len() > 0 ==> next_offset(
                code,
                pool,
                trace.last().offset as int,
            ) == code.len()
        }),
    decreases code.len() + 1 - offset,
{
    let trace = trace_from(code, pool, offset);
    if offset < code.len() {
        let next = next_offset(code, pool, offset);
        let rest = trace_from(code, pool, next);
        if next <= code.len() {
            lemma_trace_walks_forward(code, pool, next);
        }
        assert(trace[0].offset == offset);
        assert forall|i: int| 1 <= i < trace.len() implies trace[i] == rest[i - 1] by {}
        assert forall|i: int, j: int| 0 <= i < j < trace.len() implies (#[trigger] trace[i]).offset
            < (#[trigger] trace[j]).offset by {
            assert(trace[j] == rest[j - 1]);
            if i > 0 {
                assert(trace[i] == rest[i - 1]);
            }
        }
        assert forall|i: int| 0 <= i < trace.len() - 1 implies (#[trigger] trace[i + 1]).offset
            == next_offset(code, pool, trace[i].offset as int) by {
            assert(trace[i + 1] == rest[i]);
            if i > 0 {
                assert(trace[i] == rest[i - 1]);
                assert(rest[(i - 1) + 1].offset == next_offset(
                    code,
                    pool,
                    rest[i - 1].offset as int,
                ));
            }
        }
        if well_shaped_from(code, pool, offset) {
            if rest.len() > 0 {
                assert(trace.last() == rest.last());
            }
        }
    }
}

/// The items in use of a buffer, copied out of its storage.
fn items_of<T: Default + Clone, A: DynamicArray<T>>(array: &A) -> (items: Vec<T>)
    requires
        array@.wf(),
    ensures
        items@ == array@.items(),
        items@.len() == array@.count,
{
    let count: i32 = array.get_count();
    match array.get_storage() {
        Some(block) => {
            let mut block = block;
            block.truncate(count as usize);
            block
        },
        None => Vec::new(),
    }
}

fn simple_instruction(instruction: Instruction, offset: i32) -> (step: (TraceLine, i32))
    requires
        offset < i32::MAX,
    ensures
        step.0 == (TraceLine { offset, instruction }),
        step.1 == offset + 1,
{
    (TraceLine { offset, instruction }, offset + 1)
}

fn constant_instruction(code: &Vec<u8>, pool: &Vec<u64>, offset: i32) -> (step: (TraceLine, i32))
    requires
        code@.len() <= i32::MAX,
        well_shaped_at(code@, pool@, offset as int),
        code@[offset as int] == OP_CONSTANT,
    ensures
        step.0 == (TraceLine { offset, instruction: decoded(code@, pool@, offset as int) }),
        step.1 == offset + 2,
{
    let constant: u8 = code[(offset + 1) as usize];
    let value: u64 = pool[constant as usize];
    (TraceLine { offset, instruction: Instruction::Constant { index: constant, value } }, offset + 2)
}

fn decode_step(code: &Vec<u8>, pool: &Vec<u64>, offset: i32) -> (step: (TraceLine, i32))
    requires
        code@.len() <= i32::MAX,
        well_shaped_at(code@, pool@, offset as int),
    ensures
        step.0 == (TraceLine { offset, instruction: decoded(code@, pool@, offset as int) }),
        step.1 == next_offset(code@, pool@, offset as int),
{
    let instruction: u8 = code[offset as usize];
    if instruction == OP_CONSTANT {
        constant_instruction(code, pool, offset)
    } else if instruction == OP_RETURN {
        simple_instruction(Instruction::Return, offset)
    } else {
        simple_instruction(Instruction::Unknown { opcode: instruction }, offset)
    }
}

fn is_well_shaped_at(code: &Vec<u8>, pool: &Vec<u64>, offset: i32) -> (ok: bool)
    requires
        code@.len() <= i32::MAX,
    ensures
        ok == well_shaped_at(code@, pool@, offset as int),
{
    if offset < 0 || offset as usize >= code.len() {
        return false;
    }
    if code[offset as usize] != OP_CONSTANT {
        return true;
    }
    if offset as usize + 1 >= code.len() {
        return false;
    }
    (code[offset as usize + 1] as usize) < pool.len()
}

impl Chunk {
    /// Tests whether the instruction that starts at `offset` can be
    /// decoded.
    pub fn can_decode(&self, offset: i32) -> (ok: bool)
        ensures
            ok == (self.wf() && well_shaped_at(self.code(), self.pool(), offset as int)),
    {
        if !self.code_chunk.is_wf() || !self.constants.is_wf() {
            return false;
        }
        let code = items_of(&self.code_chunk);
        let pool = items_of(&self.constants);
        is_well_shaped_at(&code, &pool, offset)
    }

    /// Tests whether the chunk can be disassembled.
    pub fn is_well_shaped(&self) -> (ok: bool)
        ensures
            ok == self.well_shaped(),
    {
        if !self.code_chunk.is_wf() || !self.constants.is_wf() {
            return false;
        }
        let code = items_of(&self.code_chunk);
        let pool = items_of(&self.constants);
        let count: i32 = self.code_chunk.get_count();
        let mut offset: i32 = 0;
        while offset < count
            invariant
                0 <= offset <= count == code@.len(),
                self.wf(),
                code@ == self.code(),
                pool@ == self.pool(),
                well_shaped_from(code@, pool@, 0) == well_shaped_from(code@, pool@, offset as int),
            decreases count - offset,
        {
            if !is_well_shaped_at(&code, &pool, offset) {
                return false;
            }
            offset = decode_step(&code, &pool, offset).1;
        }
        true
    }
}

/// Decodes the instruction that starts at `offset` and returns its trace
/// line together with the offset of the instruction behind it.
pub fn dissassemble_instruction(chunk: &Chunk, offset: i32) -> (step: (TraceLine, i32))
    requires
        chunk.wf(),
        well_shaped_at(chunk.code(), chunk.pool(), offset as int),
    ensures
        step.0 == (TraceLine {
            offset,
            instruction: decoded(chunk.code(), chunk.pool(), offset as int),
        }),
        step.1 == next_offset(chunk.code(), chunk.pool(), offset as int),
        offset < step.1 <= chunk.code().len(),
{
    let code = items_of(&chunk.code_chunk);
    let pool = items_of(&chunk.constants);
    decode_step(&code, &pool, offset)
}

/// Disassembles the whole chunk: the header for `name`, then one line per
/// instruction from offset zero to the end of the stream.
pub fn dissassemble_chunk(chunk: &Chunk, name: &str) -> (trace: Disassembly)
    requires
        chunk.well_shaped(),
    ensures
        trace.header@ == header_text(name@),
        trace.lines@ == trace_from(chunk.code(), chunk.pool(), 0),
{
    let header = header_line(name);
    let code = items_of(&chunk.code_chunk);
    let pool = items_of(&chunk.constants);
    let count: i32 = chunk.code_chunk.get_count();
    let mut lines: Vec<TraceLine> = Vec::new();
    let mut offset: i32 = 0;
    while offset < count
        invariant
            0 <= offset <= count == code@.len(),
            well_shaped_from(code@, pool@, offset as int),
            lines@ + trace_from(code@, pool@, offset as int) == trace_from(code@, pool@, 0),
        decreases count - offset,
    {
        let (line, next) = decode_step(&code, &pool, offset);
        lines.push(line);
        assert(lines@ + trace_from(code@, pool@, next as int) =~= trace_from(code@, pool@, 0));
        offset = next;
    }
    assert(lines@ =~= trace_from(code@, pool@, 0));
    Disassembly { header, lines }
}

} // verus!
