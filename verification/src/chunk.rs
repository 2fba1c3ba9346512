//! Growable buffers and the chunk that owns two of them.

use vstd::prelude::*;
use crate::buffer::{Buffer, BufferState};
use crate::memory::{free_array, grow_array, grow_capacity, is_default, slots};

verus! {

/// Opcode of the one-byte return instruction.
pub const OP_RETURN: u8 = 1;

/// Opcode of the load-constant instruction; one operand byte follows it.
pub const OP_CONSTANT: u8 = 2;

/// A growable buffer of `T`, reached through its three fields.
///
/// An implementor supplies the fields and their accessors; initialising,
/// releasing and appending are written once, here, on top of them. The
/// setters change one field each and do not look at the others, so they can
/// leave the buffer outside its invariant; appending asks for the invariant
/// and keeps it.
pub trait DynamicArray<T: Default + Clone> {
    /// The buffer as its count, capacity and storage.
    spec fn view(&self) -> Buffer<T>;

    /// The number of items in use.
    fn get_count(&self) -> (count: i32)
        ensures
            count == self@.count,
    ;

    /// Sets the number of items in use and nothing else.
    fn set_count(&mut self, count: i32)
        ensures
            final(self)@ == (Buffer { count: count as int, ..old(self)@ }),
    ;

    /// The number of slots.
    fn get_capacity(&self) -> (capacity: i32)
        ensures
            capacity == self@.capacity,
    ;

    /// Sets the number of slots and nothing else; the storage block is
    /// not resized.
    fn set_capacity(&mut self, capacity: i32)
        ensures
            final(self)@ == (Buffer { capacity: capacity as int, ..old(self)@ }),
    ;

    /// A copy of the storage block, slot for slot.
    fn get_storage(&self) -> (storage: Option<Vec<T>>)
        ensures
            slots(storage) == self@.storage,
    ;

    /// Replaces the storage block and nothing else.
    fn set_storage(&mut self, code: Option<Vec<T>>)
        ensures
            final(self)@ == (Buffer { storage: slots(code), ..old(self)@ }),
    ;

    /// Moves the storage block out of the buffer, which is left without
    /// one; count and capacity stay as they are.
    fn take_storage(&mut self) -> (storage: Option<Vec<T>>)
        ensures
            slots(storage) == old(self)@.storage,
            final(self)@ == (Buffer { storage: None, ..old(self)@ }),
    ;

    /// Puts the buffer into the empty state: no items, no capacity, no
    /// storage block.
    fn init_darray(&mut self)
        ensures
            final(self)@.is_empty(),
            final(self)@.wf(),
            final(self)@.state() == BufferState::<T>::empty(),
    {
        self.set_count(0);
        self.set_capacity(0);
        self.set_storage(None);
    }

    /// Releases the storage block, if there is one, and leaves the buffer
    /// in the empty state, whatever state it was in.
    fn free_darray(&mut self)
        ensures
            final(self)@.is_empty(),
            final(self)@.wf(),
            final(self)@.state() == old(self)@.state().release(),
    {
        let code = self.take_storage();
        let capacity: i32 = self.get_capacity();
        let _ = free_array(code, capacity);
        self.init_darray();
    }

    /// Appends `byte` behind the items in use. A full buffer grows first,
    /// to eight slots or to twice its capacity; the items already there
    /// stay where they are and the new slots hold default values.
    fn write_darray(&mut self, byte: T)
        requires
            old(self)@.wf(),
            old(self)@.can_append(),
        ensures
            final(self)@.wf(),
            final(self)@.count == old(self)@.count + 1,
            final(self)@.items() == old(self)@.items().push(byte),
            final(self)@.state() == old(self)@.state().append(byte),
    {
        let mut capacity: i32 = self.get_capacity();
        let count: i32 = self.get_count();
        let mut code = self.take_storage();
        if capacity < count + 1 {
            let old_capacity: i32 = capacity;
            capacity = grow_capacity(old_capacity);
            self.set_capacity(capacity);
            code = grow_array(code, old_capacity, capacity);
        }
        let mut block = code.unwrap();
        block.set(count as usize, byte);
        self.set_storage(Some(block));
        self.set_count(count + 1);
        assert(self@.items() =~= old(self)@.items().push(byte));
    }
}

/// The instruction stream: a growable buffer of opcode and operand bytes,
/// in the order in which they were emitted.
pub struct CodeArray {
    count: i32,
    capacity: i32,
    code: Option<Vec<u8>>,
}

impl CodeArray {
    /// An empty instruction stream.
    pub fn new() -> (array: CodeArray)
        ensures
            array@.is_empty(),
            array@.wf(),
            array@.state() == BufferState::<u8>::empty(),
    {
        CodeArray { count: 0, capacity: 0, code: None }
    }

    /// Tests the buffer invariant, which the setters can break.
    pub fn is_wf(&self) -> (ok: bool)
        ensures
            ok == self@.wf(),
    {
        if self.count < 0 || self.count > self.capacity {
            return false;
        }
        match &self.code {
            None => self.capacity == 0,
            Some(block) => {
                if self.capacity == 0 || block.len() != self.capacity as usize {
                    return false;
                }
                let filler: u8 = u8::default();
                let mut i: usize = self.count as usize;
                while i < block.len()
                    invariant
                        0 <= self.count <= i <= block@.len() == self.capacity,
                        self.code == Some(*block),
                        is_default(filler),
                        filler == 0,
                        forall|j: int| self.count <= j < i ==> is_default(#[trigger] block@[j]),
                    decreases block@.len() - i,
                {
                    if block[i] != filler {
                        assert(!is_default(block@[i as int]));
                        return false;
                    }
                    i = i + 1;
                }
                true
            },
        }
    }
}

impl DynamicArray<u8> for CodeArray {
    closed spec fn view(&self) -> Buffer<u8> {
        Buffer { count: self.count as int, capacity: self.capacity as int, storage: slots(self.code) }
    }

    fn get_count(&self) -> (count: i32) {
        self.count
    }

    fn set_count(&mut self, count: i32) {
        self.count = count;
    }

    fn get_capacity(&self) -> (capacity: i32) {
        self.capacity
    }

    fn set_capacity(&mut self, capacity: i32) {
        self.capacity = capacity;
    }

    fn get_storage(&self) -> (storage: Option<Vec<u8>>) {
        let storage = self.code.clone();
        proof {
            if self.code is Some {
                assert(storage->0@ =~= self.code->0@);
            }
        }
        storage
    }

    fn set_storage(&mut self, code: Option<Vec<u8>>) {
        self.code = code;
    }

    fn take_storage(&mut self) -> (storage: Option<Vec<u8>>) {
        self.code.take()
    }
}

/// The constant pool: a growable buffer of numeric literals, each held as
/// the 64 bits of its double-precision encoding.
pub struct ValueArray {
    count: i32,
    capacity: i32,
    values: Option<Vec<u64>>,
}

impl ValueArray {
    /// An empty constant pool.
    pub fn new() -> (array: ValueArray)
        ensures
            array@.is_empty(),
            array@.wf(),
            array@.state() == BufferState::<u64>::empty(),
    {
        ValueArray { count: 0, capacity: 0, values: None }
    }

    /// Tests the buffer invariant, which the setters can break.
    pub fn is_wf(&self) -> (ok: bool)
        ensures
            ok == self@.wf(),
    {
        if self.count < 0 || self.count > self.capacity {
            return false;
        }
        match &self.values {
            None => self.capacity == 0,
            Some(block) => {
                if self.capacity == 0 || block.len() != self.capacity as usize {
                    return false;
                }
                let filler: u64 = u64::default();
                let mut i: usize = self.count as usize;
                while i < block.len()
                    invariant
                        0 <= self.count <= i <= block@.len() == self.capacity,
                        self.values == Some(*block),
                        is_default(filler),
                        filler == 0,
                        forall|j: int| self.count <= j < i ==> is_default(#[trigger] block@[j]),
                    decreases block@.len() - i,
                {
                    if block[i] != filler {
                        assert(!is_default(block@[i as int]));
                        return false;
                    }
                    i = i + 1;
                }
                true
            },
        }
    }
}

impl DynamicArray<u64> for ValueArray {
    closed spec fn view(&self) -> Buffer<u64> {
        Buffer {
            count: self.count as int,
            capacity: self.capacity as int,
            storage: slots(self.values),
        }
    }

    fn get_count(&self) -> (count: i32) {
        self.count
    }

    fn set_count(&mut self, count: i32) {
        self.count = count;
    }

    fn get_capacity(&self) -> (capacity: i32) {
        self.capacity
    }

    fn set_capacity(&mut self, capacity: i32) {
        self.capacity = capacity;
    }

    fn get_storage(&self) -> (storage: Option<Vec<u64>>) {
        let storage = self.values.clone();
        proof {
            if self.values is Some {
                assert(storage->0@ =~= self.values->0@);
            }
        }
        storage
    }

    fn set_storage(&mut self, values: Option<Vec<u64>>) {
        self.values = values;
    }

    fn take_storage(&mut self) -> (storage: Option<Vec<u64>>) {
        self.values.take()
    }
}

/// A unit of compiled code: one instruction stream and the constant pool
/// that its load-constant instructions point into.
pub struct Chunk {
    pub code_chunk: CodeArray,
    pub constants: ValueArray,
}

impl Chunk {
    /// Both buffers satisfy the buffer invariant.
    pub open spec fn wf(&self) -> bool {
        self.code_chunk@.wf() && self.constants@.wf()
    }

    /// Both buffers are in the empty state.
    pub open spec fn is_empty(&self) -> bool {
        self.code_chunk@.is_empty() && self.constants@.is_empty()
    }

    /// The bytes of the instruction stream, in emission order.
    pub open spec fn code(&self) -> Seq<u8> {
        self.code_chunk@.items()
    }

    /// The constants of the pool, by index.
    pub open spec fn pool(&self) -> Seq<u64> {
        self.constants@.items()
    }

    /// An empty chunk.
    pub fn new() -> (chunk: Chunk)
        ensures
            chunk.is_empty(),
            chunk.wf(),
    {
        Chunk { code_chunk: CodeArray::new(), constants: ValueArray::new() }
    }

    /// Puts both buffers into the empty state.
    pub fn init_chunk(&mut self)
        ensures
            final(self).is_empty(),
            final(self).wf(),
    {
        self.code_chunk.init_darray();
        self.constants.init_darray();
    }

    /// Releases both buffers; the chunk can be used again as a new one.
    pub fn free_chunk(&mut self)
        ensures
            final(self).is_empty(),
            final(self).wf(),
    {
        self.code_chunk.free_darray();
        self.constants.free_darray();
        self.init_chunk();
    }

    /// Appends one byte, opcode or operand, to the instruction stream.
    pub fn write_chunk(&mut self, byte: u8)
        requires
            old(self).code_chunk@.wf(),
            old(self).code_chunk@.can_append(),
        ensures
            final(self).code_chunk@.wf(),
            final(self).code_chunk@.state() == old(self).code_chunk@.state().append(byte),
            final(self).code() == old(self).code().push(byte),
            final(self).constants == old(self).constants,
    {
        self.code_chunk.write_darray(byte);
    }

    /// Interns `value` in the constant pool and returns its index, which is
    /// the number of constants that the pool held before.
    pub fn add_constant(&mut self, value: u64) -> (index: i32)
        requires
            old(self).constants@.wf(),
            old(self).constants@.can_append(),
        ensures
            index == old(self).constants@.count,
            final(self).constants@.wf(),
            final(self).constants@.state() == old(self).constants@.state().append(value),
            final(self).pool() == old(self).pool().push(value),
            final(self).pool()[index as int] == value,
            final(self).code_chunk == old(self).code_chunk,
    {
        self.constants.write_darray(value);
        self.constants.get_count() - 1
    }
}

} // verus!
