//! The mathematical model of a growable buffer, and what holds of it.

use vstd::prelude::*;
use crate::memory::{grown_capacity, is_default};

verus! {

/// A growable buffer as its three fields: the count of items in use, the
/// capacity, and the slots of the storage block, if there is one.
pub struct Buffer<T> {
    pub count: int,
    pub capacity: int,
    pub storage: Option<Seq<T>>,
}

/// What a growable buffer amounts to once its storage is set aside: the
/// capacity and the items in use, oldest first. The slots behind the items
/// in use carry no meaning and are not part of it.
pub struct BufferState<T> {
    pub capacity: int,
    pub items: Seq<T>,
}

impl<T: Default> Buffer<T> {
    /// The invariant of a buffer: the count is within the capacity, which
    /// fits the 32 bits that hold it; a storage block exists exactly while
    /// the capacity is positive and has one slot per unit of capacity; and
    /// the slots behind the items in use hold default values.
    pub open spec fn wf(self) -> bool {
        &&& 0 <= self.count <= self.capacity <= i32::MAX
        &&& self.storage is Some <==> self.capacity > 0
        &&& self.storage matches Some(block) ==> {
            &&& block.len() == self.capacity
            &&& forall|i: int| self.count <= i < block.len() ==> is_default(#[trigger] block[i])
        }
    }

    /// Whether the buffer is in the empty state: no items, no capacity, no
    /// storage block.
    pub open spec fn is_empty(self) -> bool {
        self.count == 0 && self.capacity == 0 && self.storage is None
    }

    /// The items in use, in the order in which they were appended: the
    /// first `count` slots of the storage block.
    pub open spec fn items(self) -> Seq<T> {
        match self.storage {
            Some(block) => block.take(self.count),
            None => Seq::empty(),
        }
    }

    /// The capacity and the items in use.
    pub open spec fn state(self) -> BufferState<T> {
        BufferState { capacity: self.capacity, items: self.items() }
    }

    /// Whether an append can go ahead: there is a free slot, or the grown
    /// capacity is still a number that the buffer can hold.
    pub open spec fn can_append(self) -> bool {
        self.count < self.capacity || grown_capacity(self.capacity) <= i32::MAX
    }
}

impl<T> BufferState<T> {
    /// The state of a buffer that holds nothing and has no room.
    pub open spec fn empty() -> Self {
        BufferState { capacity: 0, items: Seq::empty() }
    }

    /// The number of items in use.
    pub open spec fn count(self) -> int {
        self.items.len() as int
    }

    /// The items in use never exceed the capacity.
    pub open spec fn valid(self) -> bool {
        self.count() <= self.capacity
    }

    /// Whether an append has to grow the buffer first.
    pub open spec fn is_full(self) -> bool {
        self.capacity < self.count() + 1
    }

    /// The state after appending `value`: a full buffer grows first, the
    /// value goes behind the items in use, and those stay where they are.
    pub open spec fn append(self, value: T) -> Self {
        BufferState {
            capacity: if self.is_full() {
                grown_capacity(self.capacity)
            } else {
                self.capacity
            },
            items: self.items.push(value),
        }
    }

    /// The state after appending each of `values` in turn.
    pub open spec fn append_all(self, values: Seq<T>) -> Self
        decreases values.len(),
    {
        if values.len() == 0 {
            self
        } else {
            self.append_all(values.drop_last()).append(values.last())
        }
    }

    /// The state after releasing the buffer.
    pub open spec fn release(self) -> Self {
        Self::empty()
    }
}

/// A well-formed buffer holds as many items as its count says, within its
/// capacity, and an empty buffer is well formed and holds none.
pub proof fn lemma_wf_state_is_valid<T: Default>(buffer: Buffer<T>)
    requires
        buffer.wf(),
    ensures
        buffer.state().valid(),
        buffer.state().count() == buffer.count,
        buffer.is_empty() ==> buffer.state() == BufferState::<T>::empty(),
{
    if buffer.is_empty() {
        assert(buffer.items() =~= Seq::<T>::empty());
    }
}

/// Appending `values` one after another keeps the items that were there, in
/// place, and puts each new value at the position at which it was appended:
/// the count grows by the number of appends, and reading any index gives
/// back exactly what was written there.
pub proof fn lemma_appends_read_back<T>(start: BufferState<T>, values: Seq<T>)
    ensures
        start.append_all(values).items == start.items + values,
        start.append_all(values).count() == start.count() + values.len(),
        forall|i: int|
            0 <= i < start.count() ==> start.append_all(values).items[i] == start.items[i],
        forall|i: int|
            0 <= i < values.len() ==> start.append_all(values).items[start.count() + i]
                == values[i],
    decreases values.len(),
{
    if values.len() > 0 {
        lemma_appends_read_back(start, values.drop_last());
        assert(values =~= values.drop_last().push(values.last()));
    }
    assert(start.append_all(values).items =~= start.items + values);
}

/// A buffer filled from empty holds exactly the appended values, in order.
pub proof fn lemma_appends_from_empty<T>(values: Seq<T>)
    ensures
        BufferState::<T>::empty().append_all(values).count() == values.len(),
        BufferState::<T>::empty().append_all(values).items == values,
{
    lemma_appends_read_back(BufferState::<T>::empty(), values);
    assert(Seq::<T>::empty() + values =~= values);
}

/// An append leaves the capacity as it was or raises it to twice the old
/// capacity, and to eight at least; the count stays within the capacity.
///
/// A full buffer of five, six or seven slots grows to eight, which is less
/// than twice its capacity, so such a buffer is left out.
pub proof fn lemma_append_capacity<T>(state: BufferState<T>, value: T)
    requires
        state.valid(),
        !(state.is_full() && 4 < state.capacity < 8),
    ensures
        state.append(value).valid(),
        state.append(value).capacity == state.capacity || state.append(value).capacity == (if 8
            >= 2 * state.capacity {
            8
        } else {
            2 * state.capacity
        }),
        !state.is_full() ==> state.append(value).capacity == state.capacity,
{
}

/// The count stays within the capacity over any run of appends, and the
/// capacity never shrinks.
pub proof fn lemma_appends_stay_valid<T>(start: BufferState<T>, values: Seq<T>)
    requires
        start.valid(),
    ensures
        start.append_all(values).valid(),
        start.append_all(values).capacity >= start.capacity,
    decreases values.len(),
{
    if values.len() > 0 {
        lemma_appends_stay_valid(start, values.drop_last());
    }
}

/// Releasing a buffer gives the state of a new one, whatever it held; a
/// second release changes nothing, and appends after a release go as they
/// do on a new buffer.
pub proof fn lemma_release_is_fresh<T>(state: BufferState<T>, values: Seq<T>)
    ensures
        state.release() == BufferState::<T>::empty(),
        state.release().valid(),
        state.release().release() == state.release(),
        state.release().append_all(values) == BufferState::<T>::empty().append_all(values),
{
}

} // verus!
