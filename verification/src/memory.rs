//! Growth policy and reallocation of buffer storage.

use vstd::prelude::*;

verus! {

/// The capacity a buffer of capacity `capacity` grows to: eight slots at
/// least, and twice the old capacity from there on.
pub open spec fn grown_capacity(capacity: int) -> int {
    if capacity < 8 {
        8
    } else {
        capacity * 2
    }
}

/// Whether `value` is one that `T::default()` may return.
pub open spec fn is_default<T: Default>(value: T) -> bool {
    call_ensures(T::default, (), value)
}

/// The slots of a storage block, or `None` where there is no block.
pub open spec fn slots<T>(pointer: Option<Vec<T>>) -> Option<Seq<T>> {
    match pointer {
        Some(block) => Some(block@),
        None => None,
    }
}

/// How many leading slots of `old` a reallocation from `old_size` slots
/// carries over: none where there was no block.
pub open spec fn carried_over<T>(old: Option<Seq<T>>, old_size: int) -> int {
    match old {
        Some(_) => old_size,
        None => 0,
    }
}

/// Whether `new` is what reallocating `old` from `old_size` to `new_size`
/// slots yields. A request for zero slots yields no block. Any other
/// request yields a block of exactly `new_size` slots that starts with the
/// first `old_size` slots of the old block, in order, and holds default
/// values behind them.
pub open spec fn is_reallocation<T: Default>(
    old: Option<Seq<T>>,
    old_size: int,
    new_size: int,
    new: Option<Seq<T>>,
) -> bool {
    if new_size == 0 {
        new is None
    } else {
        &&& new is Some
        &&& new->0.len() == new_size
        &&& forall|i: int|
            0 <= i < carried_over(old, old_size) ==> #[trigger] new->0[i] == old->0[i]
        &&& forall|i: int|
            carried_over(old, old_size) <= i < new_size ==> is_default(#[trigger] new->0[i])
    }
}

/// Computes the next capacity of a buffer that has run out of room.
pub fn grow_capacity(capacity: i32) -> (new_capacity: i32)
    requires
        capacity * 2 <= i32::MAX,
    ensures
        new_capacity == grown_capacity(capacity as int),
{
    if capacity < 8 {
        return 8;
    }
    capacity * 2
}

/// Grows a storage block from `old_count` to `new_count` slots. A request
/// for at least one slot always yields a block.
pub fn grow_array<T: Default + Clone>(pointer: Option<Vec<T>>, old_count: i32, new_count: i32) -> (result:
    Option<Vec<T>>)
    requires
        0 <= new_count,
        new_count > 0 && pointer is Some ==> 0 <= old_count <= new_count && old_count
            <= pointer->0@.len(),
    ensures
        is_reallocation(slots(pointer), old_count as int, new_count as int, slots(result)),
        new_count > 0 ==> result is Some,
{
    reallocate(pointer, old_count, new_count)
}

/// Gives a storage block of `old_count` slots back: nothing is left of it.
pub fn free_array<T: Default + Clone>(pointer: Option<Vec<T>>, old_count: i32) -> (result: Option<
    Vec<T>,
>)
    ensures
        result is None,
{
    reallocate(pointer, old_count, 0)
}

/// Resizes a storage block from `old_size` to `new_size` slots.
///
/// A new size of zero releases the block. Otherwise the result has exactly
/// `new_size` slots: the first `old_size` slots of the old block, unchanged
/// and in place, followed by default values. Without an old block every
/// slot holds a default value.
pub fn reallocate<T: Default + Clone>(pointer: Option<Vec<T>>, old_size: i32, new_size: i32) -> (result:
    Option<Vec<T>>)
    requires
        0 <= new_size,
        new_size > 0 && pointer is Some ==> 0 <= old_size <= new_size && old_size
            <= pointer->0@.len(),
    ensures
        is_reallocation(slots(pointer), old_size as int, new_size as int, slots(result)),
{
    if new_size == 0 {
        return None;
    }
    let ghost old = slots(pointer);
    let ghost kept = carried_over(old, old_size as int);
    let mut block: Vec<T> = match pointer {
        None => Vec::with_capacity(new_size as usize),
        Some(previous) => {
            let mut previous = previous;
            previous.truncate(old_size as usize);
            previous.reserve((new_size - old_size) as usize);
            previous
        },
    };
    while block.len() < new_size as usize
        invariant
            0 <= kept <= block@.len() <= new_size,
            kept == carried_over(old, old_size as int),
            forall|i: int| 0 <= i < kept ==> #[trigger] block@[i] == old->0[i],
            forall|i: int| kept <= i < block@.len() ==> is_default(#[trigger] block@[i]),
        decreases new_size - block@.len(),
    {
        block.push(T::default());
    }
    Some(block)
}

} // verus!
