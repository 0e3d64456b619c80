//! Buffers for kernel records that end in a trailing array whose length is
//! only known at allocation time.

use vstd::layout::size_of;
use vstd::prelude::*;

verus! {

/// The number of `elem`-sized slots that cover `bytes` bytes: `bytes`
/// rounded up to a whole number of slots.
pub open spec fn slots_covering(bytes: nat, elem: nat) -> nat
    recommends
        elem > 0,
{
    ((bytes + elem - 1) / (elem as int)) as nat
}

/// `n` slots of `elem` bytes each are the fewest that hold `bytes` bytes.
pub open spec fn is_least_cover(n: nat, bytes: nat, elem: nat) -> bool {
    &&& n * elem >= bytes
    &&& n > 0 ==> (n - 1) * elem < bytes
}

/// Rounding up by `slots_covering` yields the least number of slots that
/// cover the given bytes.
pub proof fn lemma_slots_covering_is_least(bytes: nat, elem: nat)
    requires
        elem > 0,
    ensures
        is_least_cover(slots_covering(bytes, elem), bytes, elem),
{
    let n = slots_covering(bytes, elem);
    let s = bytes + elem - 1;
    assert(n * elem >= bytes) by (nonlinear_arith)
        requires
            n == s / (elem as int),
            s == bytes + elem - 1,
            elem > 0,
    ;
    assert(n > 0 ==> (n - 1) * elem < bytes) by (nonlinear_arith)
        requires
            n == s / (elem as int),
            s == bytes + elem - 1,
            elem > 0,
    ;
}

/// Returns a vector of `T::default()` values whose size in bytes is the least
/// multiple of the size of `T` that is at least `size_in_bytes`.
pub fn vec_with_size_in_bytes<T: Default>(size_in_bytes: usize) -> (v: Vec<T>)
    requires
        size_of::<T>() > 0,
        size_in_bytes + size_of::<T>() - 1 <= usize::MAX,
    ensures
        v@.len() == slots_covering(size_in_bytes as nat, size_of::<T>()),
        is_least_cover(v@.len(), size_in_bytes as nat, size_of::<T>()),
        forall|i: int| 0 <= i < v@.len() ==> call_ensures(T::default, (), #[trigger] v@[i]),
{
    let elem = core::mem::size_of::<T>();
    let rounded_size = (size_in_bytes + (elem - 1)) / elem;
    proof {
        lemma_slots_covering_is_least(size_in_bytes as nat, elem as nat);
    }
    let mut v: Vec<T> = Vec::with_capacity(rounded_size);
    while v.len() < rounded_size
        invariant
            v@.len() <= rounded_size,
            forall|i: int| 0 <= i < v@.len() ==> call_ensures(T::default, (), #[trigger] v@[i]),
        decreases rounded_size - v@.len(),
    {
        let d = T::default();
        v.push(d);
    }
    v
}

/// The number of bytes of a record whose fixed header of `header` bytes is
/// followed by `count` elements of `elem` bytes each.
pub open spec fn record_bytes(header: nat, elem: nat, count: nat) -> nat {
    header + count * elem
}

/// Returns a vector of `T::default()` values large enough to hold one `T` as a
/// header followed, with no gap, by `count` elements of type `F`. Only the
/// first `T` is meant to be used as such; the memory after it holds the
/// trailing array, aligned as `T` is.
pub fn vec_with_array_field<T: Default, F>(count: usize) -> (v: Vec<T>)
    requires
        size_of::<T>() > 0,
        record_bytes(size_of::<T>(), size_of::<F>(), count as nat) + size_of::<T>() - 1
            <= usize::MAX,
    ensures
        v@.len() == slots_covering(
            record_bytes(size_of::<T>(), size_of::<F>(), count as nat),
            size_of::<T>(),
        ),
        is_least_cover(
            v@.len(),
            record_bytes(size_of::<T>(), size_of::<F>(), count as nat),
            size_of::<T>(),
        ),
        forall|i: int| 0 <= i < v@.len() ==> call_ensures(T::default, (), #[trigger] v@[i]),
{
    proof {
        assert(count * size_of::<F>() <= usize::MAX) by (nonlinear_arith)
            requires
                size_of::<T>() + count * size_of::<F>() + size_of::<T>() - 1 <= usize::MAX,
                size_of::<T>() > 0,
        ;
    }
    let element_space = count * core::mem::size_of::<F>();
    let vec_size_bytes = core::mem::size_of::<T>() + element_space;
    vec_with_size_in_bytes(vec_size_bytes)
}

/// The buffer of a record with a trailing array is the least multiple of the
/// header's size that holds the header and the `count` elements after it,
/// and it always holds at least the header.
pub proof fn lemma_array_field_buffer(header: nat, elem: nat, count: nat)
    requires
        header > 0,
    ensures
        ({
            let n = slots_covering(record_bytes(header, elem, count), header);
            &&& is_least_cover(n, record_bytes(header, elem, count), header)
            &&& n >= 1
            &&& n * header >= header + count * elem
        }),
{
    let bytes = record_bytes(header, elem, count);
    lemma_slots_covering_is_least(bytes, header);
    let n = slots_covering(bytes, header);
    assert(n >= 1) by (nonlinear_arith)
        requires
            n * header >= bytes,
            bytes >= header,
            header > 0,
    ;
}

} // verus!
