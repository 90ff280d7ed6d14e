use vstd::prelude::*;

verus! {

/// The 1-bit field of pin `j` in a register with one bit per pin.
pub open spec fn field1(r: u32, j: u32) -> u32 {
    (r >> j) & 1
}

/// The 2-bit field of pin `j` in a register with two bits per pin.
pub open spec fn field2(r: u32, j: u32) -> u32 {
    (r >> (2 * j)) & 3
}

/// The 4-bit field at slot `j` (0..8) of a register with four bits per slot.
pub open spec fn field4(r: u32, j: u32) -> u32 {
    (r >> (4 * j)) & 15
}

proof fn lemma_set1(r: u32, i: u32, v: u32, j: u32)
    by (bit_vector)
    requires
        i < 32,
        j < 32,
        v < 2,
    ensures
        (((r & !(1u32 << i)) | (v << i)) >> j) & 1 == if i == j { v } else { (r >> j) & 1 },
{
}

proof fn lemma_set2(r: u32, i: u32, v: u32, j: u32)
    by (bit_vector)
    requires
        i < 16,
        j < 16,
        v < 4,
    ensures
        (((r & !(3u32 << (2 * i))) | (v << (2 * i))) >> (2 * j)) & 3 == if i == j {
            v
        } else {
            (r >> (2 * j)) & 3
        },
{
}

proof fn lemma_set4(r: u32, i: u32, v: u32, j: u32)
    by (bit_vector)
    requires
        i < 8,
        j < 8,
        v < 16,
    ensures
        (((r & !(15u32 << (4 * i))) | (v << (4 * i))) >> (4 * j)) & 15 == if i == j {
            v
        } else {
            (r >> (4 * j)) & 15
        },
{
}

/// Writes `v` into the 1-bit field `i`, keeping every other bit.
pub fn set_field1(r: u32, i: u32, v: u32) -> (n: u32)
    requires
        i < 32,
        v < 2,
    ensures
        forall|j: u32| j < 32 ==> #[trigger] field1(n, j) == if j == i { v } else { field1(r, j) },
{
    let n = (r & !(1u32 << i)) | (v << i);
    assert forall|j: u32| j < 32 implies #[trigger] field1(n, j) == if j == i {
        v
    } else {
        field1(r, j)
    } by {
        lemma_set1(r, i, v, j);
    }
    n
}

/// Writes `v` into the 2-bit field of pin `i`, keeping every other field.
pub fn set_field2(r: u32, i: u32, v: u32) -> (n: u32)
    requires
        i < 16,
        v < 4,
    ensures
        forall|j: u32| j < 16 ==> #[trigger] field2(n, j) == if j == i { v } else { field2(r, j) },
{
    let n = (r & !(3u32 << (2 * i))) | (v << (2 * i));
    assert forall|j: u32| j < 16 implies #[trigger] field2(n, j) == if j == i {
        v
    } else {
        field2(r, j)
    } by {
        lemma_set2(r, i, v, j);
    }
    n
}

/// Writes `v` into the 4-bit field of slot `i`, keeping every other field.
pub fn set_field4(r: u32, i: u32, v: u32) -> (n: u32)
    requires
        i < 8,
        v < 16,
    ensures
        forall|j: u32| j < 8 ==> #[trigger] field4(n, j) == if j == i { v } else { field4(r, j) },
{
    let n = (r & !(15u32 << (4 * i))) | (v << (4 * i));
    assert forall|j: u32| j < 8 implies #[trigger] field4(n, j) == if j == i {
        v
    } else {
        field4(r, j)
    } by {
        lemma_set4(r, i, v, j);
    }
    n
}

} // verus!
