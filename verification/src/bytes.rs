use vstd::prelude::*;

verus! {

broadcast use vstd::array::group_array_axioms;

/// The number that two bytes stand for, low byte first.
pub open spec fn le_u16(low: u8, high: u8) -> int {
    low + 256 * high
}

/// The number that the bytes `at .. at + 8` of `data` stand for, lowest
/// byte first.
pub open spec fn le_u64(data: Seq<u8>, at: int) -> int {
    data[at] + 0x100 * data[at + 1] + 0x1_0000 * data[at + 2] + 0x100_0000 * data[at + 3]
        + 0x1_0000_0000 * data[at + 4] + 0x100_0000_0000 * data[at + 5] + 0x1_0000_0000_0000
        * data[at + 6] + 0x100_0000_0000_0000 * data[at + 7]
}

/// Reads two bytes of `data` from `at` on as a number, low byte first.
pub fn read_u16_le(data: &[u8], at: usize) -> (value: u16)
    requires
        at + 2 <= data.len(),
    ensures
        value == le_u16(data[at as int], data[at + 1]),
{
    let low: u16 = data[at] as u16;
    let high: u16 = data[at + 1] as u16;
    low + 256 * high
}

/// Reads eight bytes of `data` from `at` on as a number, lowest byte first.
pub fn read_u64_le(data: &[u8], at: usize) -> (value: u64)
    requires
        at + 8 <= data.len(),
    ensures
        value == le_u64(data@, at as int),
{
    let b0: u64 = data[at] as u64;
    let b1: u64 = data[at + 1] as u64;
    let b2: u64 = data[at + 2] as u64;
    let b3: u64 = data[at + 3] as u64;
    let b4: u64 = data[at + 4] as u64;
    let b5: u64 = data[at + 5] as u64;
    let b6: u64 = data[at + 6] as u64;
    let b7: u64 = data[at + 7] as u64;
    b0 + 0x100 * b1 + 0x1_0000 * b2 + 0x100_0000 * b3 + 0x1_0000_0000 * b4 + 0x100_0000_0000 * b5
        + 0x1_0000_0000_0000 * b6 + 0x100_0000_0000_0000 * b7
}

/// Whether the 32 bytes of `data` from `at` on are exactly `expected`.
pub fn bytes_match(data: &[u8], at: usize, expected: &[u8; 32]) -> (same: bool)
    requires
        at + 32 <= data.len(),
    ensures
        same == (data@.subrange(at as int, at + 32) == expected@),
{
    let mut i: usize = 0;
    while i < 32
        invariant
            i <= 32,
            at + 32 <= data.len(),
            forall|j: int| 0 <= j < i ==> data[at + j] == expected[j],
        decreases 32 - i,
    {
        if data[at + i] != expected[i] {
            assert(data@.subrange(at as int, at + 32)[i as int] != expected@[i as int]);
            return false;
        }
        i += 1;
    }
    assert(data@.subrange(at as int, at + 32) =~= expected@);
    true
}

} // verus!
