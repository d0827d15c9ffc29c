//! Counting the pages on the engine's free list.
//!
//! Each record of the free-list table begins with its page count, a 32-bit
//! integer in the machine's byte order.

use vstd::prelude::*;
use crate::error::Error;
use byteorder::ByteOrder;

verus! {

/// The first four bytes read as a little-endian integer.
pub open spec fn u32_le(b: Seq<u8>) -> int {
    b[0] + b[1] * 0x100 + b[2] * 0x10000 + b[3] * 0x1000000
}

/// The first four bytes read as a big-endian integer.
pub open spec fn u32_be(b: Seq<u8>) -> int {
    b[3] + b[2] * 0x100 + b[1] * 0x10000 + b[0] * 0x1000000
}

/// `c` is the first four bytes of `b` read in one of the two byte orders a
/// machine may have.
pub open spec fn is_native_count(b: Seq<u8>, c: u32) -> bool {
    c as int == u32_le(b) || c as int == u32_be(b)
}

/// Relies on byteorder's `NativeEndian::read_u32`: the first four bytes read
/// in the target's byte order, which is little- or big-endian. It panics on
/// fewer than four bytes.
#[verifier::external_body]
fn read_native_u32(buf: &[u8]) -> (r: u32)
    requires
        buf@.len() >= 4,
    ensures
        is_native_count(buf@, r),
{
    byteorder::NativeEndian::read_u32(buf)
}

/// Width of the count at the head of a free-list record.
pub const FREE_COUNT_WIDTH: usize = 4;

/// The page count a free-list record begins with; a record too short to
/// hold it is [Error::Corrupted].
pub fn free_page_count(value: &[u8]) -> (r: Result<u32, Error>)
    ensures
        value@.len() < 4 <==> r is Err,
        r is Err ==> r == Err::<u32, Error>(Error::Corrupted),
        r matches Ok(c) ==> is_native_count(value@, c),
{
    if value.len() < FREE_COUNT_WIDTH {
        Err(Error::Corrupted)
    } else {
        Ok(read_native_u32(value))
    }
}

/// The sum of a sequence of counts.
pub open spec fn sum_counts(s: Seq<u32>) -> int
    decreases s.len(),
{
    if s.len() == 0 {
        0
    } else {
        sum_counts(s.drop_last()) + s.last()
    }
}

proof fn lemma_sum_bound(s: Seq<u32>)
    ensures
        0 <= sum_counts(s) <= s.len() * 0xffff_ffff,
    decreases s.len(),
{
    if s.len() > 0 {
        lemma_sum_bound(s.drop_last());
    }
}

/// Whether some record is too short to hold its count.
pub open spec fn has_short_record(values: Seq<Vec<u8>>) -> bool {
    exists|i: int| 0 <= i < values.len() && values[i]@.len() < 4
}

/// The counts `cs` are a reading of every record of `values`.
pub open spec fn reads_counts(values: Seq<Vec<u8>>, cs: Seq<u32>) -> bool {
    &&& cs.len() == values.len()
    &&& forall|i: int| 0 <= i < values.len() ==> is_native_count(#[trigger] values[i]@, cs[i])
}

/// The total number of free pages over the records of the free-list table:
/// the sum of the count each record begins with. Any record too short to
/// hold a count makes the whole total [Error::Corrupted].
pub fn freelist_total(values: &Vec<Vec<u8>>) -> (r: Result<u64, Error>)
    requires
        values@.len() <= u32::MAX,
    ensures
        has_short_record(values@) <==> r is Err,
        r is Err ==> r == Err::<u64, Error>(Error::Corrupted),
        r matches Ok(n) ==> exists|cs: Seq<u32>|
            reads_counts(values@, cs) && n == sum_counts(cs),
{
    let mut total: u64 = 0;
    let ghost mut cs: Seq<u32> = Seq::empty();
    let mut i: usize = 0;
    while i < values.len()
        invariant
            i <= values@.len(),
            values@.len() <= u32::MAX,
            cs.len() == i,
            forall|j: int| 0 <= j < i ==> is_native_count(#[trigger] values@[j]@, cs[j]),
            forall|j: int| 0 <= j < i ==> values@[j]@.len() >= 4,
            total == sum_counts(cs),
        decreases values@.len() - i,
    {
        let c = match free_page_count(values[i].as_slice()) {
            Ok(c) => c,
            Err(e) => {
                return Err(e);
            },
        };
        proof {
            lemma_sum_bound(cs);
            assert(cs.push(c).drop_last() =~= cs);
            cs = cs.push(c);
        }
        total = total + c as u64;
        i = i + 1;
    }
    assert(reads_counts(values@, cs));
    Ok(total)
}

} // verus!
