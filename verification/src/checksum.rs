//! The single-byte frame checksum.
//!
//! Every frame exchanged with the sensor carries, as its last byte, a
//! checksum over its leading bytes: the bytes are summed into a 16-bit
//! accumulator (which wraps, though the frames of this protocol are far
//! too short to make it), the low and high byte of that sum are added
//! with 8-bit wraparound, and the result is subtracted from `0xFF`. The
//! same arithmetic is used when building outgoing command frames and
//! when validating incoming response frames.

use vstd::prelude::*;
use vstd::arithmetic::div_mod::lemma_add_mod_noop_right;
use vstd::arithmetic::div_mod::lemma_mod_sub_multiples_vanish;
use vstd::arithmetic::div_mod::lemma_small_mod;

verus! {

/// The sum of a byte sequence, as an unbounded integer.
pub open spec fn sum_bytes(s: Seq<u8>) -> int
    decreases s.len(),
{
    if s.len() == 0 {
        0
    } else {
        sum_bytes(s.drop_last()) + s.last()
    }
}

/// The checksum byte of a byte sequence: `0xFF` minus the wrapping 8-bit
/// sum of the low and high byte of the 16-bit byte sum.
pub open spec fn spec_checksum(s: Seq<u8>) -> u8 {
    let sum = sum_bytes(s) % 0x10000;
    (0xFF - (sum % 0x100 + sum / 0x100) % 0x100) as u8
}

proof fn lemma_sum_bytes_step(s: Seq<u8>, i: int)
    requires
        0 <= i < s.len(),
    ensures
        sum_bytes(s.take(i + 1)) == sum_bytes(s.take(i)) + s[i],
{
    assert(s.take(i + 1).drop_last() =~= s.take(i));
    assert(s.take(i + 1).last() == s[i]);
}

/// Compute the checksum byte of `byte_array`, for a byte slice of any
/// length.
pub fn gen_checksum(byte_array: &[u8]) -> (r: u8)
    ensures
        r == spec_checksum(byte_array@),
{
    let ghost s = byte_array@;
    let mut sum: u16 = 0;
    let mut i: usize = 0;
    while i < byte_array.len()
        invariant
            0 <= i <= s.len(),
            s == byte_array@,
            sum == sum_bytes(s.take(i as int)) % 0x10000,
        decreases s.len() - i,
    {
        let b = byte_array[i];
        proof {
            lemma_sum_bytes_step(s, i as int);
            let so = sum_bytes(s.take(i as int));
            lemma_add_mod_noop_right(b as int, so, 0x10000);
            if sum + b < 0x10000 {
                lemma_small_mod((sum + b) as nat, 0x10000 as nat);
            } else {
                lemma_mod_sub_multiples_vanish(sum + b, 0x10000);
                lemma_small_mod((sum + b - 0x10000) as nat, 0x10000 as nat);
            }
        }
        sum = sum.wrapping_add(b as u16);
        i = i + 1;
    }
    proof {
        assert(s.take(s.len() as int) =~= s);
    }
    let low: u8 = (sum % 0x100) as u8;
    let high: u8 = (sum / 0x100) as u8;
    0xFF - low.wrapping_add(high)
}

/// The checksum is a pure function of its input: recomputing it on the
/// same bytes always yields the same byte.
pub proof fn lemma_checksum_deterministic(a: Seq<u8>, b: Seq<u8>)
    requires
        a == b,
    ensures
        spec_checksum(a) == spec_checksum(b),
{
}

} // verus!
