//! The CPU-bound analysis routine: counting set and clear bits over a
//! payload, byte by byte, in two passes.

use vstd::prelude::*;
use vstd::string::StringSliceAdditionalSpecFns;

verus! {

/// Number of set bits in one byte.
pub open spec fn ones_of_byte(b: u8) -> int {
    ((b >> 0u8) & 1u8) + ((b >> 1u8) & 1u8) + ((b >> 2u8) & 1u8) + ((b >> 3u8) & 1u8)
        + ((b >> 4u8) & 1u8) + ((b >> 5u8) & 1u8) + ((b >> 6u8) & 1u8) + ((b >> 7u8) & 1u8)
}

/// Number of clear bits in one byte: the eight positions not set.
pub open spec fn zeros_of_byte(b: u8) -> int {
    8 - ones_of_byte(b)
}

/// Total number of set bits over a byte sequence.
pub open spec fn ones_sum(s: Seq<u8>) -> int
    decreases s.len(),
{
    if s.len() == 0 {
        0
    } else {
        ones_sum(s.drop_last()) + ones_of_byte(s.last())
    }
}

/// Total number of clear bits over a byte sequence.
pub open spec fn zeros_sum(s: Seq<u8>) -> int
    decreases s.len(),
{
    if s.len() == 0 {
        0
    } else {
        zeros_sum(s.drop_last()) + zeros_of_byte(s.last())
    }
}

proof fn lemma_ones_of_byte_bounds(b: u8)
    ensures
        0 <= ones_of_byte(b) <= 8,
{
    assert(((b >> 0u8) & 1u8) <= 1 && ((b >> 1u8) & 1u8) <= 1 && ((b >> 2u8) & 1u8) <= 1
        && ((b >> 3u8) & 1u8) <= 1 && ((b >> 4u8) & 1u8) <= 1 && ((b >> 5u8) & 1u8) <= 1
        && ((b >> 6u8) & 1u8) <= 1 && ((b >> 7u8) & 1u8) <= 1) by (bit_vector);
}

/// Both per-payload counters lie between 0 and eight bits per byte.
pub proof fn lemma_sum_bounds(s: Seq<u8>)
    ensures
        0 <= ones_sum(s) <= 8 * s.len(),
        0 <= zeros_sum(s) <= 8 * s.len(),
    decreases s.len(),
{
    if s.len() > 0 {
        lemma_sum_bounds(s.drop_last());
        lemma_ones_of_byte_bounds(s.last());
    }
}

proof fn lemma_sum_step(s: Seq<u8>, i: int)
    requires
        0 <= i < s.len(),
    ensures
        ones_sum(s.take(i + 1)) == ones_sum(s.take(i)) + ones_of_byte(s[i]),
        zeros_sum(s.take(i + 1)) == zeros_sum(s.take(i)) + zeros_of_byte(s[i]),
{
    assert(s.take(i + 1).drop_last() =~= s.take(i));
    assert(s.take(i + 1).last() == s[i]);
}

/// Count of the set bits of one byte.
fn byte_ones(b: u8) -> (r: u8)
    ensures
        r as int == ones_of_byte(b),
{
    proof {
        assert(((b >> 0u8) & 1u8) <= 1 && ((b >> 1u8) & 1u8) <= 1 && ((b >> 2u8) & 1u8) <= 1
            && ((b >> 3u8) & 1u8) <= 1 && ((b >> 4u8) & 1u8) <= 1 && ((b >> 5u8) & 1u8) <= 1
            && ((b >> 6u8) & 1u8) <= 1 && ((b >> 7u8) & 1u8) <= 1) by (bit_vector);
    }
    ((b >> 0u8) & 1u8) + ((b >> 1u8) & 1u8) + ((b >> 2u8) & 1u8) + ((b >> 3u8) & 1u8)
        + ((b >> 4u8) & 1u8) + ((b >> 5u8) & 1u8) + ((b >> 6u8) & 1u8) + ((b >> 7u8) & 1u8)
}

/// Analyze a payload given as raw bytes: count the set bits in one pass
/// and the clear bits in a second, deliberately separate pass.
pub fn analyze_bytes(bytes: &[u8]) -> (r: (u64, u64))
    requires
        8 * bytes@.len() <= u64::MAX,
    ensures
        r.0 as int == ones_sum(bytes@),
        r.1 as int == zeros_sum(bytes@),
{
    let n = bytes.len();
    let mut ones: u64 = 0;
    let mut i: usize = 0;
    while i < n
        invariant
            n == bytes@.len(),
            0 <= i <= n,
            8 * bytes@.len() <= u64::MAX,
            ones as int == ones_sum(bytes@.take(i as int)),
        decreases n - i,
    {
        proof {
            lemma_sum_step(bytes@, i as int);
            lemma_sum_bounds(bytes@.take(i as int));
            lemma_ones_of_byte_bounds(bytes@[i as int]);
        }
        ones = ones + byte_ones(bytes[i]) as u64;
        i = i + 1;
    }
    assert(bytes@.take(n as int) =~= bytes@);

    let mut zeros: u64 = 0;
    i = 0;
    while i < n
        invariant
            n == bytes@.len(),
            0 <= i <= n,
            8 * bytes@.len() <= u64::MAX,
            zeros as int == zeros_sum(bytes@.take(i as int)),
        decreases n - i,
    {
        proof {
            lemma_sum_step(bytes@, i as int);
            lemma_sum_bounds(bytes@.take(i as int));
            lemma_ones_of_byte_bounds(bytes@[i as int]);
        }
        zeros = zeros + (8 - byte_ones(bytes[i])) as u64;
        i = i + 1;
    }
    (ones, zeros)
}

/// Analyze a text payload: the counters range over the bytes of its
/// UTF-8 encoding. Total on every text whose bit count fits the
/// 64-bit accumulators; `try_analyze` lifts that limit.
pub fn analyze(txt: &str) -> (r: (u64, u64))
    requires
        8 * txt.spec_bytes().len() <= u64::MAX,
    ensures
        r.0 as int == ones_sum(txt.spec_bytes()),
        r.1 as int == zeros_sum(txt.spec_bytes()),
{
    let bytes = txt.as_bytes();
    analyze_bytes(bytes)
}

/// `analyze`, guarded: returns `None` exactly when the payload is so
/// large that a 64-bit bit count could not hold it.
pub fn try_analyze(txt: &str) -> (r: Option<(u64, u64)>)
    ensures
        r is Some <==> 8 * txt.spec_bytes().len() <= u64::MAX,
        r matches Some(p) ==> p.0 as int == ones_sum(txt.spec_bytes()) && p.1 as int
            == zeros_sum(txt.spec_bytes()),
{
    let bytes = txt.as_bytes();
    if bytes.len() as u64 <= u64::MAX / 8 {
        Some(analyze(txt))
    } else {
        None
    }
}

/// An all-zero payload of any length `a` has no set bits and `8 * a`
/// clear bits; an all-ones (`0xFF`) payload of length `a` has `8 * a`
/// set bits and no clear bits.
pub proof fn lemma_uniform_payload(s: Seq<u8>)
    ensures
        (forall|i: int| 0 <= i < s.len() ==> s[i] == 0u8) ==> ones_sum(s) == 0 && zeros_sum(s)
            == 8 * s.len(),
        (forall|i: int| 0 <= i < s.len() ==> s[i] == 0xFFu8) ==> ones_sum(s) == 8 * s.len()
            && zeros_sum(s) == 0,
    decreases s.len(),
{
    assert(((0u8 >> 0u8) & 1u8) == 0 && ((0u8 >> 1u8) & 1u8) == 0 && ((0u8 >> 2u8) & 1u8) == 0
        && ((0u8 >> 3u8) & 1u8) == 0 && ((0u8 >> 4u8) & 1u8) == 0 && ((0u8 >> 5u8) & 1u8) == 0
        && ((0u8 >> 6u8) & 1u8) == 0 && ((0u8 >> 7u8) & 1u8) == 0) by (bit_vector);
    assert(((0xFFu8 >> 0u8) & 1u8) == 1 && ((0xFFu8 >> 1u8) & 1u8) == 1 && ((0xFFu8 >> 2u8) & 1u8)
        == 1 && ((0xFFu8 >> 3u8) & 1u8) == 1 && ((0xFFu8 >> 4u8) & 1u8) == 1 && ((0xFFu8 >> 5u8)
        & 1u8) == 1 && ((0xFFu8 >> 6u8) & 1u8) == 1 && ((0xFFu8 >> 7u8) & 1u8) == 1)
        by (bit_vector);
    if s.len() > 0 {
        lemma_uniform_payload(s.drop_last());
    }
}

/// The two counters partition the payload's bits: for every payload,
/// set bits plus clear bits equal eight times its length.
pub proof fn lemma_ones_zeros_partition(s: Seq<u8>)
    ensures
        ones_sum(s) + zeros_sum(s) == 8 * s.len(),
    decreases s.len(),
{
    if s.len() > 0 {
        lemma_ones_zeros_partition(s.drop_last());
    }
}

/// The analysis is a pure function of the payload's bytes: any two
/// result pairs that meet its contract on the same bytes are equal.
pub proof fn lemma_analysis_deterministic(s: Seq<u8>, p1: (u64, u64), p2: (u64, u64))
    requires
        p1.0 as int == ones_sum(s),
        p1.1 as int == zeros_sum(s),
        p2.0 as int == ones_sum(s),
        p2.1 as int == zeros_sum(s),
    ensures
        p1 == p2,
{
}

} // verus!
