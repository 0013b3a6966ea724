//! The conventions of the runtime's C interface: its integer booleans,
//! nul-terminated strings, and the encoding of an instance variable's
//! alignment.
use vstd::arithmetic::power2::{
    lemma2_to64,
    lemma2_to64_rest,
    lemma_pow2_strictly_increases,
    lemma_pow2_unfold,
    pow2,
};
use vstd::prelude::*;
use vstd::string::StringSliceAdditionalSpecFns;

verus! {

/// The runtime's `BOOL` value for true.
pub const YES: i8 = 1;

/// The runtime's `BOOL` value for false.
pub const NO: i8 = 0;

/// Whether the runtime's `BOOL` result `b` means true: it does exactly when
/// it is `YES`.
pub fn bool_from_native(b: i8) -> (r: bool)
    ensures
        r == (b == YES),
{
    b == YES
}

/// Whether a byte sequence holds a nul byte.
pub open spec fn contains_nul(bytes: Seq<u8>) -> bool {
    exists|i: int| 0 <= i < bytes.len() && bytes[i] == 0
}

/// The nul-terminated form of `s` that the runtime reads names and type
/// encodings in: its UTF-8 bytes and a nul. A string holding a nul byte has
/// no such form, since the runtime would read it only up to that byte.
pub fn c_string(s: &str) -> (r: Option<Vec<u8>>)
    ensures
        r is None <==> contains_nul(s.spec_bytes()),
        r matches Some(v) ==> v@ == s.spec_bytes().push(0u8),
{
    let bytes = s.as_bytes();
    let mut out: Vec<u8> = Vec::new();
    let mut i: usize = 0;
    while i < bytes.len()
        invariant
            bytes@ == s.spec_bytes(),
            i <= bytes@.len(),
            out@ == bytes@.subrange(0, i as int),
            forall|j: int| 0 <= j < i ==> bytes@[j] != 0,
        decreases bytes@.len() - i,
    {
        if bytes[i] == 0 {
            assert(bytes@[i as int] == 0);
            return None;
        }
        out.push(bytes[i]);
        i = i + 1;
        assert(out@ =~= bytes@.subrange(0, i as int));
    }
    assert(bytes@.subrange(0, i as int) =~= bytes@);
    out.push(0);
    Some(out)
}

/// The exponent under which the runtime takes an instance variable's
/// alignment: an alignment of `align` bytes is passed as its base-2
/// logarithm. Only a power of two is an alignment.
pub fn alignment_exponent(align: usize) -> (r: Option<u8>)
    ensures
        r matches Some(k) ==> pow2(k as nat) == align,
        r is None ==> forall|k: nat| pow2(k) != align,
        forall|k: nat| pow2(k) == align ==> r == Some(k as u8),
{
    let mut k: u8 = 0;
    let mut p: usize = 1;
    proof {
        lemma2_to64();
        lemma2_to64_rest();
    }
    while p < align && p <= usize::MAX / 2
        invariant
            p == pow2(k as nat),
            k < 64,
            forall|j: nat| j < k ==> #[trigger] pow2(j) < align,
            pow2(63) == 0x8000000000000000,
            pow2(64) == 0x10000000000000000,
        decreases 64 - k,
    {
        proof {
            lemma_pow2_unfold((k + 1) as nat);
            if k == 63 {
                assert(p > usize::MAX / 2);
            }
        }
        p = p * 2;
        k = k + 1;
    }
    if p == align {
        proof {
            assert forall|j: nat| pow2(j) == align implies j == k by {
                if j < k {
                    lemma_pow2_strictly_increases(j, k as nat);
                } else if j > k {
                    lemma_pow2_strictly_increases(k as nat, j);
                }
            }
        }
        Some(k)
    } else {
        proof {
            assert forall|j: nat| pow2(j) != align by {
                if j > k {
                    lemma_pow2_strictly_increases(k as nat, j);
                    if p <= usize::MAX / 2 {
                        assert(pow2(j) > align);
                    } else {
                        lemma_pow2_unfold((k + 1) as nat);
                        if j > k + 1 {
                            lemma_pow2_strictly_increases((k + 1) as nat, j);
                        }
                        assert(pow2(j) >= 2 * p);
                    }
                }
            }
        }
        None
    }
}

} // verus!
