//! Goldilocks canonicity and the packing of a balance leaf's leading fields.
//!
//! A slot carries opaque field elements as raw `u64` limbs, so a limb may lie
//! outside the field. Everything that is hashed has to be canonical first: a
//! limb that a prover reduces modulo `p` behind the validator's back would make
//! its commitments disagree with the ones the clients computed.
//!
//! The two leading fields of a balance leaf share their bits between a 32-bit
//! balance limb and one 31-bit half of the 62-bit provider allowance:
//!
//! ```text
//! field[0] = allow_a * 2^32 + balance_lo      allow_a = allowance mod 2^31
//! field[1] = allow_b * 2^32 + balance_hi      allow_b = allowance / 2^31
//! ```
//!
//! Each packed field stays below `2^63 < p`. With no allowance the two fields
//! are the bare balance limbs.
use vstd::prelude::*;

verus! {

/// The Goldilocks modulus `p = 2^64 - 2^32 + 1`. A `u64` in `[p, 2^64)` is not
/// a canonical representative of any field element.
pub const GOLDILOCKS_P: u64 = 0xFFFF_FFFF_0000_0001;

/// Bit width of the provider allowance that a balance leaf stores.
pub const PROVIDER_ALLOWANCE_BITS: u32 = 62;

/// Bit width of each allowance half packed above a 32-bit balance limb.
pub const ALLOWANCE_HALF_BITS: u32 = 31;

/// Largest storable provider allowance, `2^62 - 1`.
pub const PROVIDER_ALLOWANCE_MAX: u64 = 0x3FFF_FFFF_FFFF_FFFF;

const ALLOWANCE_HALF_MASK: u64 = 0x7FFF_FFFF;

const LIMB_MASK: u64 = 0xFFFF_FFFF;

/// Every element of `s` is a canonical field representative.
pub open spec fn canonical(s: Seq<u64>) -> bool {
    forall|i: int| 0 <= i < s.len() ==> #[trigger] s[i] < GOLDILOCKS_P
}

/// Every element of `s` is zero: the marker of an unset hash.
pub open spec fn zeros(s: Seq<u64>) -> bool {
    forall|i: int| 0 <= i < s.len() ==> #[trigger] s[i] == 0
}

/// Low 32-bit limb of `v`.
pub open spec fn limb_lo(v: u64) -> u64 {
    (v % 0x1_0000_0000) as u64
}

/// High 32-bit limb of `v`.
pub open spec fn limb_hi(v: u64) -> u64 {
    (v / 0x1_0000_0000) as u64
}

/// The two leading leaf fields of an account with this balance and allowance.
pub open spec fn packed_fields(balance: u64, allowance: u64) -> [u64; 2] {
    [
        ((allowance % 0x8000_0000) * 0x1_0000_0000 + limb_lo(balance)) as u64,
        ((allowance / 0x8000_0000) * 0x1_0000_0000 + limb_hi(balance)) as u64,
    ]
}

/// The balance held in two packed leaf fields.
pub open spec fn unpacked_balance(fields: [u64; 2]) -> u64 {
    (limb_lo(fields[0]) + limb_lo(fields[1]) * 0x1_0000_0000) as u64
}

/// The provider allowance held in two packed leaf fields.
pub open spec fn unpacked_allowance(fields: [u64; 2]) -> u64 {
    (limb_hi(fields[0]) + limb_hi(fields[1]) * 0x8000_0000) as u64
}

/// True iff `v` is a canonical Goldilocks representative.
#[inline]
pub fn is_canonical(v: u64) -> (r: bool)
    ensures
        r == (v < GOLDILOCKS_P),
{
    v < GOLDILOCKS_P
}

/// True iff every element of `vals` is canonical.
pub fn all_canonical(vals: &[u64]) -> (r: bool)
    ensures
        r == canonical(vals@),
{
    let mut i: usize = 0;
    while i < vals.len()
        invariant
            i <= vals@.len(),
            forall|j: int| 0 <= j < i ==> #[trigger] vals@[j] < GOLDILOCKS_P,
        decreases vals@.len() - i,
    {
        if !is_canonical(vals[i]) {
            assert(!(vals@[i as int] < GOLDILOCKS_P));
            return false;
        }
        i += 1;
    }
    true
}

/// True iff every element of `vals` is zero. Detects an unregistered public
/// key, an unset address or an uninitialized seed.
pub fn all_zero(vals: &[u64]) -> (r: bool)
    ensures
        r == zeros(vals@),
{
    let mut i: usize = 0;
    while i < vals.len()
        invariant
            i <= vals@.len(),
            forall|j: int| 0 <= j < i ==> #[trigger] vals@[j] == 0,
        decreases vals@.len() - i,
    {
        if vals[i] != 0 {
            assert(vals@[i as int] != 0);
            return false;
        }
        i += 1;
    }
    true
}

/// True iff two field tuples agree element by element.
pub fn same_limbs<const N: usize>(a: &[u64; N], b: &[u64; N]) -> (r: bool)
    ensures
        r == (*a == *b),
{
    let mut i: usize = 0;
    while i < N
        invariant
            i <= N,
            forall|j: int| 0 <= j < i ==> #[trigger] a@[j] == b@[j],
        decreases N - i,
    {
        if a[i] != b[i] {
            assert(a@[i as int] != b@[i as int]);
            return false;
        }
        i += 1;
    }
    assert(*a =~= *b);
    true
}

/// Split a `u64` into its `(lo, hi)` 32-bit limbs. Both limbs are below `2^32`
/// by construction, which is all that the limb range check asks for.
#[inline]
pub fn split_u64(v: u64) -> (r: (u64, u64))
    ensures
        r.0 == limb_lo(v),
        r.1 == limb_hi(v),
        r.0 < 0x1_0000_0000,
        r.1 < 0x1_0000_0000,
        r.0 + r.1 * 0x1_0000_0000 == v,
{
    assert(v & 0xFFFF_FFFF == v % 0x1_0000_0000) by (bit_vector);
    assert(v >> 32 == v / 0x1_0000_0000) by (bit_vector);
    (v & LIMB_MASK, v >> 32)
}

/// Pack `balance` and the 62-bit provider `allowance` into the two leading
/// balance-leaf fields. An allowance of `2^62` or more has no representation.
pub fn pack_balance_fields(balance: u64, allowance: u64) -> (r: [u64; 2])
    requires
        allowance <= PROVIDER_ALLOWANCE_MAX,
    ensures
        r == packed_fields(balance, allowance),
        r[0] < 0x8000_0000_0000_0000,
        r[1] < 0x8000_0000_0000_0000,
        canonical(r@),
{
    let (bal_lo, bal_hi) = split_u64(balance);
    let allow_a: u64 = allowance & ALLOWANCE_HALF_MASK;
    let allow_b: u64 = allowance >> ALLOWANCE_HALF_BITS;
    assert(allowance & 0x7FFF_FFFF == allowance % 0x8000_0000) by (bit_vector);
    assert(allowance >> 31 == allowance / 0x8000_0000) by (bit_vector);
    proof {
        lemma_join_halves(allow_a, bal_lo);
        lemma_join_halves(allow_b, bal_hi);
    }
    let fields = [(allow_a << 32) | bal_lo, (allow_b << 32) | bal_hi];
    assert(fields =~= packed_fields(balance, allowance));
    fields
}

/// Read `(balance, allowance)` back from two packed leaf fields. Each field has
/// to be below `2^63`.
pub fn unpack_balance_fields(fields: [u64; 2]) -> (r: (u64, u64))
    requires
        fields[0] < 0x8000_0000_0000_0000,
        fields[1] < 0x8000_0000_0000_0000,
    ensures
        r.0 == unpacked_balance(fields),
        r.1 == unpacked_allowance(fields),
        r.1 <= PROVIDER_ALLOWANCE_MAX,
{
    let f0: u64 = fields[0];
    let f1: u64 = fields[1];
    let balance: u64 = (f0 & LIMB_MASK) | ((f1 & LIMB_MASK) << 32);
    let allowance: u64 = ((f1 >> 32) << ALLOWANCE_HALF_BITS) | (f0 >> 32);
    assert((f0 & 0xFFFF_FFFF) | ((f1 & 0xFFFF_FFFF) << 32) == f0 % 0x1_0000_0000 + (f1
        % 0x1_0000_0000) * 0x1_0000_0000) by (bit_vector);
    assert(((f1 >> 32) << 31) | (f0 >> 32) == f0 / 0x1_0000_0000 + (f1 / 0x1_0000_0000)
        * 0x8000_0000) by (bit_vector)
        requires
            f0 < 0x8000_0000_0000_0000u64,
            f1 < 0x8000_0000_0000_0000u64,
    ;
    (balance, allowance)
}

/// Placing a 31-bit half above a 32-bit limb is an addition.
proof fn lemma_join_halves(half: u64, limb: u64)
    requires
        half < 0x8000_0000,
        limb < 0x1_0000_0000,
    ensures
        (half << 32) | limb == half * 0x1_0000_0000 + limb,
{
    assert((half << 32) | limb == half * 0x1_0000_0000 + limb) by (bit_vector)
        requires
            half < 0x8000_0000,
            limb < 0x1_0000_0000,
    ;
}

} // verus!
