//! How a [`Nat`] crosses into and out of the Lean runtime.
//!
//! Lean stores a natural number up to `LEAN_MAX_SMALL_NAT` as a tagged scalar
//! and a larger one as a GMP `mpz` object on the heap. Encoding chooses the
//! representation and hands the runtime the number; decoding turns a scalar
//! word, or the limbs of an `mpz`, back into a [`Nat`].

use vstd::prelude::*;

use crate::bignat::{biguint_to_u64_digits, Nat};
use crate::digits::{
    le_bytes_to_limbs, lemma_limbs_unique, lemma_limbs_value_append, lemma_normalized_limbs_large,
    limbs_normalized, limbs_to_le_bytes, limbs_value,
};
use crate::object::{
    box_word, is_scalar_word, lemma_box_arithmetic, lemma_box_unbox, lemma_usize_max_is_all_ones, max_small_nat,
    unbox_word, LeanRef,
};

verus! {

/// What the runtime must be asked to build for a natural number.
pub enum NatEncoding {
    /// A tagged scalar `lean_box(n)`.
    Scalar(usize),
    /// A number that fits in 64 bits but not in a scalar (`lean_uint64_to_nat`).
    Word(u64),
    /// A number of several 64-bit limbs, least significant first, to be
    /// imported through GMP.
    Limbs(Vec<u64>),
}

impl NatEncoding {
    /// The number the encoding stands for.
    pub open spec fn value(&self) -> nat {
        match self {
            NatEncoding::Scalar(n) => *n as nat,
            NatEncoding::Word(x) => *x as nat,
            NatEncoding::Limbs(ls) => limbs_value(ls@),
        }
    }

    /// The encoding Lean's runtime needs for a number given as limbs, least
    /// significant first (`lean_nat_from_limbs`): high zero limbs are dropped
    /// first; then no limbs is the scalar `0`, one limb is a scalar when small
    /// and a 64-bit word otherwise, and more limbs go through GMP.
    pub fn of_limbs(limbs: &[u64]) -> (r: NatEncoding)
        ensures
            encodes(r, limbs_value(limbs@)),
            r matches NatEncoding::Limbs(ls) ==> ls@ == limbs@.take(ls@.len() as int),
    {
        let mut n: usize = limbs.len();
        while n > 0 && limbs[n - 1] == 0
            invariant
                n <= limbs@.len(),
                forall|k: int| n <= k < limbs@.len() ==> limbs@[k] == 0u64,
            decreases n,
        {
            n = n - 1;
        }
        let ghost kept = limbs@.take(n as int);
        proof {
            let rest = limbs@.skip(n as int);
            assert(limbs@ =~= kept + rest);
            lemma_zero_limbs_value(rest);
            lemma_limbs_value_append(kept, rest);
            assert(limbs_normalized(kept));
            reveal_with_fuel(limbs_value, 2);
            if n >= 2 {
                lemma_normalized_limbs_large(kept);
            }
            if n == 1 {
                assert(kept.drop_first() =~= Seq::<u64>::empty());
            }
        }
        if n == 0 {
            NatEncoding::Scalar(0)
        } else if n == 1 {
            let first = limbs[0];
            if first <= max_small_nat_u64() {
                NatEncoding::Scalar(first as usize)
            } else {
                NatEncoding::Word(first)
            }
        } else {
            NatEncoding::Limbs(copy_prefix(limbs, n))
        }
    }
}

/// All-zero limbs denote zero.
proof fn lemma_zero_limbs_value(s: Seq<u64>)
    requires
        forall|k: int| 0 <= k < s.len() ==> s[k] == 0u64,
    ensures
        limbs_value(s) == 0,
    decreases s.len(),
{
    if s.len() > 0 {
        assert forall|k: int| 0 <= k < s.drop_first().len() implies s.drop_first()[k] == 0u64 by {
            assert(s.drop_first()[k] == s[k + 1]);
        }
        lemma_zero_limbs_value(s.drop_first());
    }
}

fn copy_prefix(limbs: &[u64], n: usize) -> (r: Vec<u64>)
    requires
        n <= limbs@.len(),
    ensures
        r@ == limbs@.take(n as int),
{
    let mut out: Vec<u64> = Vec::new();
    let mut i: usize = 0;
    while i < n
        invariant
            i <= n <= limbs@.len(),
            out@ == limbs@.take(i as int),
        decreases n - i,
    {
        out.push(limbs[i]);
        i = i + 1;
        assert(out@ =~= limbs@.take(i as int));
    }
    out
}

/// `LEAN_MAX_SMALL_NAT` as a `u64`.
pub fn max_small_nat_u64() -> (r: u64)
    ensures
        r == max_small_nat(),
{
    proof {
        lemma_max_small_nat_half();
    }
    (usize::MAX / 2) as u64
}

/// Whether an encoding is the one chosen for the number `v`: the smallest
/// representation that holds it, and for limbs, no high zero limb.
pub open spec fn encodes(e: NatEncoding, v: nat) -> bool {
    &&& e.value() == v
    &&& (e is Scalar <==> v <= max_small_nat())
    &&& (e is Word <==> max_small_nat() < v <= u64::MAX)
    &&& (e matches NatEncoding::Limbs(ls) ==> ls@.len() >= 2 && limbs_normalized(ls@))
}

/// Choose the Lean representation of `n` (the decision of `LeanNat::from_nat`).
pub fn encode_nat(n: &Nat) -> (r: NatEncoding)
    ensures
        encodes(r, n@),
{
    match n.to_u64() {
        Some(val) => {
            if val <= max_small_nat_u64() {
                NatEncoding::Scalar(val as usize)
            } else {
                NatEncoding::Word(val)
            }
        },
        None => {
            let limbs = biguint_to_u64_digits(&n.0);
            proof {
                lemma_normalized_limbs_len(limbs@);
            }
            NatEncoding::Limbs(limbs)
        },
    }
}

/// Choose the Lean representation of `n` by way of its bytes: a number that
/// fits in 64 bits as `encode_nat` does, a larger one by packing its
/// little-endian bytes into limbs and letting `NatEncoding::of_limbs` decide.
pub fn encode_nat_from_bytes(n: &Nat) -> (r: NatEncoding)
    ensures
        encodes(r, n@),
{
    match n.to_u64() {
        Some(val) => {
            if val <= max_small_nat_u64() {
                NatEncoding::Scalar(val as usize)
            } else {
                NatEncoding::Word(val)
            }
        },
        None => {
            let bytes = n.to_le_bytes();
            let limbs = le_bytes_to_limbs(&bytes);
            NatEncoding::of_limbs(&limbs)
        },
    }
}

/// What decoding gives back once the runtime has built an encoding: a scalar
/// is boxed and unboxed again, a word becomes an `mpz` with that one limb,
/// limbs become an `mpz` with those limbs.
pub open spec fn decoded_value(e: NatEncoding) -> nat {
    match e {
        NatEncoding::Scalar(n) => unbox_word(box_word(n)) as nat,
        NatEncoding::Word(x) => limbs_value(seq![x]),
        NatEncoding::Limbs(ls) => limbs_value(ls@),
    }
}

/// Encoding a natural number and decoding what the runtime built from the
/// encoding gives the number back; a scalar encoding is a tagged scalar word.
pub proof fn lemma_nat_roundtrip(e: NatEncoding, v: nat)
    requires
        encodes(e, v),
    ensures
        decoded_value(e) == v,
        e matches NatEncoding::Scalar(n) ==> is_scalar_word(box_word(n)),
{
    lemma_decoded_value(e);
}

/// Decoding an encoding whose scalar is small gives the number it stands for.
pub proof fn lemma_decoded_value(e: NatEncoding)
    requires
        e matches NatEncoding::Scalar(n) ==> n <= max_small_nat(),
    ensures
        decoded_value(e) == e.value(),
        e matches NatEncoding::Scalar(n) ==> is_scalar_word(box_word(n)),
{
    match e {
        NatEncoding::Scalar(n) => {
            lemma_box_unbox(n);
        },
        NatEncoding::Word(x) => {
            reveal_with_fuel(limbs_value, 2);
            assert(seq![x].drop_first() =~= Seq::<u64>::empty());
        },
        NatEncoding::Limbs(ls) => {},
    }
}

/// There is one encoding of a number: two encodings chosen for the same
/// number agree, limb for limb.
pub proof fn lemma_encoding_unique(a: NatEncoding, b: NatEncoding, v: nat)
    requires
        encodes(a, v),
        encodes(b, v),
    ensures
        a is Scalar ==> b is Scalar && a->Scalar_0 == b->Scalar_0,
        a is Word ==> b is Word && a->Word_0 == b->Word_0,
        a is Limbs ==> b is Limbs && a->Limbs_0@ == b->Limbs_0@,
{
    if a is Limbs {
        lemma_limbs_unique(a->Limbs_0@, b->Limbs_0@);
    }
}

/// The number held by a tagged scalar (the scalar branch of `LeanNat::to_nat`).
pub fn nat_from_scalar<R: LeanRef>(obj: &R) -> (r: Nat)
    ensures
        r@ == unbox_word(obj.word()),
        r@ == obj.word() / 2,
{
    proof {
        lemma_box_arithmetic(0, obj.word());
    }
    Nat::from_u64(obj.unbox_usize() as u64)
}

/// The number held by the limbs of an `mpz` object, least significant first
/// (the heap branch of `LeanNat::to_nat`).
pub fn nat_from_limbs(limbs: &[u64]) -> (r: Nat)
    requires
        limbs@.len() * 8 <= usize::MAX,
    ensures
        r@ == limbs_value(limbs@),
{
    let bytes = limbs_to_le_bytes(limbs);
    Nat::from_le_bytes(&bytes)
}

/// How many limbs an `mpz` holds, given its signed size field: the size's
/// absolute value (its sign is the sign of the number).
pub fn mpz_limb_count(size: i32) -> (r: usize)
    ensures
        r == (if size < 0 { -size } else { size as int }),
{
    if size < 0 {
        (-(size as i64)) as usize
    } else {
        size as usize
    }
}

proof fn lemma_max_small_nat_half()
    ensures
        max_small_nat() == usize::MAX / 2,
{
    lemma_usize_max_is_all_ones();
    let m = !0usize;
    assert(m >> 1usize == m / 2) by (bit_vector);
}

/// A normalized limb sequence denoting at least `2^64` has two limbs or more.
proof fn lemma_normalized_limbs_len(s: Seq<u64>)
    requires
        limbs_normalized(s),
        limbs_value(s) > u64::MAX,
    ensures
        s.len() >= 2,
{
    reveal_with_fuel(limbs_value, 2);
    if s.len() == 1 {
        assert(s.drop_first() =~= Seq::<u64>::empty());
    }
}

} // verus!
