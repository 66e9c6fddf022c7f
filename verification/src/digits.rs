//! Little-endian byte and limb sequences and the numbers they denote.

use vstd::prelude::*;

verus! {

/// `256^n`, the weight of the byte at position `n`.
pub open spec fn byte_weight(n: nat) -> nat
    decreases n,
{
    if n == 0 {
        1
    } else {
        256 * byte_weight((n - 1) as nat)
    }
}

/// `(2^64)^n`, the weight of the limb at position `n`.
pub open spec fn limb_weight(n: nat) -> nat
    decreases n,
{
    if n == 0 {
        1
    } else {
        0x1_0000_0000_0000_0000 * limb_weight((n - 1) as nat)
    }
}

/// The number denoted by bytes in little-endian order.
pub open spec fn le_bytes_value(s: Seq<u8>) -> nat
    decreases s.len(),
{
    if s.len() == 0 {
        0
    } else {
        s[0] as nat + 256 * le_bytes_value(s.drop_first())
    }
}

/// The number denoted by 64-bit limbs in little-endian order.
pub open spec fn limbs_value(s: Seq<u64>) -> nat
    decreases s.len(),
{
    if s.len() == 0 {
        0
    } else {
        s[0] as nat + 0x1_0000_0000_0000_0000 * limbs_value(s.drop_first())
    }
}

/// The eight little-endian bytes of a 64-bit limb.
pub open spec fn limb_bytes(x: u64) -> Seq<u8> {
    seq![
        x as u8,
        (x >> 8u64) as u8,
        (x >> 16u64) as u8,
        (x >> 24u64) as u8,
        (x >> 32u64) as u8,
        (x >> 40u64) as u8,
        (x >> 48u64) as u8,
        (x >> 56u64) as u8,
    ]
}

/// The bytes of all limbs, one limb after another.
pub open spec fn limbs_to_bytes(s: Seq<u64>) -> Seq<u8>
    decreases s.len(),
{
    if s.len() == 0 {
        Seq::empty()
    } else {
        limb_bytes(s[0]) + limbs_to_bytes(s.drop_first())
    }
}

/// A limb sequence without high zero limbs.
pub open spec fn limbs_normalized(s: Seq<u64>) -> bool {
    s.len() == 0 || s.last() != 0
}

/// A byte sequence as `to_bytes_le` of a big number gives it: `[0]` for zero,
/// otherwise no high zero byte.
pub open spec fn bytes_canonical(s: Seq<u8>) -> bool {
    s.len() >= 1 && (s.len() == 1 || s.last() != 0)
}

pub proof fn lemma_limb_bytes_value(x: u64)
    ensures
        le_bytes_value(limb_bytes(x)) == x,
{
    let s = limb_bytes(x);
    reveal_with_fuel(le_bytes_value, 9);
    assert(s.drop_first().drop_first().drop_first().drop_first().drop_first().drop_first()
        .drop_first().drop_first() =~= Seq::<u8>::empty());
    assert(x == (x as u8) as u64 + 256 * (((x >> 8u64) as u8) as u64 + 256 * (((x >> 16u64) as u8) as u64
        + 256 * (((x >> 24u64) as u8) as u64 + 256 * (((x >> 32u64) as u8) as u64 + 256 * (((x
        >> 40u64) as u8) as u64 + 256 * (((x >> 48u64) as u8) as u64 + 256 * ((x >> 56u64) as u8) as u64))))))) by (bit_vector);
    assert(s.drop_first()[0] == (x >> 8u64) as u8);
}

/// Appending bytes adds their value at the weight of the prefix length.
pub proof fn lemma_le_bytes_value_append(a: Seq<u8>, b: Seq<u8>)
    ensures
        le_bytes_value(a + b) == le_bytes_value(a) + byte_weight(a.len()) * le_bytes_value(b),
    decreases a.len(),
{
    if a.len() == 0 {
        assert(a + b =~= b);
    } else {
        lemma_le_bytes_value_append(a.drop_first(), b);
        assert((a + b).drop_first() =~= a.drop_first() + b);
        let w = byte_weight(a.drop_first().len());
        let vb = le_bytes_value(b);
        let va = le_bytes_value(a.drop_first());
        assert((a + b)[0] == a[0]);
        assert(byte_weight(a.len()) == 256 * w);
        assert(256 * (va + w * vb) == 256 * va + (256 * w) * vb) by (nonlinear_arith);
    }
}

/// Appending limbs adds their value at the weight of the prefix length.
pub proof fn lemma_limbs_value_append(a: Seq<u64>, b: Seq<u64>)
    ensures
        limbs_value(a + b) == limbs_value(a) + limb_weight(a.len()) * limbs_value(b),
    decreases a.len(),
{
    if a.len() == 0 {
        assert(a + b =~= b);
    } else {
        lemma_limbs_value_append(a.drop_first(), b);
        assert((a + b).drop_first() =~= a.drop_first() + b);
        let w = limb_weight(a.drop_first().len());
        let vb = limbs_value(b);
        let va = limbs_value(a.drop_first());
        assert((a + b)[0] == a[0]);
        assert(limb_weight(a.len()) == 0x1_0000_0000_0000_0000 * w);
        assert(0x1_0000_0000_0000_0000 * (va + w * vb) == 0x1_0000_0000_0000_0000 * va + (
        0x1_0000_0000_0000_0000 * w) * vb) by (nonlinear_arith);
    }
}

/// Eight bytes weigh as much as one limb.
pub proof fn lemma_byte_weight_limbs(n: nat)
    ensures
        byte_weight(8 * n) == limb_weight(n),
    decreases n,
{
    if n > 0 {
        lemma_byte_weight_limbs((n - 1) as nat);
        reveal_with_fuel(byte_weight, 9);
        let m = (8 * (n - 1)) as nat;
        assert(byte_weight(m + 8) == 0x1_0000_0000_0000_0000 * byte_weight(m)) by {
            reveal_with_fuel(byte_weight, 9);
        }
        assert((8 * n) as nat == m + 8);
    }
}

pub proof fn lemma_limbs_to_bytes_len(s: Seq<u64>)
    ensures
        limbs_to_bytes(s).len() == 8 * s.len(),
    decreases s.len(),
{
    if s.len() > 0 {
        lemma_limbs_to_bytes_len(s.drop_first());
    }
}

/// The bytes of the limbs denote the same number as the limbs.
pub proof fn lemma_limbs_to_bytes_value(s: Seq<u64>)
    ensures
        le_bytes_value(limbs_to_bytes(s)) == limbs_value(s),
    decreases s.len(),
{
    if s.len() > 0 {
        lemma_limbs_to_bytes_value(s.drop_first());
        lemma_le_bytes_value_append(limb_bytes(s[0]), limbs_to_bytes(s.drop_first()));
        lemma_limb_bytes_value(s[0]);
        lemma_byte_weight_limbs(1);
        reveal_with_fuel(limb_weight, 2);
        assert(limb_bytes(s[0]).len() == 8);
    }
}

/// Splitting the limbs splits their bytes.
pub proof fn lemma_limbs_to_bytes_append(a: Seq<u64>, b: Seq<u64>)
    ensures
        limbs_to_bytes(a + b) == limbs_to_bytes(a) + limbs_to_bytes(b),
    decreases a.len(),
{
    if a.len() == 0 {
        assert(a + b =~= b);
        assert(limbs_to_bytes(a) + limbs_to_bytes(b) =~= limbs_to_bytes(b));
    } else {
        lemma_limbs_to_bytes_append(a.drop_first(), b);
        assert((a + b).drop_first() =~= a.drop_first() + b);
        assert(limbs_to_bytes(a + b) =~= limbs_to_bytes(a) + limbs_to_bytes(b));
    }
}

/// A byte sequence denotes less than the weight of its length.
pub proof fn lemma_le_bytes_value_bound(s: Seq<u8>)
    ensures
        le_bytes_value(s) < byte_weight(s.len()),
    decreases s.len(),
{
    if s.len() > 0 {
        lemma_le_bytes_value_bound(s.drop_first());
        let v = le_bytes_value(s.drop_first());
        let w = byte_weight(s.drop_first().len());
        assert(s[0] as nat + 256 * v < 256 * w) by (nonlinear_arith)
            requires
                s[0] < 256,
                v < w,
        ;
    }
}

/// The little-endian bytes of the limbs, limb after limb.
pub fn limbs_to_le_bytes(limbs: &[u64]) -> (r: Vec<u8>)
    requires
        limbs@.len() * 8 <= usize::MAX,
    ensures
        r@ == limbs_to_bytes(limbs@),
        r@.len() == 8 * limbs@.len(),
        le_bytes_value(r@) == limbs_value(limbs@),
{
    let mut out: Vec<u8> = Vec::new();
    let n = limbs.len();
    let mut i: usize = 0;
    while i < n
        invariant
            n == limbs@.len(),
            i <= n,
            out@ == limbs_to_bytes(limbs@.take(i as int)),
        decreases n - i,
    {
        let x = limbs[i];
        out.push(#[verifier::truncate] (x as u8));
        out.push(#[verifier::truncate] ((x >> 8u64) as u8));
        out.push(#[verifier::truncate] ((x >> 16u64) as u8));
        out.push(#[verifier::truncate] ((x >> 24u64) as u8));
        out.push(#[verifier::truncate] ((x >> 32u64) as u8));
        out.push(#[verifier::truncate] ((x >> 40u64) as u8));
        out.push(#[verifier::truncate] ((x >> 48u64) as u8));
        out.push(#[verifier::truncate] ((x >> 56u64) as u8));
        proof {
            let prefix = limbs@.take(i as int);
            assert(limbs@.take(i + 1) =~= prefix + seq![x]);
            lemma_limbs_to_bytes_append(prefix, seq![x]);
            assert(seq![x].drop_first() =~= Seq::<u64>::empty());
            assert(limbs_to_bytes(Seq::<u64>::empty()) =~= Seq::<u8>::empty());
            assert(limbs_to_bytes(seq![x]) =~= limb_bytes(x));
            assert(out@ =~= limbs_to_bytes(prefix) + limb_bytes(x));
        }
        i = i + 1;
    }
    proof {
        assert(limbs@.take(n as int) =~= limbs@);
        lemma_limbs_to_bytes_len(limbs@);
        lemma_limbs_to_bytes_value(limbs@);
    }
    out
}

/// Pack little-endian bytes into 64-bit limbs, eight bytes per limb, the last
/// limb taking whatever bytes remain.
pub fn le_bytes_to_limbs(bytes: &[u8]) -> (r: Vec<u64>)
    ensures
        r@.len() == (bytes@.len() + 7) / 8,
        limbs_value(r@) == le_bytes_value(bytes@),
{
    let n = bytes.len();
    let mut limbs: Vec<u64> = Vec::new();
    let mut i: usize = 0;
    while i < n
        invariant
            n == bytes@.len(),
            i <= n,
            i == n || i == 8 * limbs@.len(),
            limbs@.len() == (i + 7) / 8,
            limbs_value(limbs@) == le_bytes_value(bytes@.subrange(0, i as int)),
        decreases n - i,
    {
        let end: usize = if n - i < 8 {
            n
        } else {
            i + 8
        };
        let mut limb: u64 = 0;
        let mut j: usize = end;
        while j > i
            invariant
                n == bytes@.len(),
                i <= j <= end <= n,
                end - i <= 8,
                limb == le_bytes_value(bytes@.subrange(j as int, end as int)),
            decreases j - i,
        {
            j = j - 1;
            proof {
                let tail = bytes@.subrange(j + 1, end as int);
                let whole = bytes@.subrange(j as int, end as int);
                assert(whole.drop_first() =~= tail);
                lemma_le_bytes_value_bound(tail);
                assert(tail.len() <= 7);
                assert(byte_weight(tail.len()) <= byte_weight(7)) by {
                    lemma_byte_weight_mono(tail.len(), 7);
                }
                assert(byte_weight(7) == 0x100_0000_0000_0000) by {
                    reveal_with_fuel(byte_weight, 8);
                }
            }
            limb = limb * 256 + bytes[j] as u64;
        }
        proof {
            let done = bytes@.subrange(0, i as int);
            let chunk = bytes@.subrange(i as int, end as int);
            assert(bytes@.subrange(0, end as int) =~= done + chunk);
            lemma_le_bytes_value_append(done, chunk);
            lemma_limbs_value_append(limbs@, seq![limb]);
            assert(seq![limb].drop_first() =~= Seq::<u64>::empty());
            assert(limbs_value(Seq::<u64>::empty()) == 0);
            assert(limbs_value(seq![limb]) == limb);
            lemma_byte_weight_limbs(limbs@.len());
            assert(done.len() == i);
            assert(i == 8 * limbs@.len());
            assert(j == i);
            assert(limb == le_bytes_value(chunk));
            assert(byte_weight(i as nat) == limb_weight(limbs@.len()));
            assert(limbs_value(limbs@ + seq![limb]) == le_bytes_value(bytes@.subrange(0, end as int)));
        }
        let ghost prev = limbs@;
        limbs.push(limb);
        assert(limbs@ =~= prev + seq![limb]);
        i = end;
    }
    proof {
        assert(bytes@.subrange(0, n as int) =~= bytes@);
    }
    limbs
}

/// A limb sequence denotes less than the weight of its length.
pub proof fn lemma_limbs_value_bound(s: Seq<u64>)
    ensures
        limbs_value(s) < limb_weight(s.len()),
    decreases s.len(),
{
    if s.len() > 0 {
        lemma_limbs_value_bound(s.drop_first());
        let v = limbs_value(s.drop_first());
        let w = limb_weight(s.drop_first().len());
        assert(s[0] as nat + 0x1_0000_0000_0000_0000 * v < 0x1_0000_0000_0000_0000 * w)
            by (nonlinear_arith)
            requires
                s[0] < 0x1_0000_0000_0000_0000,
                v < w,
        ;
    }
}

/// The last byte carries the weight of its position.
pub proof fn lemma_le_bytes_value_split_last(s: Seq<u8>)
    requires
        s.len() >= 1,
    ensures
        le_bytes_value(s) == le_bytes_value(s.drop_last()) + byte_weight((s.len() - 1) as nat)
            * s.last(),
{
    assert(s =~= s.drop_last() + seq![s.last()]);
    lemma_le_bytes_value_append(s.drop_last(), seq![s.last()]);
    assert(seq![s.last()].drop_first() =~= Seq::<u8>::empty());
    assert(le_bytes_value(Seq::<u8>::empty()) == 0);
    assert(le_bytes_value(seq![s.last()]) == s.last());
}

/// A non-zero last byte makes the number at least the weight of its position.
pub proof fn lemma_le_bytes_value_lower(s: Seq<u8>)
    requires
        s.len() >= 1,
        s.last() != 0,
    ensures
        le_bytes_value(s) >= byte_weight((s.len() - 1) as nat),
{
    lemma_le_bytes_value_split_last(s);
    let w = byte_weight((s.len() - 1) as nat);
    assert(w * s.last() >= w) by (nonlinear_arith)
        requires
            s.last() >= 1,
    ;
}

/// A normalized non-empty limb sequence denotes a positive number.
pub proof fn lemma_limbs_value_positive(s: Seq<u64>)
    requires
        s.len() >= 1,
        limbs_normalized(s),
    ensures
        limbs_value(s) > 0,
    decreases s.len(),
{
    if s.len() > 1 {
        assert(s.drop_first().last() == s.last());
        lemma_limbs_value_positive(s.drop_first());
    }
}

/// Two normalized limb sequences that denote the same number are equal.
pub proof fn lemma_limbs_unique(a: Seq<u64>, b: Seq<u64>)
    requires
        limbs_normalized(a),
        limbs_normalized(b),
        limbs_value(a) == limbs_value(b),
    ensures
        a == b,
    decreases a.len(),
{
    if a.len() == 0 {
        if b.len() > 0 {
            lemma_limbs_value_positive(b);
        }
        assert(a =~= b);
    } else if b.len() == 0 {
        lemma_limbs_value_positive(a);
    } else {
        let ra = limbs_value(a.drop_first());
        let rb = limbs_value(b.drop_first());
        let a0 = a[0] as int;
        let b0 = b[0] as int;
        assert(a0 == b0 && ra == rb) by (nonlinear_arith)
            requires
                0 <= a0 < 0x1_0000_0000_0000_0000,
                0 <= b0 < 0x1_0000_0000_0000_0000,
                ra >= 0,
                rb >= 0,
                a0 + 0x1_0000_0000_0000_0000 * ra == b0 + 0x1_0000_0000_0000_0000 * rb,
        ;
        if a.len() > 1 {
            assert(a.drop_first().last() == a.last());
        }
        if b.len() > 1 {
            assert(b.drop_first().last() == b.last());
        }
        lemma_limbs_unique(a.drop_first(), b.drop_first());
        assert(a =~= b) by {
            assert(a.len() == b.len());
            assert forall|i: int| 0 <= i < a.len() implies a[i] == b[i] by {
                if i > 0 {
                    assert(a[i] == a.drop_first()[i - 1]);
                    assert(b[i] == b.drop_first()[i - 1]);
                }
            }
        }
    }
}

/// Two limb sequences of one length that denote the same number are equal.
pub proof fn lemma_limbs_unique_same_len(a: Seq<u64>, b: Seq<u64>)
    requires
        a.len() == b.len(),
        limbs_value(a) == limbs_value(b),
    ensures
        a == b,
    decreases a.len(),
{
    if a.len() == 0 {
        assert(a =~= b);
    } else {
        let ra = limbs_value(a.drop_first());
        let rb = limbs_value(b.drop_first());
        let a0 = a[0] as int;
        let b0 = b[0] as int;
        assert(a0 == b0 && ra == rb) by (nonlinear_arith)
            requires
                0 <= a0 < 0x1_0000_0000_0000_0000,
                0 <= b0 < 0x1_0000_0000_0000_0000,
                ra >= 0,
                rb >= 0,
                a0 + 0x1_0000_0000_0000_0000 * ra == b0 + 0x1_0000_0000_0000_0000 * rb,
        ;
        lemma_limbs_unique_same_len(a.drop_first(), b.drop_first());
        assert forall|i: int| 0 <= i < a.len() implies a[i] == b[i] by {
            if i > 0 {
                assert(a[i] == a.drop_first()[i - 1]);
                assert(b[i] == b.drop_first()[i - 1]);
            }
        }
        assert(a =~= b);
    }
}

/// Packing the bytes of some limbs into limbs gives the limbs back.
pub proof fn lemma_limbs_bytes_roundtrip(limbs: Seq<u64>, bytes: Seq<u8>, back: Seq<u64>)
    requires
        bytes == limbs_to_bytes(limbs),
        back.len() == (bytes.len() + 7) / 8,
        limbs_value(back) == le_bytes_value(bytes),
    ensures
        back == limbs,
{
    lemma_limbs_to_bytes_len(limbs);
    lemma_limbs_to_bytes_value(limbs);
    assert((8 * limbs.len() + 7) / 8 == limbs.len());
    lemma_limbs_unique_same_len(back, limbs);
}

/// A normalized sequence of two limbs or more denotes at least `2^64`.
pub proof fn lemma_normalized_limbs_large(s: Seq<u64>)
    requires
        s.len() >= 2,
        limbs_normalized(s),
    ensures
        limbs_value(s) > u64::MAX,
{
    assert(s.drop_first().last() == s.last());
    lemma_limbs_value_positive(s.drop_first());
}

/// A byte sequence whose last byte is not zero denotes a positive number.
pub proof fn lemma_le_bytes_value_positive(s: Seq<u8>)
    requires
        s.len() >= 1,
        s.last() != 0,
    ensures
        le_bytes_value(s) > 0,
{
    lemma_le_bytes_value_lower(s);
    lemma_byte_weight_positive((s.len() - 1) as nat);
}

proof fn lemma_byte_weight_positive(n: nat)
    ensures
        byte_weight(n) >= 1,
    decreases n,
{
    if n > 0 {
        lemma_byte_weight_positive((n - 1) as nat);
    }
}

/// Two byte sequences without a high zero byte that denote the same number
/// are equal.
pub proof fn lemma_le_bytes_unique(a: Seq<u8>, b: Seq<u8>)
    requires
        a.len() == 0 || a.last() != 0,
        b.len() == 0 || b.last() != 0,
        le_bytes_value(a) == le_bytes_value(b),
    ensures
        a == b,
    decreases a.len(),
{
    if a.len() == 0 {
        if b.len() > 0 {
            lemma_le_bytes_value_positive(b);
        }
        assert(a =~= b);
    } else if b.len() == 0 {
        lemma_le_bytes_value_positive(a);
    } else {
        let ra = le_bytes_value(a.drop_first());
        let rb = le_bytes_value(b.drop_first());
        let a0 = a[0] as int;
        let b0 = b[0] as int;
        assert(a0 == b0 && ra == rb) by (nonlinear_arith)
            requires
                0 <= a0 < 256,
                0 <= b0 < 256,
                ra >= 0,
                rb >= 0,
                a0 + 256 * ra == b0 + 256 * rb,
        ;
        if a.len() > 1 {
            assert(a.drop_first().last() == a.last());
        }
        if b.len() > 1 {
            assert(b.drop_first().last() == b.last());
        }
        lemma_le_bytes_unique(a.drop_first(), b.drop_first());
        assert forall|i: int| 0 <= i < a.len() implies a[i] == b[i] by {
            if i > 0 {
                assert(a[i] == a.drop_first()[i - 1]);
                assert(b[i] == b.drop_first()[i - 1]);
            }
        }
        assert(a =~= b);
    }
}

/// Two canonical byte sequences that denote the same number are equal.
pub proof fn lemma_bytes_canonical_unique(a: Seq<u8>, b: Seq<u8>)
    requires
        bytes_canonical(a),
        bytes_canonical(b),
        le_bytes_value(a) == le_bytes_value(b),
    ensures
        a == b,
{
    if a.len() == 1 && a[0] == 0 || b.len() == 1 && b[0] == 0 {
        reveal_with_fuel(le_bytes_value, 2);
        assert(a.drop_first() =~= Seq::<u8>::empty() || a.len() > 1);
        assert(b.drop_first() =~= Seq::<u8>::empty() || b.len() > 1);
        if a.len() > 1 {
            lemma_le_bytes_value_positive(a);
        }
        if b.len() > 1 {
            lemma_le_bytes_value_positive(b);
        }
        if a.len() == 1 && b.len() == 1 {
            assert(a =~= b);
        }
    } else {
        lemma_le_bytes_unique(a, b);
    }
}

pub proof fn lemma_byte_weight_mono(a: nat, b: nat)
    requires
        a <= b,
    ensures
        byte_weight(a) <= byte_weight(b),
    decreases b,
{
    if a < b {
        lemma_byte_weight_mono(a, (b - 1) as nat);
    }
}

} // verus!
