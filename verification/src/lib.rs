//! Verified core of an ownership-aware bridge to the Lean runtime.
//!
//! - [`object`]: references to Lean objects as tagged words, and the typed
//!   wrappers for Lean's built-in types.
//! - [`layout`]: where each field of a constructor object lives.
//! - [`bignat`] and [`natural`]: arbitrary-precision naturals and how they
//!   cross into and out of the runtime.
//! - [`shapes`]: tags and fields of Lean's built-in inductive types.
//! - [`digits`]: little-endian bytes and limbs and the numbers they denote.

pub mod bignat;
pub mod digits;
pub mod layout;
pub mod natural;
pub mod object;
pub mod shapes;

use vstd::prelude::*;

verus! {

/// A byte sequence with every NUL byte removed.
pub open spec fn without_nul(s: Seq<u8>) -> Seq<u8> {
    s.filter(|b: u8| b != 0u8)
}

/// The bytes of a string with every NUL byte removed, ready to become a C
/// string. Lean strings may hold NUL bytes; a C string may not.
pub fn strip_nul_bytes(bytes: &[u8]) -> (r: Vec<u8>)
    ensures
        r@ == without_nul(bytes@),
{
    let mut out: Vec<u8> = Vec::new();
    let mut i: usize = 0;
    while i < bytes.len()
        invariant
            i <= bytes@.len(),
            out@ == without_nul(bytes@.take(i as int)),
        decreases bytes@.len() - i,
    {
        let b = bytes[i];
        proof {
            let next = bytes@.take(i + 1);
            assert(next.drop_last() =~= bytes@.take(i as int));
            assert(next.last() == b);
            reveal(Seq::filter);
        }
        if b != 0 {
            out.push(b);
        }
        i = i + 1;
    }
    assert(bytes@.take(i as int) =~= bytes@);
    out
}

/// Stripping goes byte by byte: nothing strips to nothing, a NUL byte appended
/// to a string adds nothing to what it strips to, and any other byte is kept,
/// at the end.
pub proof fn lemma_strip_nul_step(s: Seq<u8>, c: u8)
    ensures
        without_nul(Seq::<u8>::empty()) == Seq::<u8>::empty(),
        c == 0 ==> without_nul(s.push(c)) == without_nul(s),
        c != 0 ==> without_nul(s.push(c)) == without_nul(s).push(c),
        without_nul(s).len() <= s.len(),
{
    reveal(Seq::filter);
    assert(s.push(c).drop_last() =~= s);
    assert(Seq::<u8>::empty().filter(|b: u8| b != 0u8) =~= Seq::<u8>::empty());
    s.filter_lemma(|b: u8| b != 0u8);
}

/// What stripping leaves holds no NUL byte, and a string without NUL bytes
/// passes unchanged.
pub proof fn lemma_strip_nul(s: Seq<u8>)
    ensures
        forall|i: int| 0 <= i < without_nul(s).len() ==> #[trigger] without_nul(s)[i] != 0u8,
        (forall|i: int| 0 <= i < s.len() ==> #[trigger] s[i] != 0u8) ==> without_nul(s) == s,
    decreases s.len(),
{
    let p = |b: u8| b != 0u8;
    assert forall|i: int| 0 <= i < without_nul(s).len() implies #[trigger] without_nul(s)[i] != 0u8 by {
        s.lemma_filter_pred(p, i);
    }
    if s.len() > 0 {
        lemma_strip_nul(s.drop_last());
        reveal(Seq::filter);
        if forall|i: int| 0 <= i < s.len() ==> s[i] != 0u8 {
            assert(forall|i: int|
                0 <= i < s.drop_last().len() ==> s.drop_last()[i] == s[i]);
            assert(without_nul(s.drop_last()) == s.drop_last());
            assert(s.drop_last().push(s.last()) =~= s);
        }
    } else {
        reveal(Seq::filter);
    }
}

} // verus!
