//! Tagged-pointer words and ownership wrappers for Lean references.
//!
//! A Lean reference is a pointer-sized word. When its lowest bit is set the
//! word is a tagged scalar (`lean_box(n)`), otherwise it is the address of a
//! heap object. The types here carry that word and state, over it, what the
//! boxing, unboxing and enum-tag conventions of the Lean runtime compute.

use core::marker::PhantomData;
use vstd::prelude::*;

verus! {

/// Convert a `usize` to `u32` for the Lean C API.
pub fn to_u32(val: usize) -> (r: u32)
    requires
        val <= u32::MAX,
    ensures
        r == val,
{
    val as u32
}

/// The largest natural number that Lean stores as a tagged scalar
/// (`LEAN_MAX_SMALL_NAT = SIZE_MAX >> 1`).
pub open spec fn max_small_nat() -> usize {
    usize::MAX >> 1usize
}

/// The word `lean_box(n)`: `n` shifted left by one with the tag bit set.
pub open spec fn box_word(n: usize) -> usize {
    (n << 1usize) | 1usize
}

/// A word is a tagged scalar when its lowest bit is set.
pub open spec fn is_scalar_word(w: usize) -> bool {
    w & 1usize == 1usize
}

/// The payload of a tagged scalar word (`lean_unbox`).
pub open spec fn unbox_word(w: usize) -> usize {
    w >> 1usize
}

proof fn lemma_all_ones_is_greatest(x: usize)
    ensures
        x <= !0usize,
{
    assert(x <= !0usize) by (bit_vector);
}

pub proof fn lemma_usize_max_is_all_ones()
    ensures
        usize::MAX == !0usize,
{
    lemma_all_ones_is_greatest(usize::MAX);
}

/// Boxing is arithmetic: a natural number `n` that Lean keeps as a scalar is
/// stored as the odd word `2 * n + 1`, and unboxing any word halves it,
/// rounding down.
pub proof fn lemma_box_arithmetic(n: usize, w: usize)
    ensures
        n <= max_small_nat() ==> box_word(n) == 2 * n + 1,
        unbox_word(w) == w / 2,
        box_word(n) % 2 == 1,
{
    lemma_usize_max_is_all_ones();
    assert(n <= (!0usize) >> 1usize ==> (n << 1usize) | 1usize == 2 * n + 1) by (bit_vector);
    assert(w >> 1usize == w / 2) by (bit_vector);
    assert(((n << 1usize) | 1usize) % 2 == 1) by (bit_vector);
}

/// Boxing then unboxing a small natural number gives it back, and the boxed
/// word is always a tagged scalar.
pub proof fn lemma_box_unbox(n: usize)
    requires
        n <= max_small_nat(),
    ensures
        is_scalar_word(box_word(n)),
        unbox_word(box_word(n)) == n,
{
    lemma_usize_max_is_all_ones();
    assert(n <= (!0usize) >> 1usize ==> ((n << 1usize) | 1usize) & 1usize == 1usize
        && ((n << 1usize) | 1usize) >> 1usize == n) by (bit_vector);
}

/// A boxed word always has its tag bit set.
pub proof fn lemma_box_is_scalar(n: usize)
    ensures
        is_scalar_word(box_word(n)),
{
    assert(((n << 1usize) | 1usize) & 1usize == 1usize) by (bit_vector);
}

/// Unboxing then boxing a tagged scalar word gives the word back.
pub proof fn lemma_unbox_box(w: usize)
    requires
        is_scalar_word(w),
    ensures
        box_word(unbox_word(w)) == w,
        unbox_word(w) <= max_small_nat(),
{
    lemma_usize_max_is_all_ones();
    assert(w & 1usize == 1usize ==> ((w >> 1usize) << 1usize) | 1usize == w
        && w >> 1usize <= (!0usize) >> 1usize) by (bit_vector);
}

// =============================================================================
// LeanRef: what owned, borrowed and shared references have in common
// =============================================================================

/// A reference to a Lean object (owned, borrowed or shared), seen as the
/// pointer-sized word it holds.
pub trait LeanRef {
    /// The word: a heap address, or a tagged scalar when the low bit is set.
    spec fn word(&self) -> usize;

    /// The raw word.
    fn as_raw(&self) -> (r: usize)
        ensures
            r == self.word(),
    ;

    /// True if this is a tagged scalar (bit 0 set), not a heap pointer.
    fn is_scalar(&self) -> (r: bool)
        ensures
            r == is_scalar_word(self.word()),
    {
        self.as_raw() & 1usize == 1usize
    }

    /// Unbox a tagged scalar into a `usize`.
    fn unbox_usize(&self) -> (r: usize)
        ensures
            r == unbox_word(self.word()),
            r == self.word() / 2,
    {
        proof {
            lemma_box_arithmetic(0, self.word());
        }
        self.as_raw() >> 1usize
    }

    /// The raw tag value of a zero-field enum constructor, which Lean passes
    /// unboxed.
    fn as_enum_tag(&self) -> (r: usize)
        ensures
            r == self.word(),
    {
        self.as_raw()
    }
}

// =============================================================================
// LeanOwned
// =============================================================================

/// An owned reference to a Lean object: its holder owes the object exactly
/// one `lean_dec`.
pub struct LeanOwned(usize);

impl LeanRef for LeanOwned {
    closed spec fn word(&self) -> usize {
        self.0
    }

    fn as_raw(&self) -> (r: usize) {
        self.0
    }
}

impl LeanOwned {
    /// Borrow this owned reference; the borrow lives no longer than `self`.
    pub fn borrow(&self) -> (r: LeanBorrowed<'_>)
        ensures
            r.word() == self.word(),
    {
        LeanBorrowed::from_raw(self.0)
    }

    /// Wrap a raw word, taking over the reference it carries.
    pub fn from_raw(ptr: usize) -> (r: Self)
        ensures
            r.word() == ptr,
    {
        LeanOwned(ptr)
    }

    /// Give up the wrapper and hand its reference on as a raw word.
    pub fn into_raw(self) -> (r: usize)
        ensures
            r == self.word(),
    {
        self.0
    }

    /// Box a `usize` into a tagged scalar (`lean_box`).
    pub fn box_usize(n: usize) -> (r: Self)
        ensures
            r.word() == box_word(n),
            is_scalar_word(r.word()),
            n <= max_small_nat() ==> unbox_word(r.word()) == n,
            n <= max_small_nat() ==> r.word() == 2 * n + 1,
    {
        proof {
            lemma_box_arithmetic(n, 0);
            lemma_box_is_scalar(n);
            if n <= max_small_nat() {
                lemma_box_unbox(n);
            }
        }
        LeanOwned((n << 1usize) | 1usize)
    }

    /// The raw tag value of a zero-field enum constructor.
    pub fn from_enum_tag(tag: usize) -> (r: Self)
        ensures
            r.word() == tag,
    {
        LeanOwned(tag)
    }
}

// =============================================================================
// LeanBorrowed
// =============================================================================

/// A borrowed reference to a Lean object: no `lean_dec` is owed, and the
/// lifetime keeps it from outliving its source.
#[derive(Clone, Copy)]
pub struct LeanBorrowed<'a>(usize, PhantomData<&'a ()>);

impl<'a> LeanRef for LeanBorrowed<'a> {
    closed spec fn word(&self) -> usize {
        self.0
    }

    fn as_raw(&self) -> (r: usize) {
        self.0
    }
}

impl<'a> LeanBorrowed<'a> {
    /// Wrap a raw word as a borrowed reference.
    pub fn from_raw(ptr: usize) -> (r: Self)
        ensures
            r.word() == ptr,
    {
        LeanBorrowed(ptr, PhantomData)
    }

    /// Interpret as a constructor object.
    pub fn as_ctor(self) -> (r: LeanCtor<LeanBorrowed<'a>>)
        ensures
            r.0.word() == self.word(),
    {
        LeanCtor(self)
    }

    /// Interpret as a `String` object.
    pub fn as_string(self) -> (r: LeanString<LeanBorrowed<'a>>)
        ensures
            r.0.word() == self.word(),
    {
        LeanString(self)
    }

    /// Interpret as an `Array` object.
    pub fn as_array(self) -> (r: LeanArray<LeanBorrowed<'a>>)
        ensures
            r.0.word() == self.word(),
    {
        LeanArray(self)
    }

    /// Interpret as a `List`.
    pub fn as_list(self) -> (r: LeanList<LeanBorrowed<'a>>)
        ensures
            r.0.word() == self.word(),
    {
        LeanList(self)
    }

    /// Interpret as a `ByteArray` object.
    pub fn as_byte_array(self) -> (r: LeanByteArray<LeanBorrowed<'a>>)
        ensures
            r.0.word() == self.word(),
    {
        LeanByteArray(self)
    }
}

// =============================================================================
// Domain types
// =============================================================================

/// A Lean `Nat`: a tagged scalar when small, a heap `mpz` object otherwise.
#[derive(Clone, Copy)]
pub struct LeanNat<R: LeanRef>(pub R);

/// A Lean `Bool`: always the unboxed tag `0` (false) or `1` (true).
#[derive(Clone, Copy)]
pub struct LeanBool<R: LeanRef>(pub R);

/// A Lean `Array α` object.
#[derive(Clone, Copy)]
pub struct LeanArray<R: LeanRef>(pub R);

/// A Lean `ByteArray` object.
#[derive(Clone, Copy)]
pub struct LeanByteArray<R: LeanRef>(pub R);

/// A Lean `String` object.
#[derive(Clone, Copy)]
pub struct LeanString<R: LeanRef>(pub R);

/// A Lean constructor object.
#[derive(Clone, Copy)]
pub struct LeanCtor<R: LeanRef>(pub R);

/// A Lean `List α`: `nil` is the scalar `lean_box(0)`, `cons` a constructor
/// with tag 1 and two object fields.
#[derive(Clone, Copy)]
pub struct LeanList<R: LeanRef>(pub R);

/// A Lean `Option α`: `none` is the scalar `lean_box(0)`, `some` a
/// constructor with tag 1 and one object field.
#[derive(Clone, Copy)]
pub struct LeanOption<R: LeanRef>(pub R);

/// A Lean `Except ε α`: `error` is constructor tag 0, `ok` tag 1.
#[derive(Clone, Copy)]
pub struct LeanExcept<R: LeanRef>(pub R);

/// A Lean `BaseIO.Result α`: `ok` is constructor tag 0, `error` tag 1, both
/// with the value and the world token as fields.
#[derive(Clone, Copy)]
pub struct LeanIOResult<R: LeanRef>(pub R);

/// A Lean `Prod α β`: constructor tag 0 with two object fields.
#[derive(Clone, Copy)]
pub struct LeanProd<R: LeanRef>(pub R);

/// A Lean external object holding a `T`.
pub struct LeanExternal<T, R: LeanRef>(pub R, pub PhantomData<T>);

impl<T, R: LeanRef + Clone> Clone for LeanExternal<T, R> {
    fn clone(&self) -> (r: Self) {
        LeanExternal(self.0.clone(), PhantomData)
    }
}

impl<T, R: LeanRef + Copy> Copy for LeanExternal<T, R> {}

impl<R: LeanRef> LeanNat<R> {
    /// The inner reference.
    pub fn inner(&self) -> (r: &R)
        ensures
            r == &self.0,
    {
        &self.0
    }

    /// The raw word of a Lean `Nat`.
    pub fn as_raw(&self) -> (r: usize)
        ensures
            r == self.0.word(),
    {
        self.0.as_raw()
    }
}

impl LeanNat<LeanOwned> {
    /// Wrap a raw word that carries an owned reference to a Lean `Nat`.
    pub fn from_raw(ptr: usize) -> (r: Self)
        ensures
            r.0.word() == ptr,
    {
        LeanNat(LeanOwned::from_raw(ptr))
    }

    /// Give up the wrapper and hand its reference on as a raw word.
    pub fn into_raw(self) -> (r: usize)
        ensures
            r == self.0.word(),
    {
        self.0.into_raw()
    }
}

impl From<LeanNat<LeanOwned>> for LeanOwned {
    fn from(x: LeanNat<LeanOwned>) -> (r: LeanOwned) {
        x.0
    }
}

impl vstd::std_specs::convert::FromSpecImpl<LeanNat<LeanOwned>> for LeanOwned {
    open spec fn obeys_from_spec() -> bool {
        true
    }

    open spec fn from_spec(x: LeanNat<LeanOwned>) -> LeanOwned {
        x.0
    }
}

impl<R: LeanRef> LeanBool<R> {
    /// The inner reference.
    pub fn inner(&self) -> (r: &R)
        ensures
            r == &self.0,
    {
        &self.0
    }

    /// The raw word of a Lean `Bool`.
    pub fn as_raw(&self) -> (r: usize)
        ensures
            r == self.0.word(),
    {
        self.0.as_raw()
    }
}

impl LeanBool<LeanOwned> {
    /// Wrap a raw word that carries an owned reference to a Lean `Bool`.
    pub fn from_raw(ptr: usize) -> (r: Self)
        ensures
            r.0.word() == ptr,
    {
        LeanBool(LeanOwned::from_raw(ptr))
    }

    /// Give up the wrapper and hand its reference on as a raw word.
    pub fn into_raw(self) -> (r: usize)
        ensures
            r == self.0.word(),
    {
        self.0.into_raw()
    }
}

impl From<LeanBool<LeanOwned>> for LeanOwned {
    fn from(x: LeanBool<LeanOwned>) -> (r: LeanOwned) {
        x.0
    }
}

impl vstd::std_specs::convert::FromSpecImpl<LeanBool<LeanOwned>> for LeanOwned {
    open spec fn obeys_from_spec() -> bool {
        true
    }

    open spec fn from_spec(x: LeanBool<LeanOwned>) -> LeanOwned {
        x.0
    }
}

impl<R: LeanRef> LeanArray<R> {
    /// The inner reference.
    pub fn inner(&self) -> (r: &R)
        ensures
            r == &self.0,
    {
        &self.0
    }

    /// The raw word of a Lean `Array`.
    pub fn as_raw(&self) -> (r: usize)
        ensures
            r == self.0.word(),
    {
        self.0.as_raw()
    }
}

impl LeanArray<LeanOwned> {
    /// Wrap a raw word that carries an owned reference to a Lean `Array`.
    pub fn from_raw(ptr: usize) -> (r: Self)
        ensures
            r.0.word() == ptr,
    {
        LeanArray(LeanOwned::from_raw(ptr))
    }

    /// Give up the wrapper and hand its reference on as a raw word.
    pub fn into_raw(self) -> (r: usize)
        ensures
            r == self.0.word(),
    {
        self.0.into_raw()
    }
}

impl From<LeanArray<LeanOwned>> for LeanOwned {
    fn from(x: LeanArray<LeanOwned>) -> (r: LeanOwned) {
        x.0
    }
}

impl vstd::std_specs::convert::FromSpecImpl<LeanArray<LeanOwned>> for LeanOwned {
    open spec fn obeys_from_spec() -> bool {
        true
    }

    open spec fn from_spec(x: LeanArray<LeanOwned>) -> LeanOwned {
        x.0
    }
}

impl<R: LeanRef> LeanByteArray<R> {
    /// The inner reference.
    pub fn inner(&self) -> (r: &R)
        ensures
            r == &self.0,
    {
        &self.0
    }

    /// The raw word of a Lean `ByteArray`.
    pub fn as_raw(&self) -> (r: usize)
        ensures
            r == self.0.word(),
    {
        self.0.as_raw()
    }
}

impl LeanByteArray<LeanOwned> {
    /// Wrap a raw word that carries an owned reference to a Lean `ByteArray`.
    pub fn from_raw(ptr: usize) -> (r: Self)
        ensures
            r.0.word() == ptr,
    {
        LeanByteArray(LeanOwned::from_raw(ptr))
    }

    /// Give up the wrapper and hand its reference on as a raw word.
    pub fn into_raw(self) -> (r: usize)
        ensures
            r == self.0.word(),
    {
        self.0.into_raw()
    }
}

impl From<LeanByteArray<LeanOwned>> for LeanOwned {
    fn from(x: LeanByteArray<LeanOwned>) -> (r: LeanOwned) {
        x.0
    }
}

impl vstd::std_specs::convert::FromSpecImpl<LeanByteArray<LeanOwned>> for LeanOwned {
    open spec fn obeys_from_spec() -> bool {
        true
    }

    open spec fn from_spec(x: LeanByteArray<LeanOwned>) -> LeanOwned {
        x.0
    }
}

impl<R: LeanRef> LeanString<R> {
    /// The inner reference.
    pub fn inner(&self) -> (r: &R)
        ensures
            r == &self.0,
    {
        &self.0
    }

    /// The raw word of a Lean `String`.
    pub fn as_raw(&self) -> (r: usize)
        ensures
            r == self.0.word(),
    {
        self.0.as_raw()
    }
}

impl LeanString<LeanOwned> {
    /// Wrap a raw word that carries an owned reference to a Lean `String`.
    pub fn from_raw(ptr: usize) -> (r: Self)
        ensures
            r.0.word() == ptr,
    {
        LeanString(LeanOwned::from_raw(ptr))
    }

    /// Give up the wrapper and hand its reference on as a raw word.
    pub fn into_raw(self) -> (r: usize)
        ensures
            r == self.0.word(),
    {
        self.0.into_raw()
    }
}

impl From<LeanString<LeanOwned>> for LeanOwned {
    fn from(x: LeanString<LeanOwned>) -> (r: LeanOwned) {
        x.0
    }
}

impl vstd::std_specs::convert::FromSpecImpl<LeanString<LeanOwned>> for LeanOwned {
    open spec fn obeys_from_spec() -> bool {
        true
    }

    open spec fn from_spec(x: LeanString<LeanOwned>) -> LeanOwned {
        x.0
    }
}

impl<R: LeanRef> LeanCtor<R> {
    /// The raw word of a Lean constructor.
    pub fn as_raw(&self) -> (r: usize)
        ensures
            r == self.0.word(),
    {
        self.0.as_raw()
    }
}

impl LeanCtor<LeanOwned> {
    /// Wrap a raw word that carries an owned reference to a Lean constructor.
    pub fn from_raw(ptr: usize) -> (r: Self)
        ensures
            r.0.word() == ptr,
    {
        LeanCtor(LeanOwned::from_raw(ptr))
    }

    /// Give up the wrapper and hand its reference on as a raw word.
    pub fn into_raw(self) -> (r: usize)
        ensures
            r == self.0.word(),
    {
        self.0.into_raw()
    }
}

impl From<LeanCtor<LeanOwned>> for LeanOwned {
    fn from(x: LeanCtor<LeanOwned>) -> (r: LeanOwned) {
        x.0
    }
}

impl vstd::std_specs::convert::FromSpecImpl<LeanCtor<LeanOwned>> for LeanOwned {
    open spec fn obeys_from_spec() -> bool {
        true
    }

    open spec fn from_spec(x: LeanCtor<LeanOwned>) -> LeanOwned {
        x.0
    }
}

impl<R: LeanRef> LeanList<R> {
    /// The inner reference.
    pub fn inner(&self) -> (r: &R)
        ensures
            r == &self.0,
    {
        &self.0
    }

    /// The raw word of a Lean `List`.
    pub fn as_raw(&self) -> (r: usize)
        ensures
            r == self.0.word(),
    {
        self.0.as_raw()
    }
}

impl LeanList<LeanOwned> {
    /// Wrap a raw word that carries an owned reference to a Lean `List`.
    pub fn from_raw(ptr: usize) -> (r: Self)
        ensures
            r.0.word() == ptr,
    {
        LeanList(LeanOwned::from_raw(ptr))
    }

    /// Give up the wrapper and hand its reference on as a raw word.
    pub fn into_raw(self) -> (r: usize)
        ensures
            r == self.0.word(),
    {
        self.0.into_raw()
    }
}

impl From<LeanList<LeanOwned>> for LeanOwned {
    fn from(x: LeanList<LeanOwned>) -> (r: LeanOwned) {
        x.0
    }
}

impl vstd::std_specs::convert::FromSpecImpl<LeanList<LeanOwned>> for LeanOwned {
    open spec fn obeys_from_spec() -> bool {
        true
    }

    open spec fn from_spec(x: LeanList<LeanOwned>) -> LeanOwned {
        x.0
    }
}

impl<R: LeanRef> LeanOption<R> {
    /// The inner reference.
    pub fn inner(&self) -> (r: &R)
        ensures
            r == &self.0,
    {
        &self.0
    }

    /// The raw word of a Lean `Option`.
    pub fn as_raw(&self) -> (r: usize)
        ensures
            r == self.0.word(),
    {
        self.0.as_raw()
    }
}

impl LeanOption<LeanOwned> {
    /// Wrap a raw word that carries an owned reference to a Lean `Option`.
    pub fn from_raw(ptr: usize) -> (r: Self)
        ensures
            r.0.word() == ptr,
    {
        LeanOption(LeanOwned::from_raw(ptr))
    }

    /// Give up the wrapper and hand its reference on as a raw word.
    pub fn into_raw(self) -> (r: usize)
        ensures
            r == self.0.word(),
    {
        self.0.into_raw()
    }
}

impl From<LeanOption<LeanOwned>> for LeanOwned {
    fn from(x: LeanOption<LeanOwned>) -> (r: LeanOwned) {
        x.0
    }
}

impl vstd::std_specs::convert::FromSpecImpl<LeanOption<LeanOwned>> for LeanOwned {
    open spec fn obeys_from_spec() -> bool {
        true
    }

    open spec fn from_spec(x: LeanOption<LeanOwned>) -> LeanOwned {
        x.0
    }
}

impl<R: LeanRef> LeanExcept<R> {
    /// The inner reference.
    pub fn inner(&self) -> (r: &R)
        ensures
            r == &self.0,
    {
        &self.0
    }

    /// The raw word of a Lean `Except`.
    pub fn as_raw(&self) -> (r: usize)
        ensures
            r == self.0.word(),
    {
        self.0.as_raw()
    }
}

impl LeanExcept<LeanOwned> {
    /// Wrap a raw word that carries an owned reference to a Lean `Except`.
    pub fn from_raw(ptr: usize) -> (r: Self)
        ensures
            r.0.word() == ptr,
    {
        LeanExcept(LeanOwned::from_raw(ptr))
    }

    /// Give up the wrapper and hand its reference on as a raw word.
    pub fn into_raw(self) -> (r: usize)
        ensures
            r == self.0.word(),
    {
        self.0.into_raw()
    }
}

impl From<LeanExcept<LeanOwned>> for LeanOwned {
    fn from(x: LeanExcept<LeanOwned>) -> (r: LeanOwned) {
        x.0
    }
}

impl vstd::std_specs::convert::FromSpecImpl<LeanExcept<LeanOwned>> for LeanOwned {
    open spec fn obeys_from_spec() -> bool {
        true
    }

    open spec fn from_spec(x: LeanExcept<LeanOwned>) -> LeanOwned {
        x.0
    }
}

impl<R: LeanRef> LeanIOResult<R> {
    /// The inner reference.
    pub fn inner(&self) -> (r: &R)
        ensures
            r == &self.0,
    {
        &self.0
    }

    /// The raw word of a Lean `BaseIO.Result`.
    pub fn as_raw(&self) -> (r: usize)
        ensures
            r == self.0.word(),
    {
        self.0.as_raw()
    }
}

impl LeanIOResult<LeanOwned> {
    /// Wrap a raw word that carries an owned reference to a Lean `BaseIO.Result`.
    pub fn from_raw(ptr: usize) -> (r: Self)
        ensures
            r.0.word() == ptr,
    {
        LeanIOResult(LeanOwned::from_raw(ptr))
    }

    /// Give up the wrapper and hand its reference on as a raw word.
    pub fn into_raw(self) -> (r: usize)
        ensures
            r == self.0.word(),
    {
        self.0.into_raw()
    }
}

impl From<LeanIOResult<LeanOwned>> for LeanOwned {
    fn from(x: LeanIOResult<LeanOwned>) -> (r: LeanOwned) {
        x.0
    }
}

impl vstd::std_specs::convert::FromSpecImpl<LeanIOResult<LeanOwned>> for LeanOwned {
    open spec fn obeys_from_spec() -> bool {
        true
    }

    open spec fn from_spec(x: LeanIOResult<LeanOwned>) -> LeanOwned {
        x.0
    }
}

impl<R: LeanRef> LeanProd<R> {
    /// The inner reference.
    pub fn inner(&self) -> (r: &R)
        ensures
            r == &self.0,
    {
        &self.0
    }

    /// The raw word of a Lean `Prod`.
    pub fn as_raw(&self) -> (r: usize)
        ensures
            r == self.0.word(),
    {
        self.0.as_raw()
    }
}

impl LeanProd<LeanOwned> {
    /// Wrap a raw word that carries an owned reference to a Lean `Prod`.
    pub fn from_raw(ptr: usize) -> (r: Self)
        ensures
            r.0.word() == ptr,
    {
        LeanProd(LeanOwned::from_raw(ptr))
    }

    /// Give up the wrapper and hand its reference on as a raw word.
    pub fn into_raw(self) -> (r: usize)
        ensures
            r == self.0.word(),
    {
        self.0.into_raw()
    }
}

impl From<LeanProd<LeanOwned>> for LeanOwned {
    fn from(x: LeanProd<LeanOwned>) -> (r: LeanOwned) {
        x.0
    }
}

impl vstd::std_specs::convert::FromSpecImpl<LeanProd<LeanOwned>> for LeanOwned {
    open spec fn obeys_from_spec() -> bool {
        true
    }

    open spec fn from_spec(x: LeanProd<LeanOwned>) -> LeanOwned {
        x.0
    }
}

impl LeanNat<LeanOwned> {
    /// Wrap an owned reference as a `LeanNat`.
    pub fn new(obj: LeanOwned) -> (r: Self)
        ensures
            r.0 == obj,
    {
        LeanNat(obj)
    }
}

impl<'a> LeanNat<LeanBorrowed<'a>> {
    /// Wrap a borrowed reference as a `LeanNat`.
    pub fn new_borrowed(obj: LeanBorrowed<'a>) -> (r: Self)
        ensures
            r.0 == obj,
    {
        LeanNat(obj)
    }
}

/// The word of the Lean `Bool` for `b`: the unboxed tag `1` for true, `0`
/// for false.
pub open spec fn bool_word(b: bool) -> usize {
    if b {
        1
    } else {
        0
    }
}

/// What a Lean `Bool` word decodes to: any tag other than `0` is true.
pub open spec fn word_bool(w: usize) -> bool {
    w != 0
}

/// Encoding a `bool` as a Lean `Bool` and decoding it gives it back.
pub proof fn lemma_bool_roundtrip(b: bool)
    ensures
        word_bool(bool_word(b)) == b,
{
}

impl<R: LeanRef> LeanBool<R> {
    /// Decode to a Rust `bool`: any tag other than `0` is `true`.
    pub fn to_bool(&self) -> (r: bool)
        ensures
            r == word_bool(self.0.word()),
    {
        self.0.as_enum_tag() != 0
    }
}

impl LeanBool<LeanOwned> {
    /// Wrap an owned reference as a `LeanBool`.
    pub fn new(obj: LeanOwned) -> (r: Self)
        ensures
            r.0 == obj,
    {
        LeanBool(obj)
    }

    /// The Lean `Bool` for `b`: the unboxed tag `1` for true, `0` for false.
    pub fn from_bool(b: bool) -> (r: Self)
        ensures
            r.0.word() == bool_word(b),
    {
        LeanBool(LeanOwned::from_enum_tag(if b { 1 } else { 0 }))
    }
}

impl<R: LeanRef> LeanList<R> {
    /// True for the empty list, which is a tagged scalar.
    pub fn is_nil(&self) -> (r: bool)
        ensures
            r == is_scalar_word(self.0.word()),
    {
        self.0.is_scalar()
    }

    /// An iterator positioned at the head cell of the list.
    pub fn iter(&self) -> (r: LeanListIter<'_>)
        ensures
            r.0.word() == self.0.word(),
    {
        LeanListIter(LeanBorrowed::from_raw(self.0.as_raw()))
    }
}

impl LeanList<LeanOwned> {
    /// The empty list, `lean_box(0)`.
    pub fn nil() -> (r: Self)
        ensures
            r.0.word() == box_word(0),
            is_scalar_word(r.0.word()),
    {
        LeanList(LeanOwned::box_usize(0))
    }
}

impl<'a> LeanList<LeanBorrowed<'a>> {
    /// An iterator over the cells of the list, keeping the borrow's lifetime.
    pub fn into_iter(self) -> (r: LeanListIter<'a>)
        ensures
            r.0 == self.0,
    {
        LeanListIter(self.0)
    }
}

impl<R: LeanRef> LeanOption<R> {
    /// View this object as a constructor for field access.
    pub fn as_ctor(&self) -> (r: LeanCtor<LeanBorrowed<'_>>)
        ensures
            r.0.word() == self.0.word(),
    {
        LeanCtor(LeanBorrowed::from_raw(self.0.as_raw()))
    }

    /// True for `none`, which is a tagged scalar.
    pub fn is_none(&self) -> (r: bool)
        ensures
            r == is_scalar_word(self.0.word()),
    {
        self.0.is_scalar()
    }

    /// True for `some`, a heap constructor.
    pub fn is_some(&self) -> (r: bool)
        ensures
            r == !is_scalar_word(self.0.word()),
    {
        !self.is_none()
    }
}

impl LeanOption<LeanOwned> {
    /// `none`, `lean_box(0)`.
    pub fn none() -> (r: Self)
        ensures
            r.0.word() == box_word(0),
            is_scalar_word(r.0.word()),
    {
        LeanOption(LeanOwned::box_usize(0))
    }
}

impl<R: LeanRef> LeanExcept<R> {
    /// View this object as a constructor for field access.
    pub fn as_ctor(&self) -> (r: LeanCtor<LeanBorrowed<'_>>)
        ensures
            r.0.word() == self.0.word(),
    {
        LeanCtor(LeanBorrowed::from_raw(self.0.as_raw()))
    }
}

impl<R: LeanRef> LeanIOResult<R> {
    /// View this object as a constructor for field access.
    pub fn as_ctor(&self) -> (r: LeanCtor<LeanBorrowed<'_>>)
        ensures
            r.0.word() == self.0.word(),
    {
        LeanCtor(LeanBorrowed::from_raw(self.0.as_raw()))
    }
}

impl<T, R: LeanRef> LeanExternal<T, R> {
    /// The raw word of the external object.
    pub fn as_raw(&self) -> (r: usize)
        ensures
            r == self.0.word(),
    {
        self.0.as_raw()
    }
}

impl<T> LeanExternal<T, LeanOwned> {
    /// Wrap a raw word that carries an owned reference to an external object.
    pub fn from_raw(ptr: usize) -> (r: Self)
        ensures
            r.0.word() == ptr,
    {
        LeanExternal(LeanOwned::from_raw(ptr), PhantomData)
    }

    /// Give up the wrapper and hand its reference on as a raw word.
    pub fn into_raw(self) -> (r: usize)
        ensures
            r == self.0.word(),
    {
        self.0.into_raw()
    }
}

impl<'a, T> LeanExternal<T, LeanBorrowed<'a>> {
    /// Wrap a raw word as a borrowed reference to an external object.
    pub fn from_raw_borrowed(ptr: usize) -> (r: Self)
        ensures
            r.0.word() == ptr,
    {
        LeanExternal(LeanBorrowed::from_raw(ptr), PhantomData)
    }
}

impl<T> From<LeanExternal<T, LeanOwned>> for LeanOwned {
    fn from(x: LeanExternal<T, LeanOwned>) -> (r: LeanOwned) {
        x.0
    }
}

impl<T> vstd::std_specs::convert::FromSpecImpl<LeanExternal<T, LeanOwned>> for LeanOwned {
    open spec fn obeys_from_spec() -> bool {
        true
    }

    open spec fn from_spec(x: LeanExternal<T, LeanOwned>) -> LeanOwned {
        x.0
    }
}

// =============================================================================
// ExternalClass, LeanListIter, LeanShared
// =============================================================================

/// A registered Lean external class (the address of its
/// `lean_external_class`).
pub struct ExternalClass(usize);

impl ExternalClass {
    /// The address of the class descriptor.
    pub closed spec fn addr(&self) -> usize {
        self.0
    }

    /// Wrap the address of a registered class.
    pub fn from_raw(ptr: usize) -> (r: Self)
        ensures
            r.addr() == ptr,
    {
        ExternalClass(ptr)
    }

    /// The address of the class.
    pub fn as_raw(&self) -> (r: usize)
        ensures
            r == self.addr(),
    {
        self.0
    }
}

/// A cursor over the cells of a Lean `List`: the cell it stands at.
#[derive(Clone, Copy)]
pub struct LeanListIter<'a>(pub LeanBorrowed<'a>);

impl<'a> LeanListIter<'a> {
    /// The cell the cursor stands at.
    pub fn current(&self) -> (r: LeanBorrowed<'a>)
        ensures
            r == self.0,
    {
        self.0
    }

    /// True once the cursor has reached `nil`, a tagged scalar.
    pub fn is_done(&self) -> (r: bool)
        ensures
            r == is_scalar_word(self.0.word()),
    {
        self.0.is_scalar()
    }

    /// Move past a `cons` cell whose fields are `head` and `tail`: the cursor
    /// moves to `tail` and `head` is handed out.
    pub fn step(&mut self, head: LeanBorrowed<'a>, tail: LeanBorrowed<'a>) -> (r: LeanBorrowed<'a>)
        requires
            !is_scalar_word(old(self).0.word()),
        ensures
            r == head,
            final(self).0 == tail,
    {
        self.0 = tail;
        head
    }
}

/// A thread-safe owned reference: the object graph has been marked
/// multi-threaded (or needs no marking), so reference counting is atomic.
pub struct LeanShared(LeanOwned);

impl LeanRef for LeanShared {
    closed spec fn word(&self) -> usize {
        self.0.word()
    }

    fn as_raw(&self) -> (r: usize) {
        self.0.as_raw()
    }
}

impl LeanShared {
    /// Whether `owned` must be marked multi-threaded before it can be shared:
    /// scalars and persistent objects (`m_rc == 0`) need no marking.
    pub fn needs_mark(owned: &LeanOwned, persistent: bool) -> (r: bool)
        ensures
            r == (!is_scalar_word(owned.word()) && !persistent),
    {
        !owned.is_scalar() && !persistent
    }

    /// Wrap an owned reference whose object graph is already multi-threaded,
    /// persistent or a scalar.
    pub fn from_marked(owned: LeanOwned) -> (r: Self)
        ensures
            r.word() == owned.word(),
    {
        LeanShared(owned)
    }

    /// Borrow this object; the borrow lives no longer than `self`.
    pub fn borrow(&self) -> (r: LeanBorrowed<'_>)
        ensures
            r.word() == self.word(),
    {
        LeanBorrowed::from_raw(self.0.as_raw())
    }

    /// The raw word.
    pub fn as_raw(&self) -> (r: usize)
        ensures
            r == self.word(),
    {
        self.0.as_raw()
    }

    /// Another handle on the same object: the same word. (Whoever makes the
    /// copy raises the runtime's reference count with `lean_inc`.)
    pub fn clone_handle(&self) -> (r: LeanShared)
        ensures
            r.word() == self.word(),
    {
        LeanShared(LeanOwned(self.0.0))
    }

    /// Give up the wrapper and return the inner owned reference.
    pub fn into_owned(self) -> (r: LeanOwned)
        ensures
            r.word() == self.word(),
    {
        self.0
    }
}

} // verus!
