//! Byte layout of the fields of a Lean constructor object.
//!
//! The data area of a constructor (from `lean_ctor_obj_cptr`) holds, in this
//! order: the object fields, one pointer-sized slot each; the `USize` fields,
//! one pointer-sized slot each; then the fixed-size scalars by descending
//! size (8-byte, 4-byte, 2-byte, 1-byte), each size tier in declaration order.

use vstd::prelude::*;

verus! {

broadcast use vstd::layout::layout_of_primitives;

/// The kinds of constructor fields, in the order their regions follow one
/// another in the data area.
pub enum FieldKind {
    Obj,
    USize,
    U64,
    U32,
    U16,
    U8,
}

/// The field counts of one constructor variant.
#[derive(Clone, Copy)]
pub struct SingleCtorLayout {
    /// Object fields (`lean_object*`).
    pub num_obj: usize,
    /// `USize` fields.
    pub num_usize: usize,
    /// 8-byte scalars (`UInt64`, `Float`).
    pub num_64: usize,
    /// 4-byte scalars (`UInt32`, `Float32`, `Char`).
    pub num_32: usize,
    /// 2-byte scalars (`UInt16`).
    pub num_16: usize,
    /// 1-byte scalars (`UInt8`, `Bool`).
    pub num_8: usize,
}

/// The width of a pointer-sized slot in bytes.
pub open spec fn word_bytes() -> int {
    vstd::layout::size_of::<usize>() as int
}

impl SingleCtorLayout {
    /// How many fields of a kind the variant has.
    pub open spec fn count(&self, k: FieldKind) -> int {
        match k {
            FieldKind::Obj => self.num_obj as int,
            FieldKind::USize => self.num_usize as int,
            FieldKind::U64 => self.num_64 as int,
            FieldKind::U32 => self.num_32 as int,
            FieldKind::U16 => self.num_16 as int,
            FieldKind::U8 => self.num_8 as int,
        }
    }

    /// The width in bytes of a field of a kind.
    pub open spec fn width(k: FieldKind) -> int {
        match k {
            FieldKind::Obj => word_bytes(),
            FieldKind::USize => word_bytes(),
            FieldKind::U64 => 8,
            FieldKind::U32 => 4,
            FieldKind::U16 => 2,
            FieldKind::U8 => 1,
        }
    }

    /// Where the region of a kind starts, in bytes from the data area.
    pub open spec fn region_start(&self, k: FieldKind) -> int {
        match k {
            FieldKind::Obj => 0,
            FieldKind::USize => self.num_obj * word_bytes(),
            FieldKind::U64 => (self.num_obj + self.num_usize) * word_bytes(),
            FieldKind::U32 => (self.num_obj + self.num_usize) * word_bytes() + 8 * self.num_64,
            FieldKind::U16 => (self.num_obj + self.num_usize) * word_bytes() + 8 * self.num_64 + 4
                * self.num_32,
            FieldKind::U8 => (self.num_obj + self.num_usize) * word_bytes() + 8 * self.num_64 + 4
                * self.num_32 + 2 * self.num_16,
        }
    }

    /// The byte offset of field `i` of a kind, from the data area.
    pub open spec fn field_offset(&self, k: FieldKind, i: int) -> int {
        self.region_start(k) + i * Self::width(k)
    }

    /// Bytes after the object fields: `USize` slots and all scalars, the
    /// `scalar_sz` that `lean_alloc_ctor` takes.
    pub open spec fn spec_scalar_size(&self) -> int {
        self.num_usize * word_bytes() + 8 * self.num_64 + 4 * self.num_32 + 2 * self.num_16
            + self.num_8
    }

    /// The whole data area: object slots and `scalar_size`.
    pub open spec fn data_size(&self) -> int {
        self.num_obj * word_bytes() + self.spec_scalar_size()
    }

    /// Where the region of a kind ends.
    pub open spec fn region_end(&self, k: FieldKind) -> int {
        self.region_start(k) + self.count(k) * Self::width(k)
    }

    /// Every count and offset of the layout fits in a `usize`.
    pub open spec fn fits(&self) -> bool {
        self.data_size() <= usize::MAX
    }

    /// A layout with no fields.
    pub fn zero() -> (r: Self)
        ensures
            r.num_obj == 0 && r.num_usize == 0 && r.num_64 == 0 && r.num_32 == 0 && r.num_16 == 0
                && r.num_8 == 0,
    {
        SingleCtorLayout { num_obj: 0, num_usize: 0, num_64: 0, num_32: 0, num_16: 0, num_8: 0 }
    }

    /// The size of the data area, or `None` when it does not fit in a `usize`
    /// (and so neither do the offsets).
    pub fn checked_data_size(&self) -> (r: Option<usize>)
        ensures
            r is Some <==> self.fits(),
            r matches Some(v) ==> v == self.data_size(),
    {
        proof {
            lemma_word_bytes();
            lemma_layout_arith(*self);
        }
        let w = core::mem::size_of::<usize>();
        let slots = match self.num_obj.checked_add(self.num_usize) {
            Some(v) => v,
            None => return None,
        };
        let slot_bytes = match slots.checked_mul(w) {
            Some(v) => v,
            None => return None,
        };
        let b64 = match self.num_64.checked_mul(8) {
            Some(v) => v,
            None => return None,
        };
        let b32 = match self.num_32.checked_mul(4) {
            Some(v) => v,
            None => return None,
        };
        let b16 = match self.num_16.checked_mul(2) {
            Some(v) => v,
            None => return None,
        };
        let t1 = match slot_bytes.checked_add(b64) {
            Some(v) => v,
            None => return None,
        };
        let t2 = match t1.checked_add(b32) {
            Some(v) => v,
            None => return None,
        };
        let t3 = match t2.checked_add(b16) {
            Some(v) => v,
            None => return None,
        };
        t3.checked_add(self.num_8)
    }

    /// The `scalar_sz` to allocate the variant with: its `USize` slots and all
    /// its fixed-size scalars.
    pub fn scalar_size(&self) -> (r: usize)
        requires
            self.fits(),
        ensures
            r == self.spec_scalar_size(),
    {
        proof {
            lemma_word_bytes();
            lemma_layout_arith(*self);
        }
        let w = core::mem::size_of::<usize>();
        self.num_usize * w + self.num_64 * 8 + self.num_32 * 4 + self.num_16 * 2 + self.num_8
    }

    /// Byte offset, from the data area, of the first fixed-size scalar.
    pub fn scalar_base(&self) -> (r: usize)
        requires
            self.fits(),
        ensures
            r == self.region_start(FieldKind::U64),
    {
        proof {
            lemma_word_bytes();
            lemma_layout_arith(*self);
        }
        (self.num_obj + self.num_usize) * core::mem::size_of::<usize>()
    }

    /// Byte offset of the `i`-th 8-byte scalar.
    pub fn offset_64(&self, i: usize) -> (r: usize)
        requires
            self.fits(),
            self.field_offset(FieldKind::U64, i as int) <= usize::MAX,
        ensures
            r == self.field_offset(FieldKind::U64, i as int),
    {
        proof {
            lemma_layout_arith(*self);
        }
        self.scalar_base() + i * 8
    }

    /// Byte offset of the `i`-th 4-byte scalar.
    pub fn offset_32(&self, i: usize) -> (r: usize)
        requires
            self.fits(),
            self.field_offset(FieldKind::U32, i as int) <= usize::MAX,
        ensures
            r == self.field_offset(FieldKind::U32, i as int),
    {
        proof {
            lemma_layout_arith(*self);
        }
        self.scalar_base() + self.num_64 * 8 + i * 4
    }

    /// Byte offset of the `i`-th 2-byte scalar.
    pub fn offset_16(&self, i: usize) -> (r: usize)
        requires
            self.fits(),
            self.field_offset(FieldKind::U16, i as int) <= usize::MAX,
        ensures
            r == self.field_offset(FieldKind::U16, i as int),
    {
        proof {
            lemma_layout_arith(*self);
        }
        self.scalar_base() + self.num_64 * 8 + self.num_32 * 4 + i * 2
    }

    /// Byte offset of the `i`-th 1-byte scalar.
    pub fn offset_8(&self, i: usize) -> (r: usize)
        requires
            self.fits(),
            self.field_offset(FieldKind::U8, i as int) <= usize::MAX,
        ensures
            r == self.field_offset(FieldKind::U8, i as int),
    {
        proof {
            lemma_layout_arith(*self);
        }
        self.scalar_base() + self.num_64 * 8 + self.num_32 * 4 + self.num_16 * 2 + i
    }

    /// Byte offset of field `i` of a kind, or `None` when that offset does not
    /// fit in a `usize`.
    pub fn checked_offset(&self, k: FieldKind, i: usize) -> (r: Option<usize>)
        ensures
            r is Some <==> self.field_offset(k, i as int) <= usize::MAX,
            r matches Some(v) ==> v == self.field_offset(k, i as int),
    {
        proof {
            lemma_word_bytes();
        }
        let w: u128 = core::mem::size_of::<usize>() as u128;
        let big: u128 = 0x1_0000_0000_0000_0000;
        proof {
            assert(self.num_obj < big && self.num_usize < big && self.num_64 < big
                && self.num_32 < big && self.num_16 < big && i < big);
            assert(forall|x: u128| x < big ==> #[trigger] (x * w) <= big * 8) by (nonlinear_arith)
                requires
                    w <= 8,
                    big == 0x1_0000_0000_0000_0000u128,
            ;
        }
        let obj_bytes: u128 = self.num_obj as u128 * w;
        let usize_bytes: u128 = self.num_usize as u128 * w;
        let b64: u128 = 8 * self.num_64 as u128;
        let b32: u128 = 4 * self.num_32 as u128;
        let b16: u128 = 2 * self.num_16 as u128;
        let (start, width): (u128, u128) = match k {
            FieldKind::Obj => (0, w),
            FieldKind::USize => (obj_bytes, w),
            FieldKind::U64 => (obj_bytes + usize_bytes, 8),
            FieldKind::U32 => (obj_bytes + usize_bytes + b64, 4),
            FieldKind::U16 => (obj_bytes + usize_bytes + b64 + b32, 2),
            FieldKind::U8 => (obj_bytes + usize_bytes + b64 + b32 + b16, 1),
        };
        proof {
            assert(i as u128 * width <= big * 8) by (nonlinear_arith)
                requires
                    i < big,
                    width <= 8,
            ;
            lemma_layout_arith(*self);
            assert(obj_bytes == self.num_obj * word_bytes());
            assert(usize_bytes == self.num_usize * word_bytes());
            assert(start == self.region_start(k));
            assert(width == Self::width(k));
        }
        let off: u128 = start + i as u128 * width;
        if off <= usize::MAX as u128 {
            Some(off as usize)
        } else {
            None
        }
    }

    /// The pointer-slot index of the `i`-th `USize` field (what
    /// `lean_ctor_get_usize` takes): the slots of the object fields come first.
    pub fn usize_slot(&self, i: usize) -> (r: usize)
        requires
            self.num_obj + i <= usize::MAX,
        ensures
            r == self.num_obj + i,
            r * word_bytes() == self.field_offset(FieldKind::USize, i as int),
    {
        proof {
            lemma_word_bytes();
            lemma_layout_arith(*self);
            let w = word_bytes();
            assert((self.num_obj + i) * w == self.num_obj * w + i * w) by (nonlinear_arith);
        }
        self.num_obj + i
    }
}

/// The position of a kind's region among the regions of the data area.
pub open spec fn kind_rank(k: FieldKind) -> int {
    match k {
        FieldKind::Obj => 0,
        FieldKind::USize => 1,
        FieldKind::U64 => 2,
        FieldKind::U32 => 3,
        FieldKind::U16 => 4,
        FieldKind::U8 => 5,
    }
}

/// The regions follow one another without gaps and end with the data area.
proof fn lemma_regions_ordered(l: SingleCtorLayout, a: FieldKind, b: FieldKind)
    requires
        kind_rank(a) < kind_rank(b),
    ensures
        0 <= l.region_start(a) <= l.region_end(a) <= l.region_start(b) <= l.region_end(b)
            <= l.data_size(),
{
    lemma_word_bytes();
    lemma_layout_arith(l);
    let w = word_bytes();
    assert(l.num_obj * w >= 0 && l.num_usize * w >= 0) by (nonlinear_arith)
        requires
            w >= 0,
    ;
}

/// A field lies inside the region of its kind.
proof fn lemma_field_in_region(l: SingleCtorLayout, k: FieldKind, i: int)
    requires
        0 <= i < l.count(k),
    ensures
        l.region_start(k) <= l.field_offset(k, i),
        l.field_offset(k, i) + SingleCtorLayout::width(k) <= l.region_end(k),
{
    lemma_word_bytes();
    let w = SingleCtorLayout::width(k);
    let c = l.count(k);
    assert(0 <= i * w && i * w + w <= c * w) by (nonlinear_arith)
        requires
            0 <= i < c,
            w >= 1,
    ;
}

/// Where each field lies, in bytes from the data area: object fields and
/// `USize` fields take one pointer-sized slot each, objects first; then come
/// the 8-byte scalars, the 4-byte ones, the 2-byte ones and the single bytes,
/// each field as wide as its type.
pub proof fn lemma_field_offsets(l: SingleCtorLayout, i: int)
    ensures
        l.field_offset(FieldKind::Obj, i) == i * word_bytes(),
        l.field_offset(FieldKind::USize, i) == (l.num_obj + i) * word_bytes(),
        l.field_offset(FieldKind::U64, i) == (l.num_obj + l.num_usize) * word_bytes() + 8 * i,
        l.field_offset(FieldKind::U32, i) == (l.num_obj + l.num_usize) * word_bytes() + 8
            * l.num_64 + 4 * i,
        l.field_offset(FieldKind::U16, i) == (l.num_obj + l.num_usize) * word_bytes() + 8
            * l.num_64 + 4 * l.num_32 + 2 * i,
        l.field_offset(FieldKind::U8, i) == (l.num_obj + l.num_usize) * word_bytes() + 8
            * l.num_64 + 4 * l.num_32 + 2 * l.num_16 + i,
        l.field_offset(FieldKind::U64, i + 1) == l.field_offset(FieldKind::U64, i) + 8,
        l.field_offset(FieldKind::U32, i + 1) == l.field_offset(FieldKind::U32, i) + 4,
        l.field_offset(FieldKind::U16, i + 1) == l.field_offset(FieldKind::U16, i) + 2,
        l.field_offset(FieldKind::U8, i + 1) == l.field_offset(FieldKind::U8, i) + 1,
        SingleCtorLayout::width(FieldKind::Obj) == word_bytes(),
        SingleCtorLayout::width(FieldKind::USize) == word_bytes(),
        SingleCtorLayout::width(FieldKind::U64) == 8,
        SingleCtorLayout::width(FieldKind::U32) == 4,
        SingleCtorLayout::width(FieldKind::U16) == 2,
        SingleCtorLayout::width(FieldKind::U8) == 1,
{
    lemma_word_bytes();
    let w = word_bytes();
    assert((l.num_obj + i) * w == l.num_obj * w + i * w) by (nonlinear_arith);
    assert((l.num_obj + l.num_usize) * w == l.num_obj * w + l.num_usize * w) by (nonlinear_arith);
}

/// Every field of a constructor variant has bytes of its own: its bytes lie
/// in the data area, and no two fields share a byte.
pub proof fn lemma_fields_disjoint(
    l: SingleCtorLayout,
    k1: FieldKind,
    i1: int,
    k2: FieldKind,
    i2: int,
)
    requires
        0 <= i1 < l.count(k1),
        0 <= i2 < l.count(k2),
        !(k1 == k2 && i1 == i2),
    ensures
        0 <= l.field_offset(k1, i1),
        l.field_offset(k1, i1) + SingleCtorLayout::width(k1) <= l.data_size(),
        l.field_offset(k1, i1) + SingleCtorLayout::width(k1) <= l.field_offset(k2, i2)
            || l.field_offset(k2, i2) + SingleCtorLayout::width(k2) <= l.field_offset(k1, i1),
{
    lemma_word_bytes();
    lemma_field_in_region(l, k1, i1);
    lemma_field_in_region(l, k2, i2);
    if kind_rank(k1) < 5 {
        lemma_regions_ordered(l, k1, FieldKind::U8);
    } else {
        lemma_regions_ordered(l, FieldKind::Obj, k1);
        lemma_layout_arith(l);
        assert(l.region_end(FieldKind::U8) == l.data_size());
    }
    if kind_rank(k1) < kind_rank(k2) {
        lemma_regions_ordered(l, k1, k2);
    } else if kind_rank(k2) < kind_rank(k1) {
        lemma_regions_ordered(l, k2, k1);
    } else {
        assert(k1 == k2);
        let w = SingleCtorLayout::width(k1);
        assert(i1 * w + w <= i2 * w || i2 * w + w <= i1 * w) by (nonlinear_arith)
            requires
                i1 != i2,
                w >= 1,
        ;
    }
}

/// The data area is the slots of the object and `USize` fields followed by the
/// scalars, and a slot holds at least one byte.
proof fn lemma_layout_arith(l: SingleCtorLayout)
    ensures
        l.data_size() == (l.num_obj + l.num_usize) * word_bytes() + 8 * l.num_64 + 4 * l.num_32
            + 2 * l.num_16 + l.num_8,
        l.num_obj + l.num_usize <= (l.num_obj + l.num_usize) * word_bytes(),
        l.num_obj * word_bytes() + l.num_usize * word_bytes() == (l.num_obj + l.num_usize)
            * word_bytes(),
{
    lemma_word_bytes();
    let w = word_bytes();
    assert(l.num_obj * w + l.num_usize * w == (l.num_obj + l.num_usize) * w) by (nonlinear_arith);
    assert(l.num_obj + l.num_usize <= (l.num_obj + l.num_usize) * w) by (nonlinear_arith)
        requires
            w >= 1,
    ;
}

/// A pointer-sized slot is four or eight bytes wide.
pub proof fn lemma_word_bytes()
    ensures
        word_bytes() == 4 || word_bytes() == 8,
        word_bytes() * 8 == usize::BITS,
{
    assert(usize::BITS == 32 || usize::BITS == 64);
}

} // verus!
