use lean_ffi::object::{
    to_u32, ExternalClass, LeanBool, LeanBorrowed, LeanList, LeanListIter, LeanNat, LeanOption,
    LeanOwned, LeanRef, LeanShared,
};

#[test]
fn to_u32_keeps_small_values() {
    assert_eq!(to_u32(0), 0);
    assert_eq!(to_u32(12345), 12345);
    assert_eq!(to_u32(u32::MAX as usize), u32::MAX);
}

#[test]
fn box_usize_sets_the_tag_bit() {
    let b = LeanOwned::box_usize(5);
    assert_eq!(b.as_raw(), 11);
    assert!(b.is_scalar());
    assert_eq!(b.unbox_usize(), 5);
    let z = LeanOwned::box_usize(0);
    assert_eq!(z.as_raw(), 1);
    assert_eq!(z.unbox_usize(), 0);
}

#[test]
fn box_unbox_at_the_scalar_boundary() {
    let max_small = usize::MAX >> 1;
    let b = LeanOwned::box_usize(max_small);
    assert_eq!(b.as_raw(), usize::MAX);
    assert_eq!(b.unbox_usize(), max_small);
    // One past the boundary loses the top bit.
    let over = LeanOwned::box_usize(max_small + 1);
    assert!(over.is_scalar());
    assert_eq!(over.unbox_usize(), 0);
}

#[test]
fn heap_words_are_not_scalars() {
    let o = LeanOwned::from_raw(0x1000);
    assert!(!o.is_scalar());
    assert_eq!(o.into_raw(), 0x1000);
}

#[test]
fn enum_tags_pass_unboxed() {
    let t = LeanOwned::from_enum_tag(3);
    assert_eq!(t.as_raw(), 3);
    assert_eq!(t.as_enum_tag(), 3);
    assert_eq!(t.into_raw(), 3);
}

#[test]
fn bool_roundtrip() {
    assert!(LeanBool::from_bool(true).to_bool());
    assert!(!LeanBool::from_bool(false).to_bool());
    assert_eq!(LeanBool::from_bool(true).as_raw(), 1);
    assert_eq!(LeanBool::from_bool(false).as_raw(), 0);
    assert!(LeanBool::new(LeanOwned::from_enum_tag(2)).to_bool());
}

#[test]
fn nil_and_none_are_box_zero() {
    let nil = LeanList::nil();
    assert!(nil.is_nil());
    assert_eq!(nil.as_raw(), 1);
    let none = LeanOption::none();
    assert!(none.is_none());
    assert!(!none.is_some());
    assert_eq!(none.into_raw(), 1);
    let some = LeanOption::from_raw(0x2000);
    assert!(some.is_some());
    assert!(!some.is_none());
}

#[test]
fn borrowing_keeps_the_word() {
    let o = LeanOwned::from_raw(0x4000);
    let b = o.borrow();
    assert_eq!(b.as_raw(), 0x4000);
    assert_eq!(b.as_ctor().as_raw(), 0x4000);
    assert_eq!(b.as_array().as_raw(), 0x4000);
    assert_eq!(b.as_string().as_raw(), 0x4000);
    assert_eq!(b.as_byte_array().as_raw(), 0x4000);
    assert_eq!(b.as_list().as_raw(), 0x4000);
    let n = LeanNat::new_borrowed(b);
    assert_eq!(n.inner().as_raw(), 0x4000);
    let owned_nat = LeanNat::new(LeanOwned::box_usize(7));
    let back: LeanOwned = owned_nat.into();
    assert_eq!(back.unbox_usize(), 7);
}

#[test]
fn shared_references_mark_only_heap_objects() {
    let heap = LeanOwned::from_raw(0x8000);
    assert!(LeanShared::needs_mark(&heap, false));
    assert!(!LeanShared::needs_mark(&heap, true));
    let scalar = LeanOwned::box_usize(3);
    assert!(!LeanShared::needs_mark(&scalar, false));
    let shared = LeanShared::from_marked(heap);
    assert_eq!(shared.as_raw(), 0x8000);
    assert_eq!(shared.borrow().as_raw(), 0x8000);
    let copy = shared.clone_handle();
    assert_eq!(copy.as_raw(), 0x8000);
    assert_eq!(copy.borrow().as_raw(), 0x8000);
    assert_eq!(shared.into_owned().as_raw(), 0x8000);
}

#[test]
fn list_cursor_steps_through_cells() {
    let list = LeanList::from_raw(0x100);
    let mut it: LeanListIter<'_> = list.iter();
    assert!(!it.is_done());
    assert_eq!(it.current().as_raw(), 0x100);
    let head = LeanBorrowed::from_raw(11);
    let tail = LeanBorrowed::from_raw(1);
    let got = it.step(head, tail);
    assert_eq!(got.unbox_usize(), 5);
    assert!(it.is_done());
}

#[test]
fn external_class_keeps_its_address() {
    let c = ExternalClass::from_raw(0xdead0);
    assert_eq!(c.as_raw(), 0xdead0);
}
