use lean_ffi::shapes::{
    except_is_error, except_is_ok, io_result_is_ok, EXCEPT_ERROR_TAG, EXCEPT_OK_TAG,
    IO_ERROR_USER_ERROR_TAG, IO_RESULT_ERROR_TAG, IO_RESULT_OK_TAG, LIST_CONS_TAG,
    LIST_HEAD_FIELD, LIST_TAIL_FIELD,
};
use lean_ffi::layout::{FieldKind, SingleCtorLayout};
use lean_ffi::strip_nul_bytes;

#[test]
fn strip_nul_removes_interior_nuls() {
    assert_eq!(strip_nul_bytes(b"abc"), b"abc".to_vec());
    assert_eq!(strip_nul_bytes(b"a\0b\0\0c"), b"abc".to_vec());
    assert_eq!(strip_nul_bytes(b"\0\0"), Vec::<u8>::new());
    assert_eq!(strip_nul_bytes(b""), Vec::<u8>::new());
}

fn layout(num_obj: usize, num_usize: usize, n64: usize, n32: usize, n16: usize, n8: usize) -> SingleCtorLayout {
    SingleCtorLayout { num_obj, num_usize, num_64: n64, num_32: n32, num_16: n16, num_8: n8 }
}

#[test]
fn scalar_fields_follow_object_slots_by_descending_size() {
    let w = std::mem::size_of::<usize>();
    // structure MyStruct where u8val : UInt8; obj : Nat; u32val : UInt32; u64val : UInt64
    let l = layout(1, 0, 1, 1, 0, 1);
    assert_eq!(l.scalar_size(), 13);
    assert_eq!(l.scalar_base(), w);
    assert_eq!(l.offset_64(0), w);
    assert_eq!(l.offset_32(0), w + 8);
    assert_eq!(l.offset_8(0), w + 12);
}

#[test]
fn usize_fields_sit_between_objects_and_scalars() {
    let w = std::mem::size_of::<usize>();
    // structure USizeStruct where obj : Nat; uval : USize; u8val : UInt8
    let l = layout(1, 1, 0, 0, 0, 1);
    assert_eq!(l.scalar_size(), w + 1);
    assert_eq!(l.usize_slot(0), 1);
    assert_eq!(l.offset_8(0), 2 * w);
}

#[test]
fn every_scalar_tier_in_order() {
    let w = std::mem::size_of::<usize>();
    // ExtScalarStruct: obj; u8; u16; u32; u64; Float; Float32
    let l = layout(1, 0, 2, 2, 1, 1);
    assert_eq!(l.scalar_size(), 27);
    assert_eq!(l.offset_64(0), w);
    assert_eq!(l.offset_64(1), w + 8);
    assert_eq!(l.offset_32(0), w + 16);
    assert_eq!(l.offset_32(1), w + 20);
    assert_eq!(l.offset_16(0), w + 24);
    assert_eq!(l.offset_8(0), w + 26);
}

#[test]
fn empty_layout_has_no_bytes() {
    let l = SingleCtorLayout::zero();
    assert_eq!(l.scalar_size(), 0);
    assert_eq!(l.scalar_base(), 0);
}

#[test]
fn checked_offset_agrees_with_the_tier_offsets() {
    let w = std::mem::size_of::<usize>();
    let l = layout(1, 1, 2, 2, 1, 1);
    assert_eq!(l.checked_offset(FieldKind::Obj, 0), Some(0));
    assert_eq!(l.checked_offset(FieldKind::USize, 0), Some(w));
    assert_eq!(l.checked_offset(FieldKind::U64, 1), Some(l.offset_64(1)));
    assert_eq!(l.checked_offset(FieldKind::U32, 1), Some(l.offset_32(1)));
    assert_eq!(l.checked_offset(FieldKind::U16, 0), Some(l.offset_16(0)));
    assert_eq!(l.checked_offset(FieldKind::U8, 0), Some(2 * w + 26));
}

#[test]
fn checked_offset_refuses_offsets_past_usize() {
    let l = layout(usize::MAX, 0, 0, 0, 0, 0);
    assert_eq!(l.checked_offset(FieldKind::U8, 0), None);
    assert_eq!(l.checked_data_size(), None);
    let small = layout(0, 0, 0, 0, 0, 0);
    assert_eq!(small.checked_offset(FieldKind::U64, usize::MAX), None);
    assert_eq!(small.checked_offset(FieldKind::U8, usize::MAX), Some(usize::MAX));
}

#[test]
fn usize_slot_counts_past_the_object_fields() {
    let l = layout(3, 0, 0, 0, 0, 0);
    assert_eq!(l.usize_slot(2), 5);
}

#[test]
fn builtin_constructor_tags() {
    assert!(except_is_ok(EXCEPT_OK_TAG) && except_is_ok(1) && !except_is_ok(0));
    assert!(except_is_error(EXCEPT_ERROR_TAG) && except_is_error(0) && !except_is_error(1));
    assert!(io_result_is_ok(IO_RESULT_OK_TAG) && io_result_is_ok(0));
    assert!(!io_result_is_ok(IO_RESULT_ERROR_TAG));
    assert_eq!(IO_ERROR_USER_ERROR_TAG, 7);
    assert_eq!((LIST_CONS_TAG, LIST_HEAD_FIELD, LIST_TAIL_FIELD), (1, 0, 1));
}
