//! Constructor tags and fields of Lean's built-in inductive types.
//!
//! `List.cons`, `Option.some`, `Except`, `EStateM.Result` (the `BaseIO`
//! result), `IO.Error.userError` and `Prod.mk` are ordinary constructor
//! objects with object fields only. These are the tags the runtime gives them,
//! how many object fields each has, and which field holds what.

use vstd::prelude::*;

verus! {

/// Tag of `List.cons`.
pub const LIST_CONS_TAG: u8 = 1;

/// Object fields of `List.cons`: head and tail.
pub const LIST_CONS_FIELDS: usize = 2;

/// Field of `List.cons` holding the head.
pub const LIST_HEAD_FIELD: usize = 0;

/// Field of `List.cons` holding the tail.
pub const LIST_TAIL_FIELD: usize = 1;

/// Tag of `Option.some`.
pub const OPTION_SOME_TAG: u8 = 1;

/// Object fields of `Option.some`: the value.
pub const OPTION_SOME_FIELDS: usize = 1;

/// Field of `Option.some` holding the value.
pub const OPTION_VALUE_FIELD: usize = 0;

/// Tag of `Except.error`.
pub const EXCEPT_ERROR_TAG: u8 = 0;

/// Tag of `Except.ok`.
pub const EXCEPT_OK_TAG: u8 = 1;

/// Object fields of either `Except` constructor: the error or the value.
pub const EXCEPT_FIELDS: usize = 1;

/// Field of either `Except` constructor holding the error or the value.
pub const EXCEPT_VALUE_FIELD: usize = 0;

/// Tag of a successful `EStateM.Result`.
pub const IO_RESULT_OK_TAG: u8 = 0;

/// Tag of a failed `EStateM.Result`.
pub const IO_RESULT_ERROR_TAG: u8 = 1;

/// Object fields of either `EStateM.Result` constructor: the value or error,
/// and the world token.
pub const IO_RESULT_FIELDS: usize = 2;

/// Field of an `EStateM.Result` holding the value or the error.
pub const IO_RESULT_VALUE_FIELD: usize = 0;

/// Field of an `EStateM.Result` holding the world token.
pub const IO_RESULT_WORLD_FIELD: usize = 1;

/// Tag of `IO.Error.userError`.
pub const IO_ERROR_USER_ERROR_TAG: u8 = 7;

/// Object fields of `IO.Error.userError`: the message.
pub const IO_ERROR_USER_ERROR_FIELDS: usize = 1;

/// Field of `IO.Error.userError` holding the message.
pub const IO_ERROR_MESSAGE_FIELD: usize = 0;

/// Tag of `Prod.mk`.
pub const PROD_TAG: u8 = 0;

/// Object fields of `Prod.mk`.
pub const PROD_FIELDS: usize = 2;

/// Field of `Prod.mk` holding the first component.
pub const PROD_FST_FIELD: usize = 0;

/// Field of `Prod.mk` holding the second component.
pub const PROD_SND_FIELD: usize = 1;

/// Whether an `Except` with constructor tag `tag` is `ok`.
pub fn except_is_ok(tag: u8) -> (r: bool)
    ensures
        r == (tag == EXCEPT_OK_TAG),
{
    tag == EXCEPT_OK_TAG
}

/// Whether an `Except` with constructor tag `tag` is `error`.
pub fn except_is_error(tag: u8) -> (r: bool)
    ensures
        r == (tag == EXCEPT_ERROR_TAG),
{
    tag == EXCEPT_ERROR_TAG
}

/// Whether an `EStateM.Result` with constructor tag `tag` is a success.
pub fn io_result_is_ok(tag: u8) -> (r: bool)
    ensures
        r == (tag == IO_RESULT_OK_TAG),
{
    tag == IO_RESULT_OK_TAG
}

/// The head and tail of a `cons` cell are different fields, both inside the
/// cell, and likewise the two components of a pair.
pub proof fn lemma_fields_in_cells()
    ensures
        LIST_HEAD_FIELD != LIST_TAIL_FIELD,
        LIST_HEAD_FIELD < LIST_CONS_FIELDS && LIST_TAIL_FIELD < LIST_CONS_FIELDS,
        PROD_FST_FIELD != PROD_SND_FIELD,
        PROD_FST_FIELD < PROD_FIELDS && PROD_SND_FIELD < PROD_FIELDS,
        OPTION_VALUE_FIELD < OPTION_SOME_FIELDS,
        EXCEPT_VALUE_FIELD < EXCEPT_FIELDS,
        IO_RESULT_VALUE_FIELD != IO_RESULT_WORLD_FIELD,
        IO_RESULT_VALUE_FIELD < IO_RESULT_FIELDS && IO_RESULT_WORLD_FIELD < IO_RESULT_FIELDS,
        IO_ERROR_MESSAGE_FIELD < IO_ERROR_USER_ERROR_FIELDS,
{
}

} // verus!
