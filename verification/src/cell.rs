//! The write-once cell under the registry, as far as the registry relies on
//! it. Nothing in this file is proved: each contract says what `once_cell`
//! documents of the call it wraps.

use crate::proactor::Proactor;
use once_cell::sync::OnceCell;
use vstd::prelude::*;

verus! {

/// `once_cell::sync::OnceCell`: a cell that threads share and that is
/// written at most once while they do.
#[verifier::external_type_specification]
#[verifier::external_body]
#[verifier::reject_recursive_types(T)]
pub struct ExOnceCell<T>(OnceCell<T>);

/// The proactor that `cell` holds from its first write on. A shared cell is
/// written once at most, so whoever finds a value in it finds this one. Of a
/// cell that is never written this says nothing.
pub uninterp spec fn settled(cell: OnceCell<Proactor>) -> Proactor;

/// Whether `cell` held nothing when it was made. This is a fact of how the
/// cell came to be and stays what it is when the cell is written.
pub uninterp spec fn made_empty(cell: OnceCell<Proactor>) -> bool;

/// `OnceCell::new`: a new cell. The contract claims that it is made empty.
#[verifier::external_body]
pub(crate) fn cell_new() -> (cell: OnceCell<Proactor>)
    ensures
        made_empty(cell),
{
    OnceCell::new()
}

/// `OnceCell::get`: the value in the cell, if it has been written. The
/// contract claims that a value found is the one the cell settled on.
#[verifier::external_body]
pub(crate) fn cell_get(cell: &OnceCell<Proactor>) -> (found: Option<&Proactor>)
    ensures
        found matches Some(kept) ==> *kept == settled(*cell),
{
    cell.get()
}

/// `OnceCell::try_insert`: writes `value` if the cell is empty. The contract
/// claims that `Ok` carries the cell's value and that it is `value`; that
/// `Err` carries the cell's value, written before, and hands `value` back.
#[verifier::external_body]
pub(crate) fn cell_try_insert(cell: &OnceCell<Proactor>, value: Proactor) -> (outcome: Result<
    &Proactor,
    (&Proactor, Proactor),
>)
    ensures
        match outcome {
            Ok(kept) => *kept == settled(*cell) && *kept == value,
            Err((kept, back)) => *kept == settled(*cell) && back == value,
        },
{
    cell.try_insert(value)
}

} // verus!
