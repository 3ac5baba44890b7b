//! The two-valued signal that every conditional operation reports.

use vstd::prelude::*;

verus! {

/// Whether a conditional update took place.
///
/// `Failure` is an ordinary result, not an error: it says that the cell did
/// not hold the expected value (or, for the weak compare-exchange, that the
/// attempt was abandoned), and that the cell was left as it was.
#[derive(Clone, Copy, Debug, PartialEq, Eq, Structural)]
pub enum Status {
    /// The update was made.
    Success,
    /// The update was not made; the cell is unchanged.
    Failure,
}

/// The pair that a conditional operation reports for an outcome `r` of the
/// underlying atomic: `Ok` becomes `Success`, `Err` becomes `Failure`, and
/// the value is carried over as it is.
pub open spec fn outcome_of<T>(r: Result<T, T>) -> (Status, T) {
    match r {
        Ok(v) => (Status::Success, v),
        Err(v) => (Status::Failure, v),
    }
}

/// What a compare-exchange that cannot fail spuriously returns on a cell
/// that holds `held`: `Ok` of the value held if that is `current`, `Err` of
/// the value held if it is not.
pub open spec fn exchange_result<T>(held: T, current: T) -> Result<T, T> {
    if held == current {
        Ok(held)
    } else {
        Err(held)
    }
}

/// What a cell that held `held` holds after such a compare-exchange: `new`
/// if it held `current`, and else what it held.
pub open spec fn exchange_leaves<T>(held: T, current: T, new: T) -> T {
    if held == current {
        new
    } else {
        held
    }
}

/// Turns the outcome of an atomic compare-exchange into the reported pair.
pub fn outcome<T>(r: Result<T, T>) -> (out: (Status, T))
    ensures
        out == outcome_of(r),
{
    match r {
        Ok(v) => (Status::Success, v),
        Err(v) => (Status::Failure, v),
    }
}

/// `outcome_of` loses nothing: the status tells `Ok` from `Err`, and the
/// value is the one that the result carried.
pub proof fn outcome_is_faithful<T>(r: Result<T, T>)
    ensures
        outcome_of(r).0 == Status::Success <==> r is Ok,
        outcome_of(r).0 == Status::Failure <==> r is Err,
        r matches Ok(v) ==> outcome_of(r).1 == v,
        r matches Err(v) ==> outcome_of(r).1 == v,
{
}

} // verus!
