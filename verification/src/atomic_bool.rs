//! An atomic `bool` cell.

use crate::status::{exchange_leaves, exchange_result, outcome, outcome_of, Status};
use std::sync::atomic::Ordering;
use vstd::prelude::*;

verus! {

/// The value that a `std::sync::atomic::AtomicBool` holds.
pub uninterp spec fn held_bool(cell: std::sync::atomic::AtomicBool) -> bool;

/// Not both of `a` and `b`.
pub open spec fn nand(a: bool, b: bool) -> bool {
    !(a && b)
}

/// `std::sync::atomic::AtomicBool::new`: the new atomic holds `data`.
#[verifier::external_body]
fn atomic_new(data: bool) -> (cell: std::sync::atomic::AtomicBool)
    ensures
        held_bool(cell) == data,
{
    std::sync::atomic::AtomicBool::new(data)
}

/// `std::sync::atomic::AtomicBool::load` with `SeqCst`: returns the value held.
#[verifier::external_body]
fn atomic_load(cell: &std::sync::atomic::AtomicBool) -> (seen: bool)
    ensures
        seen == held_bool(*cell),
{
    cell.load(Ordering::SeqCst)
}

/// `std::sync::atomic::AtomicBool::store` with `SeqCst`: afterwards the atomic
/// holds `val`.
#[verifier::external_body]
fn atomic_store(cell: &mut std::sync::atomic::AtomicBool, val: bool)
    ensures
        held_bool(*final(cell)) == val,
{
    cell.store(val, Ordering::SeqCst)
}

/// `std::sync::atomic::AtomicBool::swap` with `SeqCst`: stores `val` and returns
/// the value held before.
#[verifier::external_body]
fn atomic_swap(cell: &mut std::sync::atomic::AtomicBool, val: bool) -> (prev: bool)
    ensures
        prev == held_bool(*old(cell)),
        held_bool(*final(cell)) == val,
{
    cell.swap(val, Ordering::SeqCst)
}

/// `std::sync::atomic::AtomicBool::compare_exchange` with `SeqCst` for both
/// orderings: if the atomic holds `current` it stores `new` and returns
/// `Ok` of the value held before; otherwise it stores nothing and returns
/// `Err` of the value held. The comparison never fails spuriously.
#[verifier::external_body]
fn atomic_compare_exchange(cell: &mut std::sync::atomic::AtomicBool, current: bool, new: bool) -> (r: Result<bool, bool>)
    ensures
        r == exchange_result(held_bool(*old(cell)), current),
        held_bool(*final(cell)) == exchange_leaves(held_bool(*old(cell)), current, new),
{
    cell.compare_exchange(current, new, Ordering::SeqCst, Ordering::SeqCst)
}

/// `std::sync::atomic::AtomicBool::compare_exchange_weak` with `SeqCst` for both
/// orderings: `Ok` is returned only if the atomic held `current`, and then
/// `new` was stored; on `Err` nothing was stored. Either way the value
/// returned is the value held before. Unlike the strong form it may return
/// `Err` although the atomic held `current`.
#[verifier::external_body]
fn atomic_compare_exchange_weak(cell: &mut std::sync::atomic::AtomicBool, current: bool, new: bool) -> (r: Result<bool, bool>)
    ensures
        outcome_of(r).1 == held_bool(*old(cell)),
        r is Ok ==> held_bool(*old(cell)) == current && held_bool(*final(cell)) == new,
        r is Err ==> held_bool(*final(cell)) == held_bool(*old(cell)),
{
    cell.compare_exchange_weak(current, new, Ordering::SeqCst, Ordering::SeqCst)
}

/// `std::sync::atomic::AtomicBool::fetch_and` with `SeqCst`: stores the logical
/// AND of the value held and `val`, and returns the value held before.
#[verifier::external_body]
fn atomic_fetch_and(cell: &mut std::sync::atomic::AtomicBool, val: bool) -> (prev: bool)
    ensures
        prev == held_bool(*old(cell)),
        held_bool(*final(cell)) == (held_bool(*old(cell)) && val),
{
    cell.fetch_and(val, Ordering::SeqCst)
}

/// `std::sync::atomic::AtomicBool::fetch_nand` with `SeqCst`: stores the
/// negation of the logical AND of the value held and `val`, and returns
/// the value held before.
#[verifier::external_body]
fn atomic_fetch_nand(cell: &mut std::sync::atomic::AtomicBool, val: bool) -> (prev: bool)
    ensures
        prev == held_bool(*old(cell)),
        held_bool(*final(cell)) == nand(held_bool(*old(cell)), val),
{
    cell.fetch_nand(val, Ordering::SeqCst)
}

/// `std::sync::atomic::AtomicBool::fetch_or` with `SeqCst`: stores the logical OR
/// of the value held and `val`, and returns the value held before.
#[verifier::external_body]
fn atomic_fetch_or(cell: &mut std::sync::atomic::AtomicBool, val: bool) -> (prev: bool)
    ensures
        prev == held_bool(*old(cell)),
        held_bool(*final(cell)) == (held_bool(*old(cell)) || val),
{
    cell.fetch_or(val, Ordering::SeqCst)
}

/// `std::sync::atomic::AtomicBool::fetch_xor` with `SeqCst`: stores the logical
/// XOR of the value held and `val`, and returns the value held before.
#[verifier::external_body]
fn atomic_fetch_xor(cell: &mut std::sync::atomic::AtomicBool, val: bool) -> (prev: bool)
    ensures
        prev == held_bool(*old(cell)),
        held_bool(*final(cell)) == (held_bool(*old(cell)) != val),
{
    cell.fetch_xor(val, Ordering::SeqCst)
}

/// A cell that holds one `bool` and is read and changed by sequentially
/// consistent atomic operations only.
pub struct AtomicBool {
    inner: std::sync::atomic::AtomicBool,
}

impl AtomicBool {
    /// The value that the cell holds.
    pub closed spec fn view(&self) -> bool {
        held_bool(self.inner)
    }

    /// A cell that holds `data`.
    pub fn new(data: bool) -> (cell: Self)
        ensures
            cell@ == data,
    {
        AtomicBool { inner: atomic_new(data) }
    }

    /// The value that the cell holds.
    pub fn load(&self) -> (seen: bool)
        ensures
            seen == self@,
    {
        atomic_load(&self.inner)
    }

    /// Replaces the value held by `val`.
    pub fn store(&mut self, val: bool)
        ensures
            final(self)@ == val,
    {
        atomic_store(&mut self.inner, val)
    }

    /// Replaces the value held by `val` and returns the value held before.
    pub fn swap(&mut self, val: bool) -> (prev: bool)
        ensures
            prev == old(self)@,
            final(self)@ == val,
    {
        atomic_swap(&mut self.inner, val)
    }

    /// Stores `new` if the cell holds `current`.
    ///
    /// Where it does, the report is `Success` with the value held before,
    /// which is `current`. Where it does not, the cell is left as it is and
    /// the report is `Failure` with the value held.
    pub fn compare_exchange(&mut self, current: bool, new: bool) -> (out: (Status, bool))
        ensures
            old(self)@ == current ==> out == (Status::Success, current) && final(self)@ == new,
            old(self)@ != current ==> out == (Status::Failure, old(self)@) && final(self)@
                == old(self)@,
    {
        outcome(atomic_compare_exchange(&mut self.inner, current, new))
    }

    /// As `compare_exchange`, but the attempt may be given up although the
    /// cell holds `current`.
    ///
    /// `Success` is reported only if the cell held `current`, and `new` has
    /// then been stored. On `Failure` the cell is left as it is. The value
    /// reported is in both cases the value held before the call. A caller
    /// that needs the update made calls again on `Failure`.
    pub fn compare_exchange_weak(&mut self, current: bool, new: bool) -> (out: (Status, bool))
        ensures
            out.1 == old(self)@,
            out.0 == Status::Success ==> old(self)@ == current && final(self)@ == new,
            out.0 == Status::Failure ==> final(self)@ == old(self)@,
    {
        outcome(atomic_compare_exchange_weak(&mut self.inner, current, new))
    }

    /// Replaces the value held by its logical AND with `val` and returns the
    /// value held before.
    pub fn fetch_and(&mut self, val: bool) -> (prev: bool)
        ensures
            prev == old(self)@,
            final(self)@ == (old(self)@ && val),
    {
        atomic_fetch_and(&mut self.inner, val)
    }

    /// Replaces the value held by the negation of its logical AND with
    /// `val` and returns the value held before.
    pub fn fetch_nand(&mut self, val: bool) -> (prev: bool)
        ensures
            prev == old(self)@,
            final(self)@ == nand(old(self)@, val),
    {
        atomic_fetch_nand(&mut self.inner, val)
    }

    /// Replaces the value held by its logical OR with `val` and returns the
    /// value held before.
    pub fn fetch_or(&mut self, val: bool) -> (prev: bool)
        ensures
            prev == old(self)@,
            final(self)@ == (old(self)@ || val),
    {
        atomic_fetch_or(&mut self.inner, val)
    }

    /// Replaces the value held by its logical XOR with `val` and returns the
    /// value held before.
    pub fn fetch_xor(&mut self, val: bool) -> (prev: bool)
        ensures
            prev == old(self)@,
            final(self)@ == (old(self)@ != val),
    {
        atomic_fetch_xor(&mut self.inner, val)
    }
}

/// A new cell gives back on `load` the value it was made with.
pub proof fn new_then_load(a: bool, cell: AtomicBool, seen: bool)
    requires
        call_ensures(AtomicBool::new, (a,), cell),
        call_ensures(AtomicBool::load, (&cell,), seen),
    ensures
        seen == a,
{
}

/// After `store(b)`, `load` gives `b`.
pub proof fn store_then_load(cell: &mut AtomicBool, b: bool, seen: bool)
    requires
        call_ensures(AtomicBool::store, (cell, b), ()),
        call_ensures(AtomicBool::load, (&*final(cell),), seen),
    ensures
        seen == b,
{
}

/// `swap(b)` returns the value held just before the call, and `load` then
/// gives `b`.
pub proof fn swap_then_load(cell: &mut AtomicBool, b: bool, prev: bool, seen: bool)
    requires
        call_ensures(AtomicBool::swap, (cell, b), prev),
        call_ensures(AtomicBool::load, (&*final(cell),), seen),
    ensures
        prev == old(cell)@,
        seen == b,
{
}

/// `compare_exchange(current, new)` on a cell that holds `current` reports
/// `(Success, current)` and `load` then gives `new`; on a cell that holds
/// another value `v` it reports `(Failure, v)` and `load` still gives `v`.
pub proof fn compare_exchange_then_load(
    cell: &mut AtomicBool,
    current: bool,
    new: bool,
    out: (Status, bool),
    seen: bool,
)
    requires
        call_ensures(AtomicBool::compare_exchange, (cell, current, new), out),
        call_ensures(AtomicBool::load, (&*final(cell),), seen),
    ensures
        old(cell)@ == current ==> out == (Status::Success, current) && seen == new,
        old(cell)@ != current ==> out == (Status::Failure, old(cell)@) && seen == old(cell)@,
{
}

/// `compare_exchange_weak` never reports a `Success` that did not happen:
/// where it reports `Success`, the cell held `current` before and `load`
/// gives `new` after; where it reports `Failure`, `load` gives what the
/// cell held before.
pub proof fn compare_exchange_weak_then_load(
    cell: &mut AtomicBool,
    current: bool,
    new: bool,
    out: (Status, bool),
    seen: bool,
)
    requires
        call_ensures(AtomicBool::compare_exchange_weak, (cell, current, new), out),
        call_ensures(AtomicBool::load, (&*final(cell),), seen),
    ensures
        out.0 == Status::Success ==> old(cell)@ == current && out.1 == current && seen == new,
        out.0 == Status::Failure ==> out.1 == old(cell)@ && seen == old(cell)@,
        old(cell)@ != current ==> out.0 == Status::Failure,
{
}

/// `fetch_and`, `fetch_or`, `fetch_xor` and `fetch_nand` each return the
/// value held before, and `load` then gives that value combined with `val`
/// by the operator.
pub proof fn fetch_and_then_load(cell: &mut AtomicBool, val: bool, prev: bool, seen: bool)
    requires
        call_ensures(AtomicBool::fetch_and, (cell, val), prev),
        call_ensures(AtomicBool::load, (&*final(cell),), seen),
    ensures
        prev == old(cell)@,
        seen == (prev && val),
{
}

/// See `fetch_and_then_load`.
pub proof fn fetch_or_then_load(cell: &mut AtomicBool, val: bool, prev: bool, seen: bool)
    requires
        call_ensures(AtomicBool::fetch_or, (cell, val), prev),
        call_ensures(AtomicBool::load, (&*final(cell),), seen),
    ensures
        prev == old(cell)@,
        seen == (prev || val),
{
}

/// See `fetch_and_then_load`.
pub proof fn fetch_xor_then_load(cell: &mut AtomicBool, val: bool, prev: bool, seen: bool)
    requires
        call_ensures(AtomicBool::fetch_xor, (cell, val), prev),
        call_ensures(AtomicBool::load, (&*final(cell),), seen),
    ensures
        prev == old(cell)@,
        seen == (prev != val),
{
}

/// See `fetch_and_then_load`.
pub proof fn fetch_nand_then_load(cell: &mut AtomicBool, val: bool, prev: bool, seen: bool)
    requires
        call_ensures(AtomicBool::fetch_nand, (cell, val), prev),
        call_ensures(AtomicBool::load, (&*final(cell),), seen),
    ensures
        prev == old(cell)@,
        seen == !(prev && val),
{
}

} // verus!
