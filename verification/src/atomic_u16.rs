//! An atomic `u16` cell.

use crate::arith::{wrapped};
use crate::status::{exchange_leaves, exchange_result, outcome, outcome_of, Status};
use std::sync::atomic::Ordering;
use vstd::prelude::*;

verus! {

/// The value that a `std::sync::atomic::AtomicU16` holds.
pub uninterp spec fn held_u16(cell: std::sync::atomic::AtomicU16) -> u16;

/// The sum of `a` and `b`, wrapped around at the bounds of `u16`.
pub open spec fn wrapping_sum(a: u16, b: u16) -> u16 {
    wrapped(a + b, u16::MIN as int, u16::MAX as int) as u16
}

/// `a` less `b`, wrapped around at the bounds of `u16`.
pub open spec fn wrapping_difference(a: u16, b: u16) -> u16 {
    wrapped(a - b, u16::MIN as int, u16::MAX as int) as u16
}

/// The complement of the bitwise AND of `a` and `b`.
pub open spec fn nand(a: u16, b: u16) -> u16 {
    !(a & b)
}

/// The larger of `a` and `b`.
pub open spec fn larger(a: u16, b: u16) -> u16 {
    if a >= b {
        a
    } else {
        b
    }
}

/// The smaller of `a` and `b`.
pub open spec fn smaller(a: u16, b: u16) -> u16 {
    if a <= b {
        a
    } else {
        b
    }
}

/// `cur + val`, taken as a sum of integers, modulo `m`. Meaningful for
/// `m != 0`.
pub open spec fn sum_mod(cur: u16, val: u16, m: u16) -> u16 {
    ((cur + val) % (m as int)) as u16
}

/// Computes `sum_mod(cur, val, m)`. The sum is formed in `u32`, so it cannot
/// overflow, and the remainder fits `u16` because it is smaller in magnitude
/// than `m`.
pub fn add_mod(cur: u16, val: u16, m: u16) -> (next: u16)
    requires
        m != 0,
    ensures
        next == sum_mod(cur, val, m),
{
    let sum: u32 = cur as u32 + val as u32;
    (sum % (m as u32)) as u16
}

/// What the update of `fetch_add_mod` proposes for a cell that holds `cur`:
/// always a new value, `sum_mod(cur, val, m)`.
fn proposed(cur: u16, val: u16, m: u16) -> (next: Option<u16>)
    requires
        m != 0,
    ensures
        next == Some(sum_mod(cur, val, m)),
{
    Some(add_mod(cur, val, m))
}

/// `std::sync::atomic::AtomicU16::new`: the new atomic holds `data`.
#[verifier::external_body]
fn atomic_new(data: u16) -> (cell: std::sync::atomic::AtomicU16)
    ensures
        held_u16(cell) == data,
{
    std::sync::atomic::AtomicU16::new(data)
}

/// `std::sync::atomic::AtomicU16::load` with `SeqCst`: returns the value held.
#[verifier::external_body]
fn atomic_load(cell: &std::sync::atomic::AtomicU16) -> (seen: u16)
    ensures
        seen == held_u16(*cell),
{
    cell.load(Ordering::SeqCst)
}

/// `std::sync::atomic::AtomicU16::store` with `SeqCst`: afterwards the atomic
/// holds `val`.
#[verifier::external_body]
fn atomic_store(cell: &mut std::sync::atomic::AtomicU16, val: u16)
    ensures
        held_u16(*final(cell)) == val,
{
    cell.store(val, Ordering::SeqCst)
}

/// `std::sync::atomic::AtomicU16::swap` with `SeqCst`: stores `val` and returns
/// the value held before.
#[verifier::external_body]
fn atomic_swap(cell: &mut std::sync::atomic::AtomicU16, val: u16) -> (prev: u16)
    ensures
        prev == held_u16(*old(cell)),
        held_u16(*final(cell)) == val,
{
    cell.swap(val, Ordering::SeqCst)
}

/// `std::sync::atomic::AtomicU16::compare_exchange` with `SeqCst` for both
/// orderings: if the atomic holds `current` it stores `new` and returns
/// `Ok` of the value held before; otherwise it stores nothing and returns
/// `Err` of the value held. The comparison never fails spuriously.
#[verifier::external_body]
fn atomic_compare_exchange(cell: &mut std::sync::atomic::AtomicU16, current: u16, new: u16) -> (r: Result<u16, u16>)
    ensures
        r == exchange_result(held_u16(*old(cell)), current),
        held_u16(*final(cell)) == exchange_leaves(held_u16(*old(cell)), current, new),
{
    cell.compare_exchange(current, new, Ordering::SeqCst, Ordering::SeqCst)
}

/// `std::sync::atomic::AtomicU16::compare_exchange_weak` with `SeqCst` for both
/// orderings: `Ok` is returned only if the atomic held `current`, and then
/// `new` was stored; on `Err` nothing was stored. Either way the value
/// returned is the value held before. Unlike the strong form it may return
/// `Err` although the atomic held `current`.
#[verifier::external_body]
fn atomic_compare_exchange_weak(cell: &mut std::sync::atomic::AtomicU16, current: u16, new: u16) -> (r: Result<u16, u16>)
    ensures
        outcome_of(r).1 == held_u16(*old(cell)),
        r is Ok ==> held_u16(*old(cell)) == current && held_u16(*final(cell)) == new,
        r is Err ==> held_u16(*final(cell)) == held_u16(*old(cell)),
{
    cell.compare_exchange_weak(current, new, Ordering::SeqCst, Ordering::SeqCst)
}

/// `std::sync::atomic::AtomicU16::fetch_and` with `SeqCst`: stores the bitwise
/// AND of the value held and `val`, and returns the value held before.
#[verifier::external_body]
fn atomic_fetch_and(cell: &mut std::sync::atomic::AtomicU16, val: u16) -> (prev: u16)
    ensures
        prev == held_u16(*old(cell)),
        held_u16(*final(cell)) == held_u16(*old(cell)) & val,
{
    cell.fetch_and(val, Ordering::SeqCst)
}

/// `std::sync::atomic::AtomicU16::fetch_nand` with `SeqCst`: stores the
/// complement of the bitwise AND of the value held and `val`, and returns
/// the value held before.
#[verifier::external_body]
fn atomic_fetch_nand(cell: &mut std::sync::atomic::AtomicU16, val: u16) -> (prev: u16)
    ensures
        prev == held_u16(*old(cell)),
        held_u16(*final(cell)) == nand(held_u16(*old(cell)), val),
{
    cell.fetch_nand(val, Ordering::SeqCst)
}

/// `std::sync::atomic::AtomicU16::fetch_or` with `SeqCst`: stores the bitwise OR
/// of the value held and `val`, and returns the value held before.
#[verifier::external_body]
fn atomic_fetch_or(cell: &mut std::sync::atomic::AtomicU16, val: u16) -> (prev: u16)
    ensures
        prev == held_u16(*old(cell)),
        held_u16(*final(cell)) == held_u16(*old(cell)) | val,
{
    cell.fetch_or(val, Ordering::SeqCst)
}

/// `std::sync::atomic::AtomicU16::fetch_xor` with `SeqCst`: stores the bitwise
/// XOR of the value held and `val`, and returns the value held before.
#[verifier::external_body]
fn atomic_fetch_xor(cell: &mut std::sync::atomic::AtomicU16, val: u16) -> (prev: u16)
    ensures
        prev == held_u16(*old(cell)),
        held_u16(*final(cell)) == held_u16(*old(cell)) ^ val,
{
    cell.fetch_xor(val, Ordering::SeqCst)
}

/// `std::sync::atomic::AtomicU16::fetch_add` with `SeqCst`: adds `val` to the
/// value held, wrapping around on overflow, and returns the value held
/// before.
#[verifier::external_body]
fn atomic_fetch_add(cell: &mut std::sync::atomic::AtomicU16, val: u16) -> (prev: u16)
    ensures
        prev == held_u16(*old(cell)),
        held_u16(*final(cell)) == wrapping_sum(held_u16(*old(cell)), val),
{
    cell.fetch_add(val, Ordering::SeqCst)
}

/// `std::sync::atomic::AtomicU16::fetch_sub` with `SeqCst`: subtracts `val` from
/// the value held, wrapping around on overflow, and returns the value held
/// before.
#[verifier::external_body]
fn atomic_fetch_sub(cell: &mut std::sync::atomic::AtomicU16, val: u16) -> (prev: u16)
    ensures
        prev == held_u16(*old(cell)),
        held_u16(*final(cell)) == wrapping_difference(held_u16(*old(cell)), val),
{
    cell.fetch_sub(val, Ordering::SeqCst)
}

/// `std::sync::atomic::AtomicU16::fetch_max` with `SeqCst`: stores the larger of
/// the value held and `val`, and returns the value held before.
#[verifier::external_body]
fn atomic_fetch_max(cell: &mut std::sync::atomic::AtomicU16, val: u16) -> (prev: u16)
    ensures
        prev == held_u16(*old(cell)),
        held_u16(*final(cell)) == larger(held_u16(*old(cell)), val),
{
    cell.fetch_max(val, Ordering::SeqCst)
}

/// `std::sync::atomic::AtomicU16::fetch_min` with `SeqCst`: stores the smaller
/// of the value held and `val`, and returns the value held before.
#[verifier::external_body]
fn atomic_fetch_min(cell: &mut std::sync::atomic::AtomicU16, val: u16) -> (prev: u16)
    ensures
        prev == held_u16(*old(cell)),
        held_u16(*final(cell)) == smaller(held_u16(*old(cell)), val),
{
    cell.fetch_min(val, Ordering::SeqCst)
}

/// `std::sync::atomic::AtomicU16::fetch_update` with `SeqCst` for both
/// orderings, handed the update `proposed(_, val, m)`. That update
/// proposes a value for whatever it is given, so the atomic stores what it
/// proposes for the value held and returns `Ok` of the value held before.
/// A zero `m` is left out: the update would divide by it.
#[verifier::external_body]
fn atomic_fetch_update(cell: &mut std::sync::atomic::AtomicU16, val: u16, m: u16) -> (r: Result<u16, u16>)
    requires
        m != 0,
    ensures
        outcome_of(r) == (Status::Success, held_u16(*old(cell))),
        held_u16(*final(cell)) == sum_mod(held_u16(*old(cell)), val, m),
{
    cell.fetch_update(Ordering::SeqCst, Ordering::SeqCst, |cur| proposed(cur, val, m))
}

/// A cell that holds one `u16` and is read and changed by sequentially
/// consistent atomic operations only.
pub struct AtomicU16 {
    inner: std::sync::atomic::AtomicU16,
}

impl AtomicU16 {
    /// The value that the cell holds.
    pub closed spec fn view(&self) -> u16 {
        held_u16(self.inner)
    }

    /// A cell that holds `data`.
    pub fn new(data: u16) -> (cell: Self)
        ensures
            cell@ == data,
    {
        AtomicU16 { inner: atomic_new(data) }
    }

    /// The value that the cell holds.
    pub fn load(&self) -> (seen: u16)
        ensures
            seen == self@,
    {
        atomic_load(&self.inner)
    }

    /// Replaces the value held by `val`.
    pub fn store(&mut self, val: u16)
        ensures
            final(self)@ == val,
    {
        atomic_store(&mut self.inner, val)
    }

    /// Replaces the value held by `val` and returns the value held before.
    pub fn swap(&mut self, val: u16) -> (prev: u16)
        ensures
            prev == old(self)@,
            final(self)@ == val,
    {
        atomic_swap(&mut self.inner, val)
    }

    /// Stores `new` if the cell holds `current`.
    ///
    /// Where it does, the report is `Success` with the value held before,
    /// which is `current`. Where it does not, the cell is left as it is and
    /// the report is `Failure` with the value held.
    pub fn compare_exchange(&mut self, current: u16, new: u16) -> (out: (Status, u16))
        ensures
            old(self)@ == current ==> out == (Status::Success, current) && final(self)@ == new,
            old(self)@ != current ==> out == (Status::Failure, old(self)@) && final(self)@
                == old(self)@,
    {
        outcome(atomic_compare_exchange(&mut self.inner, current, new))
    }

    /// As `compare_exchange`, but the attempt may be given up although the
    /// cell holds `current`.
    ///
    /// `Success` is reported only if the cell held `current`, and `new` has
    /// then been stored. On `Failure` the cell is left as it is. The value
    /// reported is in both cases the value held before the call. A caller
    /// that needs the update made calls again on `Failure`.
    pub fn compare_exchange_weak(&mut self, current: u16, new: u16) -> (out: (Status, u16))
        ensures
            out.1 == old(self)@,
            out.0 == Status::Success ==> old(self)@ == current && final(self)@ == new,
            out.0 == Status::Failure ==> final(self)@ == old(self)@,
    {
        outcome(atomic_compare_exchange_weak(&mut self.inner, current, new))
    }

    /// Replaces the value held by its bitwise AND with `val` and returns the
    /// value held before.
    pub fn fetch_and(&mut self, val: u16) -> (prev: u16)
        ensures
            prev == old(self)@,
            final(self)@ == old(self)@ & val,
    {
        atomic_fetch_and(&mut self.inner, val)
    }

    /// Replaces the value held by the complement of its bitwise AND with
    /// `val` and returns the value held before.
    pub fn fetch_nand(&mut self, val: u16) -> (prev: u16)
        ensures
            prev == old(self)@,
            final(self)@ == nand(old(self)@, val),
    {
        atomic_fetch_nand(&mut self.inner, val)
    }

    /// Replaces the value held by its bitwise OR with `val` and returns the
    /// value held before.
    pub fn fetch_or(&mut self, val: u16) -> (prev: u16)
        ensures
            prev == old(self)@,
            final(self)@ == old(self)@ | val,
    {
        atomic_fetch_or(&mut self.inner, val)
    }

    /// Replaces the value held by its bitwise XOR with `val` and returns the
    /// value held before.
    pub fn fetch_xor(&mut self, val: u16) -> (prev: u16)
        ensures
            prev == old(self)@,
            final(self)@ == old(self)@ ^ val,
    {
        atomic_fetch_xor(&mut self.inner, val)
    }

    /// Adds `val` to the value held, wrapping around on overflow, and
    /// returns the value held before.
    pub fn fetch_add(&mut self, val: u16) -> (prev: u16)
        ensures
            prev == old(self)@,
            final(self)@ == wrapping_sum(old(self)@, val),
    {
        atomic_fetch_add(&mut self.inner, val)
    }

    /// Subtracts `val` from the value held, wrapping around on overflow, and
    /// returns the value held before.
    pub fn fetch_sub(&mut self, val: u16) -> (prev: u16)
        ensures
            prev == old(self)@,
            final(self)@ == wrapping_difference(old(self)@, val),
    {
        atomic_fetch_sub(&mut self.inner, val)
    }

    /// Replaces the value held by the larger of it and `val`, and returns
    /// the value held before.
    pub fn fetch_max(&mut self, val: u16) -> (prev: u16)
        ensures
            prev == old(self)@,
            final(self)@ == larger(old(self)@, val),
    {
        atomic_fetch_max(&mut self.inner, val)
    }

    /// Replaces the value held by the smaller of it and `val`, and returns
    /// the value held before.
    pub fn fetch_min(&mut self, val: u16) -> (prev: u16)
        ensures
            prev == old(self)@,
            final(self)@ == smaller(old(self)@, val),
    {
        atomic_fetch_min(&mut self.inner, val)
    }

    /// Replaces the value held, `c`, by `sum_mod(c, val, m)` and reports
    /// `Success` with the value installed.
    ///
    /// The modulus must not be zero.
    pub fn fetch_add_mod(&mut self, val: u16, m: u16) -> (out: (Status, u16))
        requires
            m != 0,
        ensures
            out == (Status::Success, sum_mod(old(self)@, val, m)),
            final(self)@ == sum_mod(old(self)@, val, m),
    {
        installed(atomic_fetch_update(&mut self.inner, val, m), val, m)
    }
}

/// What `fetch_add_mod` reports for an outcome `r` of the update: on `Ok` of
/// the value held before, `Success` with the value that took its place; on
/// `Err`, `Failure` with the value that came with it.
pub open spec fn installed_of(r: Result<u16, u16>, val: u16, m: u16) -> (Status, u16) {
    match r {
        Ok(prev) => (Status::Success, sum_mod(prev, val, m)),
        Err(seen) => (Status::Failure, seen),
    }
}

/// Computes `installed_of(r, val, m)`.
pub fn installed(r: Result<u16, u16>, val: u16, m: u16) -> (out: (Status, u16))
    requires
        m != 0,
    ensures
        out == installed_of(r, val, m),
{
    match r {
        Ok(prev) => (Status::Success, add_mod(prev, val, m)),
        Err(seen) => (Status::Failure, seen),
    }
}

/// A new cell gives back on `load` the value it was made with.
pub proof fn new_then_load(a: u16, cell: AtomicU16, seen: u16)
    requires
        call_ensures(AtomicU16::new, (a,), cell),
        call_ensures(AtomicU16::load, (&cell,), seen),
    ensures
        seen == a,
{
}

/// After `store(b)`, `load` gives `b`.
pub proof fn store_then_load(cell: &mut AtomicU16, b: u16, seen: u16)
    requires
        call_ensures(AtomicU16::store, (cell, b), ()),
        call_ensures(AtomicU16::load, (&*final(cell),), seen),
    ensures
        seen == b,
{
}

/// `swap(b)` returns the value held just before the call, and `load` then
/// gives `b`.
pub proof fn swap_then_load(cell: &mut AtomicU16, b: u16, prev: u16, seen: u16)
    requires
        call_ensures(AtomicU16::swap, (cell, b), prev),
        call_ensures(AtomicU16::load, (&*final(cell),), seen),
    ensures
        prev == old(cell)@,
        seen == b,
{
}

/// `compare_exchange(current, new)` on a cell that holds `current` reports
/// `(Success, current)` and `load` then gives `new`; on a cell that holds
/// another value `v` it reports `(Failure, v)` and `load` still gives `v`.
pub proof fn compare_exchange_then_load(
    cell: &mut AtomicU16,
    current: u16,
    new: u16,
    out: (Status, u16),
    seen: u16,
)
    requires
        call_ensures(AtomicU16::compare_exchange, (cell, current, new), out),
        call_ensures(AtomicU16::load, (&*final(cell),), seen),
    ensures
        old(cell)@ == current ==> out == (Status::Success, current) && seen == new,
        old(cell)@ != current ==> out == (Status::Failure, old(cell)@) && seen == old(cell)@,
{
}

/// `compare_exchange_weak` never reports a `Success` that did not happen:
/// where it reports `Success`, the cell held `current` before and `load`
/// gives `new` after; where it reports `Failure`, `load` gives what the
/// cell held before.
pub proof fn compare_exchange_weak_then_load(
    cell: &mut AtomicU16,
    current: u16,
    new: u16,
    out: (Status, u16),
    seen: u16,
)
    requires
        call_ensures(AtomicU16::compare_exchange_weak, (cell, current, new), out),
        call_ensures(AtomicU16::load, (&*final(cell),), seen),
    ensures
        out.0 == Status::Success ==> old(cell)@ == current && out.1 == current && seen == new,
        out.0 == Status::Failure ==> out.1 == old(cell)@ && seen == old(cell)@,
        old(cell)@ != current ==> out.0 == Status::Failure,
{
}

/// `fetch_and`, `fetch_or`, `fetch_xor` and `fetch_nand` each return the
/// value held before, and `load` then gives that value combined with `val`
/// by the operator.
pub proof fn fetch_and_then_load(cell: &mut AtomicU16, val: u16, prev: u16, seen: u16)
    requires
        call_ensures(AtomicU16::fetch_and, (cell, val), prev),
        call_ensures(AtomicU16::load, (&*final(cell),), seen),
    ensures
        prev == old(cell)@,
        seen == prev & val,
{
}

/// See `fetch_and_then_load`.
pub proof fn fetch_or_then_load(cell: &mut AtomicU16, val: u16, prev: u16, seen: u16)
    requires
        call_ensures(AtomicU16::fetch_or, (cell, val), prev),
        call_ensures(AtomicU16::load, (&*final(cell),), seen),
    ensures
        prev == old(cell)@,
        seen == prev | val,
{
}

/// See `fetch_and_then_load`.
pub proof fn fetch_xor_then_load(cell: &mut AtomicU16, val: u16, prev: u16, seen: u16)
    requires
        call_ensures(AtomicU16::fetch_xor, (cell, val), prev),
        call_ensures(AtomicU16::load, (&*final(cell),), seen),
    ensures
        prev == old(cell)@,
        seen == prev ^ val,
{
}

/// See `fetch_and_then_load`.
pub proof fn fetch_nand_then_load(cell: &mut AtomicU16, val: u16, prev: u16, seen: u16)
    requires
        call_ensures(AtomicU16::fetch_nand, (cell, val), prev),
        call_ensures(AtomicU16::load, (&*final(cell),), seen),
    ensures
        prev == old(cell)@,
        seen == !(prev & val),
{
}

/// `fetch_add_mod(val, m)` on a cell that holds `c` reports `Success` with
/// `sum_mod(c, val, m)`, and `load` then gives that same value.
pub proof fn fetch_add_mod_then_load(
    cell: &mut AtomicU16,
    val: u16,
    m: u16,
    out: (Status, u16),
    seen: u16,
)
    requires
        m != 0,
        call_ensures(AtomicU16::fetch_add_mod, (cell, val, m), out),
        call_ensures(AtomicU16::load, (&*final(cell),), seen),
    ensures
        out.0 == Status::Success,
        out.1 == sum_mod(old(cell)@, val, m),
        seen == out.1,
        out.1 == (old(cell)@ + val) % (m as int),
{
}

} // verus!
