//! Software-emulated atomic cells for a core without hardware atomics.
//!
//! One cell type per operand width (1, 2 and 4 bytes). Every operation
//! acquires the critical section, performs a plain read/modify/write of the
//! held value, and releases the section, so atomicity holds exactly with
//! respect to other code that also goes through this layer (or otherwise
//! masks interrupts for conflicting accesses); no cross-core exclusion is
//! provided or claimed.

use vstd::prelude::*;

use vstd::wrapping::u16_specs;
use vstd::wrapping::u32_specs;
use vstd::wrapping::u8_specs;

verus! {

/// A read-modify-write operation applied by `fetch_op`: the cell receives
/// `op(old, v)` and the caller receives `old`.
#[derive(Clone, Copy, Debug, PartialEq, Eq, Structural)]
pub enum FetchOp {
    /// Unsigned wraparound addition.
    Add,
    /// Unsigned wraparound subtraction.
    Sub,
    /// Bitwise or.
    Or,
    /// Bitwise and.
    And,
    /// Bitwise exclusive or.
    Xor,
    /// Complement of the bitwise and.
    Nand,
    /// Replacement by `v`.
    Swap,
}

/// The value written by a one-byte `fetch_op`.
pub open spec fn spec_fetch_result8(op: FetchOp, old: u8, v: u8) -> u8 {
    match op {
        FetchOp::Add => u8_specs::wrapping_add(old, v),
        FetchOp::Sub => u8_specs::wrapping_sub(old, v),
        FetchOp::Or => old | v,
        FetchOp::And => old & v,
        FetchOp::Xor => old ^ v,
        FetchOp::Nand => !(old & v),
        FetchOp::Swap => v,
    }
}

/// The value written by a two-byte `fetch_op`.
pub open spec fn spec_fetch_result16(op: FetchOp, old: u16, v: u16) -> u16 {
    match op {
        FetchOp::Add => u16_specs::wrapping_add(old, v),
        FetchOp::Sub => u16_specs::wrapping_sub(old, v),
        FetchOp::Or => old | v,
        FetchOp::And => old & v,
        FetchOp::Xor => old ^ v,
        FetchOp::Nand => !(old & v),
        FetchOp::Swap => v,
    }
}

/// The value written by a four-byte `fetch_op`.
pub open spec fn spec_fetch_result32(op: FetchOp, old: u32, v: u32) -> u32 {
    match op {
        FetchOp::Add => u32_specs::wrapping_add(old, v),
        FetchOp::Sub => u32_specs::wrapping_sub(old, v),
        FetchOp::Or => old | v,
        FetchOp::And => old & v,
        FetchOp::Xor => old ^ v,
        FetchOp::Nand => !(old & v),
        FetchOp::Swap => v,
    }
}

/// A full-barrier ordering fence. On this single-core, in-order target it
/// emits no instruction; it only forbids reordering around it.
pub fn fence() {
    compiler_barrier();
}

/// Relies on `core::sync::atomic::compiler_fence`: a pure compiler-level
/// ordering fence with no effect on any value; nothing is stated of it.
#[verifier::external_body]
fn compiler_barrier() {
    core::sync::atomic::compiler_fence(core::sync::atomic::Ordering::SeqCst);
}

/// A one-byte value shared with exception handlers through the critical
/// section.
pub struct AtomicCell8 {
    value: u8,
}

impl View for AtomicCell8 {
    type V = u8;

    closed spec fn view(&self) -> u8 {
        self.value
    }
}

impl AtomicCell8 {
    /// A cell holding `v`.
    pub fn new(v: u8) -> (r: Self)
        ensures
            r@ == v,
    {
        AtomicCell8 { value: v }
    }

    fn read_plain(&self) -> (r: u8)
        ensures
            r == self@,
    {
        self.value
    }

    fn fetch_plain(&mut self, op: FetchOp, v: u8) -> (r: u8)
        ensures
            r == old(self)@,
            final(self)@ == spec_fetch_result8(op, old(self)@, v),
    {
        let prev = self.value;
        self.value = match op {
            FetchOp::Add => prev.wrapping_add(v),
            FetchOp::Sub => prev.wrapping_sub(v),
            FetchOp::Or => prev | v,
            FetchOp::And => prev & v,
            FetchOp::Xor => prev ^ v,
            FetchOp::Nand => !(prev & v),
            FetchOp::Swap => v,
        };
        prev
    }

    fn compare_exchange_plain(&mut self, expected: &mut u8, desired: u8) -> (ok: bool)
        ensures
            ok == (old(self)@ == *old(expected)),
            ok ==> final(self)@ == desired && *final(expected) == *old(expected),
            !ok ==> final(self)@ == old(self)@ && *final(expected) == old(self)@,
    {
        let current: u8 = self.value;
        if current == *expected {
            self.value = desired;
            true
        } else {
            *expected = current;
            false
        }
    }

    /// The held value.
    pub fn load(&self) -> (r: u8)
        ensures
            r == self@,
    {
        locked_read8(self)
    }

    /// Overwrites the held value with `v`.
    pub fn store(&mut self, v: u8)
        ensures
            final(self)@ == v,
    {
        locked_fetch8(self, FetchOp::Swap, v);
    }

    /// Writes `v` and returns the value held immediately before the write.
    pub fn swap(&mut self, v: u8) -> (r: u8)
        ensures
            r == old(self)@,
            final(self)@ == v,
    {
        locked_fetch8(self, FetchOp::Swap, v)
    }

    /// One deterministic attempt: if the held value equals `*expected`,
    /// writes `desired` and reports success; otherwise overwrites
    /// `*expected` with the held value and reports failure.
    pub fn compare_exchange(&mut self, expected: &mut u8, desired: u8) -> (ok: bool)
        ensures
            ok == (old(self)@ == *old(expected)),
            ok ==> final(self)@ == desired && *final(expected) == *old(expected),
            !ok ==> final(self)@ == old(self)@ && *final(expected) == old(self)@,
    {
        locked_compare_exchange8(self, expected, desired)
    }

    /// Writes `op(old, v)` and returns the pre-write value.
    pub fn fetch_op(&mut self, op: FetchOp, v: u8) -> (r: u8)
        ensures
            r == old(self)@,
            final(self)@ == spec_fetch_result8(op, old(self)@, v),
    {
        locked_fetch8(self, op, v)
    }

    /// Wraparound addition; returns the pre-write value.
    pub fn fetch_add(&mut self, v: u8) -> (r: u8)
        ensures
            r == old(self)@,
            final(self)@ == u8_specs::wrapping_add(old(self)@, v),
    {
        self.fetch_op(FetchOp::Add, v)
    }

    /// Wraparound subtraction; returns the pre-write value.
    pub fn fetch_sub(&mut self, v: u8) -> (r: u8)
        ensures
            r == old(self)@,
            final(self)@ == u8_specs::wrapping_sub(old(self)@, v),
    {
        self.fetch_op(FetchOp::Sub, v)
    }

    /// Bitwise or; returns the pre-write value.
    pub fn fetch_or(&mut self, v: u8) -> (r: u8)
        ensures
            r == old(self)@,
            final(self)@ == (old(self)@ | v),
    {
        self.fetch_op(FetchOp::Or, v)
    }

    /// Bitwise and; returns the pre-write value.
    pub fn fetch_and(&mut self, v: u8) -> (r: u8)
        ensures
            r == old(self)@,
            final(self)@ == (old(self)@ & v),
    {
        self.fetch_op(FetchOp::And, v)
    }

    /// Bitwise exclusive or; returns the pre-write value.
    pub fn fetch_xor(&mut self, v: u8) -> (r: u8)
        ensures
            r == old(self)@,
            final(self)@ == (old(self)@ ^ v),
    {
        self.fetch_op(FetchOp::Xor, v)
    }

    /// Complemented and; returns the pre-write value.
    pub fn fetch_nand(&mut self, v: u8) -> (r: u8)
        ensures
            r == old(self)@,
            final(self)@ == !(old(self)@ & v),
    {
        self.fetch_op(FetchOp::Nand, v)
    }
}

/// Relies on `critical_section::with`: the closure runs once inside an
/// acquired critical section and its result is returned; the closure only
/// calls the verified `read_plain`.
#[verifier::external_body]
fn locked_read8(cell: &AtomicCell8) -> (r: u8)
    ensures
        r == cell@,
{
    critical_section::with(|_cs| cell.read_plain())
}

/// Relies on `critical_section::with`: the closure runs once inside an
/// acquired critical section and its result is returned; the closure only
/// calls the verified `fetch_plain`.
#[verifier::external_body]
fn locked_fetch8(cell: &mut AtomicCell8, op: FetchOp, v: u8) -> (r: u8)
    ensures
        r == old(cell)@,
        final(cell)@ == spec_fetch_result8(op, old(cell)@, v),
{
    critical_section::with(|_cs| cell.fetch_plain(op, v))
}

/// Relies on `critical_section::with`: the closure runs once inside an
/// acquired critical section and its result is returned; the closure only
/// calls the verified `compare_exchange_plain`.
#[verifier::external_body]
fn locked_compare_exchange8(cell: &mut AtomicCell8, expected: &mut u8, desired: u8) -> (ok: bool)
    ensures
        ok == (old(cell)@ == *old(expected)),
        ok ==> final(cell)@ == desired && *final(expected) == *old(expected),
        !ok ==> final(cell)@ == old(cell)@ && *final(expected) == old(cell)@,
{
    critical_section::with(|_cs| cell.compare_exchange_plain(expected, desired))
}

/// A two-byte value shared with exception handlers through the critical
/// section.
pub struct AtomicCell16 {
    value: u16,
}

impl View for AtomicCell16 {
    type V = u16;

    closed spec fn view(&self) -> u16 {
        self.value
    }
}

impl AtomicCell16 {
    /// A cell holding `v`.
    pub fn new(v: u16) -> (r: Self)
        ensures
            r@ == v,
    {
        AtomicCell16 { value: v }
    }

    fn read_plain(&self) -> (r: u16)
        ensures
            r == self@,
    {
        self.value
    }

    fn fetch_plain(&mut self, op: FetchOp, v: u16) -> (r: u16)
        ensures
            r == old(self)@,
            final(self)@ == spec_fetch_result16(op, old(self)@, v),
    {
        let prev = self.value;
        self.value = match op {
            FetchOp::Add => prev.wrapping_add(v),
            FetchOp::Sub => prev.wrapping_sub(v),
            FetchOp::Or => prev | v,
            FetchOp::And => prev & v,
            FetchOp::Xor => prev ^ v,
            FetchOp::Nand => !(prev & v),
            FetchOp::Swap => v,
        };
        prev
    }

    fn compare_exchange_plain(&mut self, expected: &mut u16, desired: u16) -> (ok: bool)
        ensures
            ok == (old(self)@ == *old(expected)),
            ok ==> final(self)@ == desired && *final(expected) == *old(expected),
            !ok ==> final(self)@ == old(self)@ && *final(expected) == old(self)@,
    {
        let current: u16 = self.value;
        if current == *expected {
            self.value = desired;
            true
        } else {
            *expected = current;
            false
        }
    }

    /// The held value.
    pub fn load(&self) -> (r: u16)
        ensures
            r == self@,
    {
        locked_read16(self)
    }

    /// Overwrites the held value with `v`.
    pub fn store(&mut self, v: u16)
        ensures
            final(self)@ == v,
    {
        locked_fetch16(self, FetchOp::Swap, v);
    }

    /// Writes `v` and returns the value held immediately before the write.
    pub fn swap(&mut self, v: u16) -> (r: u16)
        ensures
            r == old(self)@,
            final(self)@ == v,
    {
        locked_fetch16(self, FetchOp::Swap, v)
    }

    /// One deterministic attempt: if the held value equals `*expected`,
    /// writes `desired` and reports success; otherwise overwrites
    /// `*expected` with the held value and reports failure.
    pub fn compare_exchange(&mut self, expected: &mut u16, desired: u16) -> (ok: bool)
        ensures
            ok == (old(self)@ == *old(expected)),
            ok ==> final(self)@ == desired && *final(expected) == *old(expected),
            !ok ==> final(self)@ == old(self)@ && *final(expected) == old(self)@,
    {
        locked_compare_exchange16(self, expected, desired)
    }

    /// Writes `op(old, v)` and returns the pre-write value.
    pub fn fetch_op(&mut self, op: FetchOp, v: u16) -> (r: u16)
        ensures
            r == old(self)@,
            final(self)@ == spec_fetch_result16(op, old(self)@, v),
    {
        locked_fetch16(self, op, v)
    }

    /// Wraparound addition; returns the pre-write value.
    pub fn fetch_add(&mut self, v: u16) -> (r: u16)
        ensures
            r == old(self)@,
            final(self)@ == u16_specs::wrapping_add(old(self)@, v),
    {
        self.fetch_op(FetchOp::Add, v)
    }

    /// Wraparound subtraction; returns the pre-write value.
    pub fn fetch_sub(&mut self, v: u16) -> (r: u16)
        ensures
            r == old(self)@,
            final(self)@ == u16_specs::wrapping_sub(old(self)@, v),
    {
        self.fetch_op(FetchOp::Sub, v)
    }

    /// Bitwise or; returns the pre-write value.
    pub fn fetch_or(&mut self, v: u16) -> (r: u16)
        ensures
            r == old(self)@,
            final(self)@ == (old(self)@ | v),
    {
        self.fetch_op(FetchOp::Or, v)
    }

    /// Bitwise and; returns the pre-write value.
    pub fn fetch_and(&mut self, v: u16) -> (r: u16)
        ensures
            r == old(self)@,
            final(self)@ == (old(self)@ & v),
    {
        self.fetch_op(FetchOp::And, v)
    }

    /// Bitwise exclusive or; returns the pre-write value.
    pub fn fetch_xor(&mut self, v: u16) -> (r: u16)
        ensures
            r == old(self)@,
            final(self)@ == (old(self)@ ^ v),
    {
        self.fetch_op(FetchOp::Xor, v)
    }

    /// Complemented and; returns the pre-write value.
    pub fn fetch_nand(&mut self, v: u16) -> (r: u16)
        ensures
            r == old(self)@,
            final(self)@ == !(old(self)@ & v),
    {
        self.fetch_op(FetchOp::Nand, v)
    }
}

/// Relies on `critical_section::with`: the closure runs once inside an
/// acquired critical section and its result is returned; the closure only
/// calls the verified `read_plain`.
#[verifier::external_body]
fn locked_read16(cell: &AtomicCell16) -> (r: u16)
    ensures
        r == cell@,
{
    critical_section::with(|_cs| cell.read_plain())
}

/// Relies on `critical_section::with`: the closure runs once inside an
/// acquired critical section and its result is returned; the closure only
/// calls the verified `fetch_plain`.
#[verifier::external_body]
fn locked_fetch16(cell: &mut AtomicCell16, op: FetchOp, v: u16) -> (r: u16)
    ensures
        r == old(cell)@,
        final(cell)@ == spec_fetch_result16(op, old(cell)@, v),
{
    critical_section::with(|_cs| cell.fetch_plain(op, v))
}

/// Relies on `critical_section::with`: the closure runs once inside an
/// acquired critical section and its result is returned; the closure only
/// calls the verified `compare_exchange_plain`.
#[verifier::external_body]
fn locked_compare_exchange16(cell: &mut AtomicCell16, expected: &mut u16, desired: u16) -> (ok:
    bool)
    ensures
        ok == (old(cell)@ == *old(expected)),
        ok ==> final(cell)@ == desired && *final(expected) == *old(expected),
        !ok ==> final(cell)@ == old(cell)@ && *final(expected) == old(cell)@,
{
    critical_section::with(|_cs| cell.compare_exchange_plain(expected, desired))
}

/// A four-byte value shared with exception handlers through the critical
/// section.
pub struct AtomicCell32 {
    value: u32,
}

impl View for AtomicCell32 {
    type V = u32;

    closed spec fn view(&self) -> u32 {
        self.value
    }
}

impl AtomicCell32 {
    /// A cell holding `v`.
    pub fn new(v: u32) -> (r: Self)
        ensures
            r@ == v,
    {
        AtomicCell32 { value: v }
    }

    fn read_plain(&self) -> (r: u32)
        ensures
            r == self@,
    {
        self.value
    }

    fn fetch_plain(&mut self, op: FetchOp, v: u32) -> (r: u32)
        ensures
            r == old(self)@,
            final(self)@ == spec_fetch_result32(op, old(self)@, v),
    {
        let prev = self.value;
        self.value = match op {
            FetchOp::Add => prev.wrapping_add(v),
            FetchOp::Sub => prev.wrapping_sub(v),
            FetchOp::Or => prev | v,
            FetchOp::And => prev & v,
            FetchOp::Xor => prev ^ v,
            FetchOp::Nand => !(prev & v),
            FetchOp::Swap => v,
        };
        prev
    }

    fn compare_exchange_plain(&mut self, expected: &mut u32, desired: u32) -> (ok: bool)
        ensures
            ok == (old(self)@ == *old(expected)),
            ok ==> final(self)@ == desired && *final(expected) == *old(expected),
            !ok ==> final(self)@ == old(self)@ && *final(expected) == old(self)@,
    {
        let current: u32 = self.value;
        if current == *expected {
            self.value = desired;
            true
        } else {
            *expected = current;
            false
        }
    }

    /// The held value.
    pub fn load(&self) -> (r: u32)
        ensures
            r == self@,
    {
        locked_read32(self)
    }

    /// Overwrites the held value with `v`.
    pub fn store(&mut self, v: u32)
        ensures
            final(self)@ == v,
    {
        locked_fetch32(self, FetchOp::Swap, v);
    }

    /// Writes `v` and returns the value held immediately before the write.
    pub fn swap(&mut self, v: u32) -> (r: u32)
        ensures
            r == old(self)@,
            final(self)@ == v,
    {
        locked_fetch32(self, FetchOp::Swap, v)
    }

    /// One deterministic attempt: if the held value equals `*expected`,
    /// writes `desired` and reports success; otherwise overwrites
    /// `*expected` with the held value and reports failure.
    pub fn compare_exchange(&mut self, expected: &mut u32, desired: u32) -> (ok: bool)
        ensures
            ok == (old(self)@ == *old(expected)),
            ok ==> final(self)@ == desired && *final(expected) == *old(expected),
            !ok ==> final(self)@ == old(self)@ && *final(expected) == old(self)@,
    {
        locked_compare_exchange32(self, expected, desired)
    }

    /// Writes `op(old, v)` and returns the pre-write value.
    pub fn fetch_op(&mut self, op: FetchOp, v: u32) -> (r: u32)
        ensures
            r == old(self)@,
            final(self)@ == spec_fetch_result32(op, old(self)@, v),
    {
        locked_fetch32(self, op, v)
    }

    /// Wraparound addition; returns the pre-write value.
    pub fn fetch_add(&mut self, v: u32) -> (r: u32)
        ensures
            r == old(self)@,
            final(self)@ == u32_specs::wrapping_add(old(self)@, v),
    {
        self.fetch_op(FetchOp::Add, v)
    }

    /// Wraparound subtraction; returns the pre-write value.
    pub fn fetch_sub(&mut self, v: u32) -> (r: u32)
        ensures
            r == old(self)@,
            final(self)@ == u32_specs::wrapping_sub(old(self)@, v),
    {
        self.fetch_op(FetchOp::Sub, v)
    }

    /// Bitwise or; returns the pre-write value.
    pub fn fetch_or(&mut self, v: u32) -> (r: u32)
        ensures
            r == old(self)@,
            final(self)@ == (old(self)@ | v),
    {
        self.fetch_op(FetchOp::Or, v)
    }

    /// Bitwise and; returns the pre-write value.
    pub fn fetch_and(&mut self, v: u32) -> (r: u32)
        ensures
            r == old(self)@,
            final(self)@ == (old(self)@ & v),
    {
        self.fetch_op(FetchOp::And, v)
    }

    /// Bitwise exclusive or; returns the pre-write value.
    pub fn fetch_xor(&mut self, v: u32) -> (r: u32)
        ensures
            r == old(self)@,
            final(self)@ == (old(self)@ ^ v),
    {
        self.fetch_op(FetchOp::Xor, v)
    }

    /// Complemented and; returns the pre-write value.
    pub fn fetch_nand(&mut self, v: u32) -> (r: u32)
        ensures
            r == old(self)@,
            final(self)@ == !(old(self)@ & v),
    {
        self.fetch_op(FetchOp::Nand, v)
    }
}

/// Relies on `critical_section::with`: the closure runs once inside an
/// acquired critical section and its result is returned; the closure only
/// calls the verified `read_plain`.
#[verifier::external_body]
fn locked_read32(cell: &AtomicCell32) -> (r: u32)
    ensures
        r == cell@,
{
    critical_section::with(|_cs| cell.read_plain())
}

/// Relies on `critical_section::with`: the closure runs once inside an
/// acquired critical section and its result is returned; the closure only
/// calls the verified `fetch_plain`.
#[verifier::external_body]
fn locked_fetch32(cell: &mut AtomicCell32, op: FetchOp, v: u32) -> (r: u32)
    ensures
        r == old(cell)@,
        final(cell)@ == spec_fetch_result32(op, old(cell)@, v),
{
    critical_section::with(|_cs| cell.fetch_plain(op, v))
}

/// Relies on `critical_section::with`: the closure runs once inside an
/// acquired critical section and its result is returned; the closure only
/// calls the verified `compare_exchange_plain`.
#[verifier::external_body]
fn locked_compare_exchange32(cell: &mut AtomicCell32, expected: &mut u32, desired: u32) -> (ok:
    bool)
    ensures
        ok == (old(cell)@ == *old(expected)),
        ok ==> final(cell)@ == desired && *final(expected) == *old(expected),
        !ok ==> final(cell)@ == old(cell)@ && *final(expected) == old(cell)@,
{
    critical_section::with(|_cs| cell.compare_exchange_plain(expected, desired))
}

} // verus!
