//! Interrupt mask primitives and the critical-section guard.
//!
//! The two interrupt lines are masked by bits 6 (FIQ) and 7 (IRQ) of the
//! status register. `disable` sets both and hands back their prior value;
//! `restore` writes exactly that value back, leaving every other bit of the
//! register untouched. The guard built on top of them (`acquire`/`release`,
//! and the scoped `free`) is the only sanctioned way to share memory with
//! exception handlers on the single core: releases must happen in strict
//! reverse order of acquisition, which the caller manages.

use vstd::prelude::*;

use crate::cpsr::Cpsr;

verus! {

/// The two interrupt mask bits of a status-register value.
pub open spec fn spec_mask_bits(bits: u32) -> u32 {
    bits & 0xC0
}

/// A status-register value with both mask bits set.
pub open spec fn spec_disable(bits: u32) -> u32 {
    bits | 0xC0
}

/// A status-register value with both mask bits clear.
pub open spec fn spec_enable(bits: u32) -> u32 {
    bits & !0xC0
}

/// A status-register value whose mask bits are replaced by those of
/// `state`; all other bits are kept.
pub open spec fn spec_restore(bits: u32, state: u32) -> u32 {
    (bits & !0xC0) | (state & 0xC0)
}

/// Disables both interrupt lines, returning the previous value of the two
/// mask bits.
pub fn disable(sr: &mut Cpsr) -> (prev: u32)
    ensures
        final(sr).spec_bits() == spec_disable(old(sr).spec_bits()),
        prev == spec_mask_bits(old(sr).spec_bits()),
{
    let bits: u32 = sr.bits();
    *sr = Cpsr::from_bits(bits | 0xC0);
    bits & 0xC0
}

/// Unconditionally clears both mask bits; the caller asserts that handlers
/// may now run.
pub fn enable(sr: &mut Cpsr)
    ensures
        final(sr).spec_bits() == spec_enable(old(sr).spec_bits()),
{
    let bits: u32 = sr.bits();
    *sr = Cpsr::from_bits(bits & !0xC0);
}

/// Sets the two mask bits to exactly `state`, leaving all other status bits
/// untouched.
pub fn restore(sr: &mut Cpsr, state: u32)
    ensures
        final(sr).spec_bits() == spec_restore(old(sr).spec_bits(), state),
{
    let bits: u32 = sr.bits();
    *sr = Cpsr::from_bits((bits & !0xC0) | (state & 0xC0));
}

/// `disable` always sets both mask bits, and `disable` immediately followed
/// by `restore` of the returned value leaves the register — in particular
/// its mask bits — exactly as it was before the `disable`.
pub proof fn lemma_disable_restore(bits: u32)
    ensures
        spec_mask_bits(spec_disable(bits)) == 0xC0,
        spec_restore(spec_disable(bits), spec_mask_bits(bits)) == bits,
{
    assert((bits | 0xC0) & 0xC0 == 0xC0) by (bit_vector);
    assert(((bits | 0xC0) & !0xC0) | ((bits & 0xC0) & 0xC0) == bits) by (bit_vector);
}

/// Opaque snapshot of the two mask bits; valid only to close the same
/// nesting level that produced it.
pub struct CsToken {
    state: u32,
}

impl CsToken {
    /// The mask-bit snapshot the token carries.
    pub closed spec fn spec_state(self) -> u32 {
        self.state
    }
}

/// Opens a critical section: masks both interrupt lines and snapshots their
/// prior state.
pub fn acquire(sr: &mut Cpsr) -> (token: CsToken)
    ensures
        final(sr).spec_bits() == spec_disable(old(sr).spec_bits()),
        token.spec_state() == spec_mask_bits(old(sr).spec_bits()),
{
    let state: u32 = disable(sr);
    CsToken { state }
}

/// Closes the critical section that produced `token`, restoring the mask
/// bits captured at the matching `acquire`. Releases must come in strict
/// reverse order of acquisition, or the mask state becomes incorrect.
pub fn release(sr: &mut Cpsr, token: CsToken)
    ensures
        final(sr).spec_bits() == spec_restore(old(sr).spec_bits(), token.spec_state()),
{
    restore(sr, token.state);
}

/// Runs `body` with both interrupt lines masked, restores the prior mask
/// state afterwards, and returns `body`'s result. The register is left
/// exactly as it was found.
pub fn free<R, F: FnOnce() -> R>(sr: &mut Cpsr, body: F) -> (r: R)
    requires
        call_requires(body, ()),
    ensures
        final(sr).spec_bits() == old(sr).spec_bits(),
        call_ensures(body, (), r),
{
    let state: u32 = disable(sr);
    let r = body();
    restore(sr, state);
    proof {
        lemma_disable_restore(old(sr).spec_bits());
    }
    r
}

} // verus!
