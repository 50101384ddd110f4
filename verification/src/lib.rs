//! Bare-metal runtime support for an ARM9-class processor.
//!
//! The crate models the low-level runtime layer of an interrupt-driven,
//! single-core system without hardware atomics: the status-register and
//! interrupt-mask primitives, a critical-section-guarded atomic emulation
//! layer, the fixed exception vector table and boot layout, and the
//! compile-time validation and stub planning that turn annotated function
//! declarations into entry-point and exception-handler trampolines with
//! exclusive access to their persistent state.

pub mod atomic;
pub mod cpsr;
pub mod frame;
pub mod interrupt;
pub mod stub;
pub mod timing;
pub mod validate;
pub mod vector;
