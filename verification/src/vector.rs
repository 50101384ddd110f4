//! The fixed exception vector table, the boot-image layout and the reset
//! sequence.
//!
//! The hardware consults eight consecutive 4-byte slots at the lowest
//! addresses: reset, the six exception kinds and one reserved slot. The
//! table is not relocated. The boot image begins with a fixed vendor header,
//! followed by a range reserved for hardware-written metadata that must hold
//! no code; user code and the hardware jump target start right after it.

use vstd::prelude::*;

use vstd::pervasive::VecAdditionalExecFns;

use crate::cpsr::Mode;

verus! {

/// Byte offset of the reset slot in the vector table.
pub const RESET_VECTOR_OFFSET: u32 = 0x00;

/// Byte offset of the reserved slot in the vector table.
pub const RESERVED_VECTOR_OFFSET: u32 = 0x14;

/// Number of bytes the vendor boot header occupies at the start of the
/// image.
pub const VENDOR_HEADER_LEN: u32 = 0x20;

/// First byte past the hardware-written metadata range; user code and the
/// hardware jump target begin here.
pub const USER_CODE_OFFSET: u32 = 0x30;

/// The six exception kinds, each with exactly one active handler.
#[derive(Clone, Copy, Debug, PartialEq, Eq, Structural)]
pub enum ExceptionKind {
    /// Undefined instruction.
    Undefined,
    /// Software interrupt.
    Swi,
    /// Prefetch abort.
    PrefetchAbort,
    /// Data abort.
    DataAbort,
    /// Normal interrupt request.
    Irq,
    /// Fast interrupt request.
    Fiq,
}

impl ExceptionKind {
    /// Byte offset of this kind's slot in the vector table.
    pub open spec fn spec_vector_offset(self) -> u32 {
        match self {
            ExceptionKind::Undefined => 0x04,
            ExceptionKind::Swi => 0x08,
            ExceptionKind::PrefetchAbort => 0x0C,
            ExceptionKind::DataAbort => 0x10,
            ExceptionKind::Irq => 0x18,
            ExceptionKind::Fiq => 0x1C,
        }
    }

    /// Byte offset of this kind's slot in the vector table.
    pub fn vector_offset(self) -> (r: u32)
        ensures
            r == self.spec_vector_offset(),
    {
        match self {
            ExceptionKind::Undefined => 0x04,
            ExceptionKind::Swi => 0x08,
            ExceptionKind::PrefetchAbort => 0x0C,
            ExceptionKind::DataAbort => 0x10,
            ExceptionKind::Irq => 0x18,
            ExceptionKind::Fiq => 0x1C,
        }
    }

    /// The external symbol the trampoline of this kind is exported under,
    /// which is also the declared name the validator recognizes.
    pub open spec fn spec_symbol(self) -> Seq<char> {
        match self {
            ExceptionKind::Undefined => "Undefined"@,
            ExceptionKind::Swi => "SWI"@,
            ExceptionKind::PrefetchAbort => "PrefetchAbort"@,
            ExceptionKind::DataAbort => "DataAbort"@,
            ExceptionKind::Irq => "IRQ"@,
            ExceptionKind::Fiq => "FIQ"@,
        }
    }

    /// The external symbol the trampoline of this kind is exported under.
    pub fn symbol(self) -> (s: String)
        ensures
            s@ == self.spec_symbol(),
    {
        match self {
            ExceptionKind::Undefined => "Undefined".to_owned(),
            ExceptionKind::Swi => "SWI".to_owned(),
            ExceptionKind::PrefetchAbort => "PrefetchAbort".to_owned(),
            ExceptionKind::DataAbort => "DataAbort".to_owned(),
            ExceptionKind::Irq => "IRQ".to_owned(),
            ExceptionKind::Fiq => "FIQ".to_owned(),
        }
    }

    /// The kind whose recognized name is `name`, if any.
    pub open spec fn spec_of_name(name: Seq<char>) -> Option<ExceptionKind> {
        if name == "Undefined"@ {
            Some(ExceptionKind::Undefined)
        } else if name == "SWI"@ {
            Some(ExceptionKind::Swi)
        } else if name == "PrefetchAbort"@ {
            Some(ExceptionKind::PrefetchAbort)
        } else if name == "DataAbort"@ {
            Some(ExceptionKind::DataAbort)
        } else if name == "IRQ"@ {
            Some(ExceptionKind::Irq)
        } else if name == "FIQ"@ {
            Some(ExceptionKind::Fiq)
        } else {
            None
        }
    }

    /// The kind whose recognized name is `name`, if any.
    pub fn of_name(name: &String) -> (r: Option<ExceptionKind>)
        ensures
            r == ExceptionKind::spec_of_name(name@),
    {
        if string_eq_literal(name, "Undefined") {
            Some(ExceptionKind::Undefined)
        } else if string_eq_literal(name, "SWI") {
            Some(ExceptionKind::Swi)
        } else if string_eq_literal(name, "PrefetchAbort") {
            Some(ExceptionKind::PrefetchAbort)
        } else if string_eq_literal(name, "DataAbort") {
            Some(ExceptionKind::DataAbort)
        } else if string_eq_literal(name, "IRQ") {
            Some(ExceptionKind::Irq)
        } else if string_eq_literal(name, "FIQ") {
            Some(ExceptionKind::Fiq)
        } else {
            None
        }
    }
}

/// True exactly when `s` spells the same characters as `lit`.
pub fn string_eq_literal(s: &String, lit: &str) -> (r: bool)
    ensures
        r == (s@ == lit@),
{
    let other: String = lit.to_owned();
    s.eq(&other)
}

/// The handler overrides the integrator supplies; a kind left `None` falls
/// back to the default trap handler.
pub struct HandlerOverrides {
    /// Handler address for undefined-instruction exceptions, if overridden.
    pub undefined: Option<u32>,
    /// Handler address for software interrupts, if overridden.
    pub swi: Option<u32>,
    /// Handler address for prefetch aborts, if overridden.
    pub prefetch_abort: Option<u32>,
    /// Handler address for data aborts, if overridden.
    pub data_abort: Option<u32>,
    /// Handler address for normal interrupts, if overridden.
    pub irq: Option<u32>,
    /// Handler address for fast interrupts, if overridden.
    pub fiq: Option<u32>,
}

impl HandlerOverrides {
    /// The override recorded for `kind`, if any.
    pub open spec fn spec_of(self, kind: ExceptionKind) -> Option<u32> {
        match kind {
            ExceptionKind::Undefined => self.undefined,
            ExceptionKind::Swi => self.swi,
            ExceptionKind::PrefetchAbort => self.prefetch_abort,
            ExceptionKind::DataAbort => self.data_abort,
            ExceptionKind::Irq => self.irq,
            ExceptionKind::Fiq => self.fiq,
        }
    }
}

/// The eight absolute handler addresses of the vector table, in slot order.
pub struct VectorTable {
    /// Address jumped to on reset (offset 0x00).
    pub reset: u32,
    /// Undefined-instruction handler (offset 0x04).
    pub undefined: u32,
    /// Software-interrupt handler (offset 0x08).
    pub swi: u32,
    /// Prefetch-abort handler (offset 0x0C).
    pub prefetch_abort: u32,
    /// Data-abort handler (offset 0x10).
    pub data_abort: u32,
    /// The reserved slot (offset 0x14).
    pub reserved: u32,
    /// Normal-interrupt handler (offset 0x18).
    pub irq: u32,
    /// Fast-interrupt handler (offset 0x1C).
    pub fiq: u32,
}

impl VectorTable {
    /// The handler address of `kind`'s slot.
    pub open spec fn spec_handler(self, kind: ExceptionKind) -> u32 {
        match kind {
            ExceptionKind::Undefined => self.undefined,
            ExceptionKind::Swi => self.swi,
            ExceptionKind::PrefetchAbort => self.prefetch_abort,
            ExceptionKind::DataAbort => self.data_abort,
            ExceptionKind::Irq => self.irq,
            ExceptionKind::Fiq => self.fiq,
        }
    }

    /// Builds the table: the reset slot takes `reset`, each exception slot
    /// takes its override or else the default trap handler — never a
    /// silently-resuming value — and the reserved slot holds zero.
    pub fn build(reset: u32, overrides: &HandlerOverrides, default_trap: u32) -> (t: VectorTable)
        ensures
            t.reset == reset,
            t.reserved == 0,
            forall|k: ExceptionKind|
                t.spec_handler(k) == match overrides.spec_of(k) {
                    Some(a) => a,
                    None => default_trap,
                },
    {
        let t = VectorTable {
            reset,
            undefined: match overrides.undefined {
                Some(a) => a,
                None => default_trap,
            },
            swi: match overrides.swi {
                Some(a) => a,
                None => default_trap,
            },
            prefetch_abort: match overrides.prefetch_abort {
                Some(a) => a,
                None => default_trap,
            },
            data_abort: match overrides.data_abort {
                Some(a) => a,
                None => default_trap,
            },
            reserved: 0,
            irq: match overrides.irq {
                Some(a) => a,
                None => default_trap,
            },
            fiq: match overrides.fiq {
                Some(a) => a,
                None => default_trap,
            },
        };
        proof {
            assert forall|k: ExceptionKind|
                t.spec_handler(k) == match overrides.spec_of(k) {
                    Some(a) => a,
                    None => default_trap,
                } by {
                match k {
                    ExceptionKind::Undefined => {},
                    ExceptionKind::Swi => {},
                    ExceptionKind::PrefetchAbort => {},
                    ExceptionKind::DataAbort => {},
                    ExceptionKind::Irq => {},
                    ExceptionKind::Fiq => {},
                }
            }
        }
        t
    }

    /// The word stored at byte offset `offset`, if that offset is one of the
    /// eight fixed slots.
    pub fn slot_at(&self, offset: u32) -> (r: Option<u32>)
        ensures
            r == if offset == 0x00 {
                Some(self.reset)
            } else if offset == 0x04 {
                Some(self.undefined)
            } else if offset == 0x08 {
                Some(self.swi)
            } else if offset == 0x0C {
                Some(self.prefetch_abort)
            } else if offset == 0x10 {
                Some(self.data_abort)
            } else if offset == 0x14 {
                Some(self.reserved)
            } else if offset == 0x18 {
                Some(self.irq)
            } else if offset == 0x1C {
                Some(self.fiq)
            } else {
                None::<u32>
            },
    {
        if offset == 0x00 {
            Some(self.reset)
        } else if offset == 0x04 {
            Some(self.undefined)
        } else if offset == 0x08 {
            Some(self.swi)
        } else if offset == 0x0C {
            Some(self.prefetch_abort)
        } else if offset == 0x10 {
            Some(self.data_abort)
        } else if offset == 0x14 {
            Some(self.reserved)
        } else if offset == 0x18 {
            Some(self.irq)
        } else if offset == 0x1C {
            Some(self.fiq)
        } else {
            None
        }
    }

    /// The eight slot words in ascending offset order, as laid out in
    /// memory.
    pub fn words(&self) -> (w: Vec<u32>)
        ensures
            w@ =~= seq![
                self.reset,
                self.undefined,
                self.swi,
                self.prefetch_abort,
                self.data_abort,
                self.reserved,
                self.irq,
                self.fiq,
            ],
    {
        let mut w: Vec<u32> = Vec::new();
        w.push(self.reset);
        w.push(self.undefined);
        w.push(self.swi);
        w.push(self.prefetch_abort);
        w.push(self.data_abort);
        w.push(self.reserved);
        w.push(self.irq);
        w.push(self.fiq);
        w
    }
}

/// The integrator-supplied top-of-region addresses, one per banked stack.
pub struct ModeStacks {
    /// Top of the FIQ-mode stack.
    pub fiq_top: u32,
    /// Top of the IRQ-mode stack.
    pub irq_top: u32,
    /// Top of the abort-mode stack.
    pub abort_top: u32,
    /// Top of the undefined-mode stack.
    pub undefined_top: u32,
    /// Top of the supervisor-mode stack.
    pub supervisor_top: u32,
    /// Top of the system-mode stack.
    pub system_top: u32,
}

impl ModeStacks {
    /// The stack-pointer value installed for `mode` at boot. User mode
    /// shares the system bank, so both map to the system top.
    pub open spec fn spec_top_for(self, mode: Mode) -> u32 {
        match mode {
            Mode::Fiq => self.fiq_top,
            Mode::Irq => self.irq_top,
            Mode::Abort => self.abort_top,
            Mode::Undefined => self.undefined_top,
            Mode::Supervisor => self.supervisor_top,
            Mode::System => self.system_top,
            Mode::User => self.system_top,
        }
    }

    /// The stack-pointer value installed for `mode` at boot.
    pub fn top_for(&self, mode: Mode) -> (r: u32)
        ensures
            r == self.spec_top_for(mode),
    {
        match mode {
            Mode::Fiq => self.fiq_top,
            Mode::Irq => self.irq_top,
            Mode::Abort => self.abort_top,
            Mode::Undefined => self.undefined_top,
            Mode::Supervisor => self.supervisor_top,
            Mode::System => self.system_top,
            Mode::User => self.system_top,
        }
    }
}

/// The strictly ordered steps of the reset sequence. An entry point that
/// returns despite its contract resolves to the terminal spin, as does any
/// exception without an override.
#[derive(Clone, Copy, Debug, PartialEq, Eq, Structural)]
pub enum ResetStep {
    /// Mask both interrupt lines in the status register.
    MaskInterrupts,
    /// Clear the vector-relocation control bit, keeping the table at the
    /// lowest addresses.
    ClearVectorRelocation,
    /// Initialize the six banked stack pointers from the integrator-supplied
    /// tops.
    InitStackPointers,
    /// Invoke the user-overridable pre-init hook.
    PreInit,
    /// Zero-fill the uninitialized-data region.
    ZeroFillBss,
    /// Copy the initialized-data region from its image location to its
    /// runtime location.
    CopyData,
    /// Transfer control to the entry-point symbol.
    CallEntry,
    /// Spin indefinitely if the entry point ever returns.
    SpinForever,
}

/// The reset sequence in its mandatory order.
pub fn reset_sequence() -> (steps: Vec<ResetStep>)
    ensures
        steps@ =~= seq![
            ResetStep::MaskInterrupts,
            ResetStep::ClearVectorRelocation,
            ResetStep::InitStackPointers,
            ResetStep::PreInit,
            ResetStep::ZeroFillBss,
            ResetStep::CopyData,
            ResetStep::CallEntry,
            ResetStep::SpinForever,
        ],
{
    let mut steps: Vec<ResetStep> = Vec::new();
    steps.push(ResetStep::MaskInterrupts);
    steps.push(ResetStep::ClearVectorRelocation);
    steps.push(ResetStep::InitStackPointers);
    steps.push(ResetStep::PreInit);
    steps.push(ResetStep::ZeroFillBss);
    steps.push(ResetStep::CopyData);
    steps.push(ResetStep::CallEntry);
    steps.push(ResetStep::SpinForever);
    steps
}

/// Zero-fills the uninitialized-data region, as the reset sequence does
/// before any user code runs.
pub fn zero_fill(region: &mut Vec<u8>)
    ensures
        final(region).len() == old(region).len(),
        forall|i: int| 0 <= i < final(region)@.len() ==> final(region)@[i] == 0,
{
    let n: usize = region.len();
    let mut i: usize = 0;
    while i < n
        invariant
            n == region.len(),
            i <= n,
            forall|j: int| 0 <= j < i ==> region@[j] == 0,
        decreases n - i,
    {
        region.set(i, 0);
        i += 1;
    }
}

/// Copies the initialized-data region from its image location to its
/// runtime location.
pub fn copy_region(dst: &mut Vec<u8>, src: &Vec<u8>)
    requires
        old(dst).len() == src.len(),
    ensures
        final(dst)@ == src@,
{
    let n: usize = src.len();
    let mut i: usize = 0;
    while i < n
        invariant
            n == src.len(),
            dst.len() == src.len(),
            i <= n,
            forall|j: int| 0 <= j < i ==> dst@[j] == src@[j],
        decreases n - i,
    {
        region_copy_step(dst, src, i);
        i += 1;
    }
    proof {
        assert(dst@ =~= src@);
    }
}

fn region_copy_step(dst: &mut Vec<u8>, src: &Vec<u8>, i: usize)
    requires
        old(dst).len() == src.len(),
        i < src.len(),
    ensures
        final(dst)@ == old(dst)@.update(i as int, src@[i as int]),
{
    let b: u8 = src[i];
    dst.set(i, b);
}

} // verus!
