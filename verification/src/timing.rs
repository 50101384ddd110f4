//! A coarse busy-wait delay.

use vstd::prelude::*;

verus! {

/// Relies on `core::hint::spin_loop`: a scheduling hint with no effect on
/// any value; nothing is stated of it.
#[verifier::external_body]
fn relax() {
    core::hint::spin_loop();
}

/// Busy-waits for roughly `cycles` processor cycles, four per iteration.
pub fn delay(cycles: u32) {
    let iterations: u32 = cycles / 4;
    let mut i: u32 = 0;
    while i < iterations
        invariant
            i <= iterations,
        decreases iterations - i,
    {
        relax();
        i = i + 1;
    }
}

} // verus!
