use vstd::prelude::*;

verus! {

/// `core::hint::spin_loop` tells the processor that the caller is busy
/// waiting. It takes nothing and returns nothing, and nothing is claimed of
/// it.
pub assume_specification[ core::hint::spin_loop ]();

/// Waits by spinning `cycles` times. How long that takes depends on the clock
/// of the device: the caller calibrates it.
pub fn busy_delay(cycles: u32) {
    for _turn in 0..cycles {
        core::hint::spin_loop();
    }
}

} // verus!
