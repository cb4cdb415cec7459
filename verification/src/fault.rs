use vstd::prelude::*;

verus! {

/// What a program does once it has met a fault from which it cannot recover:
/// it halts, touches no register and never resumes. The halt loop of the
/// program asks on every turn whether to resume, and the answer is always no.
pub fn panic() -> (resume: bool)
    ensures
        !resume,
{
    false
}

} // verus!
