use vstd::prelude::*;

verus! {

/// The traced workload's even step: with `arg1` set, the successor of `arg0`;
/// otherwise zero.
pub fn even(arg0: i32, arg1: bool) -> (r: i32)
    requires
        arg1 ==> arg0 < i32::MAX,
    ensures
        r == (if arg1 {
            arg0 + 1
        } else {
            0
        }),
{
    if arg1 {
        arg0 + 1
    } else {
        0
    }
}

/// The traced workload's odd step, which computes nothing: only its event is observed.
pub fn odd() {
}

} // verus!
