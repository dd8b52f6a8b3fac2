//! What the kernel does on each CPU exception vector.

use vstd::prelude::*;

verus! {

/// Vector of the breakpoint exception.
pub const BREAKPOINT_VECTOR: u8 = 3;

/// Vector of the double fault, which has no handler until it has a stack of its own.
pub const DOUBLE_FAULT_VECTOR: u8 = 8;

/// Vector of the machine check, whose handler never returns.
pub const MACHINE_CHECK_VECTOR: u8 = 18;

/// The response installed for an exception vector.
#[derive(Clone, Copy, Debug, PartialEq, Eq, Structural)]
pub enum ExceptionAction {
    /// Return to the interrupted code.
    Resume,
    /// Report the exception and stop the kernel.
    Halt,
}

/// Vectors 0 to 19 get a handler, except the double fault and the two
/// reserved vectors (9 and 15).
pub open spec fn has_handler(vector: u8) -> bool {
    vector < 20 && vector != DOUBLE_FAULT_VECTOR && vector != 9 && vector != 15
}

/// Which response the interrupt table installs for `vector`, if any: the
/// breakpoint resumes, every other handled vector halts the kernel.
pub fn exception_action(vector: u8) -> (r: Option<ExceptionAction>)
    ensures
        !has_handler(vector) ==> r is None,
        has_handler(vector) && vector == BREAKPOINT_VECTOR ==> r == Some(ExceptionAction::Resume),
        has_handler(vector) && vector != BREAKPOINT_VECTOR ==> r == Some(ExceptionAction::Halt),
{
    if vector >= 20 || vector == DOUBLE_FAULT_VECTOR || vector == 9 || vector == 15 {
        None
    } else if vector == BREAKPOINT_VECTOR {
        Some(ExceptionAction::Resume)
    } else {
        Some(ExceptionAction::Halt)
    }
}

} // verus!
