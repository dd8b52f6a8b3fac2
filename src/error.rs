//! Status codes returned by kernel calls, the call numbers, and the
//! capability right bits.

use vstd::prelude::*;

verus! {

/// Success, or a success payload of zero.
pub const E_OK: u64 = 0;

/// The named port does not exist (also the empty-queue indication of a receive).
pub const E_PORT_INVALID: u64 = 0xFFFF_FFFF_0000_0001;

/// The port's ring has no free slot.
pub const E_PORT_FULL: u64 = 0xFFFF_FFFF_0000_0002;

/// The caller lacks a required capability right.
pub const E_NO_RIGHTS: u64 = 0xFFFF_FFFF_0000_0003;

/// An argument is out of contract (size, range, null).
pub const E_INVAL: u64 = 0xFFFF_FFFF_0000_0004;

/// A resource is exhausted.
pub const E_NOMEM: u64 = 0xFFFF_FFFF_0000_0005;

/// The capability is missing or revoked.
pub const E_CAP_INVALID: u64 = 0xFFFF_FFFF_0000_0006;

/// The named process does not exist.
pub const E_PROCESS_NOT_FOUND: u64 = 0xFFFF_FFFF_0000_0007;

/// The caller does not own the resource.
pub const E_NOT_OWNER: u64 = 0xFFFF_FFFF_0000_0008;

/// The address is not aligned to 4 KiB.
pub const E_ALIGN: u64 = 0xFFFF_FFFF_0000_0009;

/// The call number is unknown.
pub const E_INVALID_SYSCALL: u64 = 0xFFFF_FFFF_0000_000A;

pub const SYS_PORT_ALLOCATE: u64 = 1;
pub const SYS_PORT_SEND: u64 = 2;
pub const SYS_PORT_RECEIVE: u64 = 3;
pub const SYS_VM_ALLOCATE: u64 = 4;
pub const SYS_VM_DEALLOCATE: u64 = 5;
pub const SYS_CAP_MOVE: u64 = 6;
pub const SYS_SCHED_SPAWN: u64 = 7;
pub const SYS_SCHED_YIELD: u64 = 8;
pub const SYS_SCHED_SWITCH: u64 = 9;
pub const SYS_TIME: u64 = 10;

pub const CAP_SEND: u32 = 1;
pub const CAP_RECEIVE: u32 = 2;
pub const CAP_DESTROY: u32 = 4;
pub const CAP_DERIVE: u32 = 8;
pub const CAP_READ: u32 = 16;
pub const CAP_WRITE: u32 = 32;
pub const CAP_EXECUTE: u32 = 64;

/// The outcomes a kernel call can report, as a sum type; the numeric codes
/// matter only at the call boundary.
#[derive(Clone, Copy, Debug, PartialEq, Eq, Structural)]
pub enum SystemError {
    Success,
    PortInvalid,
    PortFull,
    NoRights,
    Invalid,
    NoMemory,
    CapabilityInvalid,
    ProcessNotFound,
    NotOwner,
    Alignment,
    InvalidSyscall,
}

/// The stable 64-bit code of each outcome.
pub open spec fn error_code(e: SystemError) -> u64 {
    match e {
        SystemError::Success => E_OK,
        SystemError::PortInvalid => E_PORT_INVALID,
        SystemError::PortFull => E_PORT_FULL,
        SystemError::NoRights => E_NO_RIGHTS,
        SystemError::Invalid => E_INVAL,
        SystemError::NoMemory => E_NOMEM,
        SystemError::CapabilityInvalid => E_CAP_INVALID,
        SystemError::ProcessNotFound => E_PROCESS_NOT_FOUND,
        SystemError::NotOwner => E_NOT_OWNER,
        SystemError::Alignment => E_ALIGN,
        SystemError::InvalidSyscall => E_INVALID_SYSCALL,
    }
}

/// A value that a kernel call returns is an error code when its upper half
/// is all ones.
pub open spec fn is_error_code(code: u64) -> bool {
    code >> 32u64 == 0xFFFF_FFFFu64
}

impl SystemError {
    pub fn as_u64(&self) -> (r: u64)
        ensures
            r == error_code(*self),
    {
        match self {
            SystemError::Success => E_OK,
            SystemError::PortInvalid => E_PORT_INVALID,
            SystemError::PortFull => E_PORT_FULL,
            SystemError::NoRights => E_NO_RIGHTS,
            SystemError::Invalid => E_INVAL,
            SystemError::NoMemory => E_NOMEM,
            SystemError::CapabilityInvalid => E_CAP_INVALID,
            SystemError::ProcessNotFound => E_PROCESS_NOT_FOUND,
            SystemError::NotOwner => E_NOT_OWNER,
            SystemError::Alignment => E_ALIGN,
            SystemError::InvalidSyscall => E_INVALID_SYSCALL,
        }
    }
}

/// Every code other than success carries the all-ones upper half, and the
/// success code does not.
pub proof fn lemma_error_code_pattern(e: SystemError)
    ensures
        e != SystemError::Success ==> is_error_code(error_code(e)),
        e == SystemError::Success ==> error_code(e) == 0 && !is_error_code(error_code(e)),
{
    assert(forall|x: u64|
        0xFFFF_FFFF_0000_0001u64 <= x <= 0xFFFF_FFFF_0000_000Au64 ==> x >> 32u64 == 0xFFFF_FFFFu64)
        by (bit_vector);
    assert(0u64 >> 32u64 == 0u64) by (bit_vector);
}

/// Distinct outcomes have distinct codes.
pub proof fn lemma_error_codes_distinct(a: SystemError, b: SystemError)
    ensures
        a != b ==> error_code(a) != error_code(b),
{
}

} // verus!
