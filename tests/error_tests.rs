use gbsd_kernel::error::{
    SystemError, CAP_DERIVE, CAP_DESTROY, CAP_EXECUTE, CAP_READ, CAP_RECEIVE, CAP_SEND,
    CAP_WRITE, E_ALIGN, E_CAP_INVALID, E_INVAL, E_INVALID_SYSCALL, E_NOMEM, E_NOT_OWNER,
    E_NO_RIGHTS, E_OK, E_PORT_FULL, E_PORT_INVALID, E_PROCESS_NOT_FOUND, SYS_CAP_MOVE,
    SYS_PORT_ALLOCATE, SYS_PORT_RECEIVE, SYS_PORT_SEND, SYS_SCHED_SPAWN, SYS_SCHED_SWITCH,
    SYS_SCHED_YIELD, SYS_TIME, SYS_VM_ALLOCATE, SYS_VM_DEALLOCATE,
};

#[test]
fn test_error_codes_are_unique() {
    let errors = [
        E_OK,
        E_PORT_INVALID,
        E_PORT_FULL,
        E_NO_RIGHTS,
        E_INVAL,
        E_NOMEM,
        E_CAP_INVALID,
        E_PROCESS_NOT_FOUND,
        E_NOT_OWNER,
        E_ALIGN,
        E_INVALID_SYSCALL,
    ];

    for i in 0..errors.len() {
        for j in (i + 1)..errors.len() {
            assert_ne!(
                errors[i], errors[j],
                "Error codes must be unique: {:x} == {:x}",
                errors[i], errors[j]
            );
        }
    }
}

#[test]
fn test_error_codes_are_non_zero() {
    assert_eq!(E_OK, 0, "E_OK must be 0");

    let errors = [
        E_PORT_INVALID,
        E_PORT_FULL,
        E_NO_RIGHTS,
        E_INVAL,
        E_NOMEM,
        E_CAP_INVALID,
        E_PROCESS_NOT_FOUND,
        E_NOT_OWNER,
        E_ALIGN,
        E_INVALID_SYSCALL,
    ];

    for error in errors.iter() {
        assert_ne!(*error, 0, "Error code must be non-zero: {:x}", *error);
    }
}

#[test]
fn test_error_format() {
    let errors = [
        E_PORT_INVALID,
        E_PORT_FULL,
        E_NO_RIGHTS,
        E_INVAL,
        E_NOMEM,
        E_CAP_INVALID,
        E_PROCESS_NOT_FOUND,
        E_NOT_OWNER,
        E_ALIGN,
        E_INVALID_SYSCALL,
    ];

    for error in errors.iter() {
        let upper = (error >> 32) as u32;
        assert_eq!(
            upper, 0xFFFFFFFF,
            "Error code upper bits must be 0xFFFFFFFF: {:x}",
            error
        );
    }
}

#[test]
fn test_syscall_numbers() {
    assert_eq!(SYS_PORT_ALLOCATE, 1);
    assert_eq!(SYS_PORT_SEND, 2);
    assert_eq!(SYS_PORT_RECEIVE, 3);
    assert_eq!(SYS_VM_ALLOCATE, 4);
    assert_eq!(SYS_VM_DEALLOCATE, 5);
    assert_eq!(SYS_CAP_MOVE, 6);
    assert_eq!(SYS_SCHED_SPAWN, 7);
    assert_eq!(SYS_SCHED_YIELD, 8);
    assert_eq!(SYS_SCHED_SWITCH, 9);
    assert_eq!(SYS_TIME, 10);
}

#[test]
fn test_capability_rights() {
    assert_eq!(CAP_SEND & CAP_RECEIVE, 0, "CAP rights must not overlap");
    assert_eq!(CAP_SEND & CAP_DESTROY, 0);
    assert_eq!(CAP_RECEIVE & CAP_DESTROY, 0);

    let rights = [
        CAP_SEND, CAP_RECEIVE, CAP_DESTROY, CAP_DERIVE, CAP_READ, CAP_WRITE, CAP_EXECUTE,
    ];

    for right in rights.iter() {
        assert!(right.count_ones() <= 1 || *right == 0, "Each right should be a single bit");
    }
}

#[test]
fn system_error_codes_match_constants() {
    let pairs = [
        (SystemError::Success, E_OK),
        (SystemError::PortInvalid, E_PORT_INVALID),
        (SystemError::PortFull, E_PORT_FULL),
        (SystemError::NoRights, E_NO_RIGHTS),
        (SystemError::Invalid, E_INVAL),
        (SystemError::NoMemory, E_NOMEM),
        (SystemError::CapabilityInvalid, E_CAP_INVALID),
        (SystemError::ProcessNotFound, E_PROCESS_NOT_FOUND),
        (SystemError::NotOwner, E_NOT_OWNER),
        (SystemError::Alignment, E_ALIGN),
        (SystemError::InvalidSyscall, E_INVALID_SYSCALL),
    ];
    for (e, code) in pairs.iter() {
        assert_eq!(e.as_u64(), *code);
    }
    assert_eq!(SystemError::InvalidSyscall.as_u64(), 0xFFFF_FFFF_0000_000A);
}

#[test]
fn every_error_code_has_upper_half_set() {
    let all = [
        SystemError::PortInvalid,
        SystemError::PortFull,
        SystemError::NoRights,
        SystemError::Invalid,
        SystemError::NoMemory,
        SystemError::CapabilityInvalid,
        SystemError::ProcessNotFound,
        SystemError::NotOwner,
        SystemError::Alignment,
        SystemError::InvalidSyscall,
    ];
    for e in all.iter() {
        assert_eq!(e.as_u64() >> 32, 0xFFFF_FFFF);
    }
    for i in 0..all.len() {
        for j in (i + 1)..all.len() {
            assert_ne!(all[i].as_u64(), all[j].as_u64());
        }
    }
}
