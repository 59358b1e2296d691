//! Decoding and encoding of the call gate.

use svruntime::sbi::{
    capsule_getc, capsule_getc_request, capsule_putc, exit, getc, getc_request, hypervisor_getc,
    hypervisor_getc_request, is_diosix, probe_request, putc, register_service, restart, shutdown,
    unit_result, yield_core, DiosixServiceType, Error, SyscallResult, SBI_EXT_SYS_RESET_REASON,
};

#[test]
fn decode_denied_discards_values() {
    let reply = SyscallResult::new(-4, 7, 9);
    assert_eq!(reply.get(), Err(Error::AccessDenied));
}

#[test]
fn decode_success_keeps_both_values() {
    let reply = SyscallResult::new(0, 3, 5);
    assert_eq!(reply.get(), Ok([3, 5]));
}

#[test]
fn decode_unknown_code_is_other() {
    let reply = SyscallResult::new(-99, 1, 2);
    assert_eq!(reply.get(), Err(Error::Other(-99)));
}

#[test]
fn decode_whole_error_table() {
    assert_eq!(SyscallResult::new(-1, 0, 0).get(), Err(Error::Failed));
    assert_eq!(SyscallResult::new(-2, 0, 0).get(), Err(Error::NotSupported));
    assert_eq!(SyscallResult::new(-3, 0, 0).get(), Err(Error::InvalidParams));
    assert_eq!(SyscallResult::new(-4, 0, 0).get(), Err(Error::AccessDenied));
    assert_eq!(SyscallResult::new(-5, 0, 0).get(), Err(Error::InvalidAddress));
    assert_eq!(SyscallResult::new(-6, 0, 0).get(), Err(Error::AlreadyAvailable));
    assert_eq!(SyscallResult::new(-7, 0, 0).get(), Err(Error::Other(-7)));
}

#[test]
fn raw_error_value_is_passed_through() {
    assert_eq!(SyscallResult::new(-4, 7, 9).get_error_value(), -4);
    assert_eq!(SyscallResult::new(0, 0, 0).get_error_value(), 0);
}

#[test]
fn getc_minus_one_means_no_character() {
    let reply = SyscallResult::new(-1, 0, 0);
    assert_eq!(getc(&reply), Err(Error::Failed));
}

#[test]
fn getc_error_field_doubles_as_character() {
    // the error field carries the character in this one call
    assert_eq!(getc(&SyscallResult::new(0, 0, 0)), Ok('\u{0}'));
    assert_eq!(getc(&SyscallResult::new(255, 0, 0)), Ok('\u{ff}'));
    assert_eq!(getc(&SyscallResult::new(65, 0, 0)), Ok('A'));
}

#[test]
fn getc_request_names_the_legacy_call() {
    let q = getc_request();
    assert_eq!(q.extension, 0x2);
    assert_eq!(q.function, 0x0);
}

#[test]
fn probe_request_names_the_base_extension() {
    let q = probe_request();
    assert_eq!(q.extension, 0x10);
    assert_eq!(q.function, 1);
}

#[test]
fn is_diosix_wants_success_and_matching_id() {
    assert!(is_diosix(&SyscallResult::new(0, 5, 0)));
    assert!(!is_diosix(&SyscallResult::new(0, 4, 0)));
    assert!(!is_diosix(&SyscallResult::new(-2, 5, 0)));
    assert!(!is_diosix(&SyscallResult::new(-1, 5, 0)));
}

#[test]
fn putc_encodes_the_character() {
    let q = putc('A');
    assert_eq!(q.extension, 0x1);
    assert_eq!(q.function, 0x0);
    assert_eq!(q.param0, 65);
    assert_eq!(q.param1, 0);
}

#[test]
fn unit_result_decodes_ok_and_errors() {
    assert_eq!(unit_result(&SyscallResult::new(0, 1, 2)), Ok(()));
    assert_eq!(unit_result(&SyscallResult::new(-1, 0, 0)), Err(Error::Failed));
    assert_eq!(unit_result(&SyscallResult::new(-2, 0, 0)), Err(Error::NotSupported));
}

#[test]
fn shutdown_encodes_reset_reason() {
    let q = shutdown(SBI_EXT_SYS_RESET_REASON::NoReason);
    assert_eq!(q.extension, 0x53525354);
    assert_eq!(q.function, 0);
    assert_eq!(q.param0, 0);
    assert_eq!(q.param1, 0);
    let q = shutdown(SBI_EXT_SYS_RESET_REASON::SystemFailure);
    assert_eq!(q.param0, 0);
    assert_eq!(q.param1, 1);
}

#[test]
fn exit_maps_code_to_reason() {
    assert_eq!(exit(0), shutdown(SBI_EXT_SYS_RESET_REASON::NoReason));
    assert_eq!(exit(1), shutdown(SBI_EXT_SYS_RESET_REASON::SystemFailure));
    assert_eq!(exit(42), shutdown(SBI_EXT_SYS_RESET_REASON::SystemFailure));
}

#[test]
fn restart_encodes_cold_reboot() {
    let q = restart(SBI_EXT_SYS_RESET_REASON::SystemFailure);
    assert_eq!(q.extension, 0x53525354);
    assert_eq!(q.function, 0);
    assert_eq!(q.param0, 1);
    assert_eq!(q.param1, 1);
}

#[test]
fn yield_core_names_the_host_extension() {
    let q = yield_core();
    assert_eq!(q.extension, 0x0A000005);
    assert_eq!(q.function, 0);
}

#[test]
fn register_service_encodes_the_role() {
    let q = register_service(DiosixServiceType::ConsoleInterface);
    assert_eq!(q.extension, 0x0A000005);
    assert_eq!(q.function, 1);
    assert_eq!(q.param0, 0);
}

#[test]
fn capsule_putc_encodes_char_and_peer() {
    let q = capsule_putc('z', 17);
    assert_eq!(q.extension, 0x0A000005);
    assert_eq!(q.function, 2);
    assert_eq!(q.param0, 122);
    assert_eq!(q.param1, 17);
}

#[test]
fn capsule_getc_decodes_char_and_peer() {
    let q = capsule_getc_request();
    assert_eq!(q.extension, 0x0A000005);
    assert_eq!(q.function, 3);
    let got = capsule_getc(&SyscallResult::new(0, 0x141, 9)).unwrap();
    // only the low eight bits are the character
    assert_eq!(got.get_char(), '\u{41}');
    assert_eq!(got.get_capsule_id(), 9);
    assert_eq!(
        capsule_getc(&SyscallResult::new(-4, 0, 0)),
        Err(Error::AccessDenied)
    );
}

#[test]
fn hypervisor_getc_decodes_low_byte() {
    let q = hypervisor_getc_request();
    assert_eq!(q.extension, 0x0A000005);
    assert_eq!(q.function, 4);
    assert_eq!(hypervisor_getc(&SyscallResult::new(0, 0x342, 0)), Ok('B'));
    assert_eq!(
        hypervisor_getc(&SyscallResult::new(-2, 0, 0)),
        Err(Error::NotSupported)
    );
}
