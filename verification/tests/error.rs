use windows_kernel_rs::error::{
    Error, IntoResult, STATUS_ACCESS_VIOLATION, STATUS_END_OF_FILE, STATUS_INSUFFICIENT_RESOURCES,
    STATUS_INVALID_PARAMETER, STATUS_INVALID_USER_BUFFER, STATUS_NOT_IMPLEMENTED, STATUS_SUCCESS,
    STATUS_UNSUCCESSFUL,
};

#[test]
fn status_codes_are_those_of_the_host() {
    assert_eq!(STATUS_SUCCESS, 0);
    assert_eq!(STATUS_UNSUCCESSFUL as u32, 0xC000_0001);
    assert_eq!(STATUS_NOT_IMPLEMENTED as u32, 0xC000_0002);
    assert_eq!(STATUS_ACCESS_VIOLATION as u32, 0xC000_0005);
    assert_eq!(STATUS_INVALID_PARAMETER as u32, 0xC000_000D);
    assert_eq!(STATUS_END_OF_FILE as u32, 0xC000_0011);
    assert_eq!(STATUS_INSUFFICIENT_RESOURCES as u32, 0xC000_009A);
    assert_eq!(STATUS_INVALID_USER_BUFFER as u32, 0xC000_00E8);
}

#[test]
fn named_errors_carry_their_status() {
    assert_eq!(Error::unsuccessful().to_ntstatus(), STATUS_UNSUCCESSFUL);
    assert_eq!(Error::not_implemented().to_ntstatus(), STATUS_NOT_IMPLEMENTED);
    assert_eq!(Error::access_violation().to_ntstatus(), STATUS_ACCESS_VIOLATION);
    assert_eq!(Error::invalid_parameter().to_ntstatus(), STATUS_INVALID_PARAMETER);
    assert_eq!(Error::end_of_file().to_ntstatus(), STATUS_END_OF_FILE);
    assert_eq!(Error::insufficient_resources().to_ntstatus(), STATUS_INSUFFICIENT_RESOURCES);
    assert_eq!(Error::invalid_user_buffer().to_ntstatus(), STATUS_INVALID_USER_BUFFER);
    assert_eq!(Error::guard_page_violation().to_ntstatus() as u32, 0x8000_0001);
    assert_eq!(Error::stack_overflow().to_ntstatus() as u32, 0xC000_00FD);
}

#[test]
fn raw_status_passes_through() {
    let status = 0xC000_0123_u32 as i32;
    let error = Error::from_ntstatus(status);
    assert_eq!(error.to_ntstatus(), status);
    assert_eq!(error, Error(status));
    assert_eq!(Error::from_ntstatus(STATUS_END_OF_FILE), Error::end_of_file());
}

#[test]
fn into_result_tells_success_from_failure() {
    assert_eq!(STATUS_SUCCESS.into_result(), Ok(()));
    assert_eq!(STATUS_INVALID_PARAMETER.into_result(), Err(Error::invalid_parameter()));
    assert_eq!(1.into_result(), Err(Error(1)));
    assert_eq!((-1).into_result(), Err(Error(-1)));
}
