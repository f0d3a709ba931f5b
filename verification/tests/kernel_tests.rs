use winsafe::co;
use winsafe::handles::{CloseHandleGuard, HACCESSTOKEN, HCURSOR, Handle};
use winsafe::handles::{ptr_to_option_handle, ptr_to_sysresult_handle};
use winsafe::kernel::{ERROR, IS_INTRESOURCE, MAKEINTRESOURCE};
use winsafe::kernel::{bool_to_sysresult, error_to_sysresult, minus1_as_error, ptr_to_sysresult};
use winsafe::kernel::str_to_iso88591;
use winsafe::advapi::{TOKEN, advapi_Hprocess};
use winsafe::handles::HPROCESS;
use winsafe::user::{OCR, user_Hcursor};

#[test]
fn bool_zero_is_last_error() {
    assert_eq!(bool_to_sysresult(0, ERROR(5)), Err(ERROR(5)));
}

#[test]
fn bool_nonzero_is_ok() {
    assert_eq!(bool_to_sysresult(1, ERROR(5)), Ok(()));
    assert_eq!(bool_to_sysresult(-1, ERROR(5)), Ok(()));
}

#[test]
fn null_ptr_is_last_error() {
    assert_eq!(ptr_to_sysresult(0, ERROR(6)), Err(ERROR(6)));
}

#[test]
fn nonnull_ptr_is_itself() {
    assert_eq!(ptr_to_sysresult(0x1234, ERROR(6)), Ok(0x1234));
}

#[test]
fn status_zero_is_ok() {
    assert_eq!(error_to_sysresult(0), Ok(()));
}

#[test]
fn status_code_is_the_error() {
    assert_eq!(error_to_sysresult(5), Err(ERROR(5)));
}

#[test]
fn all_ones_is_last_error() {
    assert_eq!(minus1_as_error(u32::MAX, ERROR(87)), Err(ERROR(87)));
    assert_eq!(minus1_as_error(42, ERROR(87)), Ok(42));
}

#[test]
fn small_values_are_int_resources() {
    assert!(IS_INTRESOURCE(0xFFFF));
    assert!(!IS_INTRESOURCE(0x1_0000));
}

#[test]
fn make_int_resource_keeps_low_bits() {
    assert_eq!(MAKEINTRESOURCE(5), 5);
    assert_eq!(MAKEINTRESOURCE(0x12_0007), 7);
}

#[test]
fn iso88591_takes_low_bytes_and_terminates() {
    let bytes = str_to_iso88591("Ab\u{e9}\u{100}");
    assert_eq!(bytes, vec![0x41, 0x62, 0xE9, 0x00, 0x00]);
}

#[test]
fn iso88591_of_empty_is_one_null() {
    assert_eq!(str_to_iso88591(""), vec![0u8]);
}

#[test]
fn handle_results() {
    let ok: Result<HCURSOR, ERROR> = ptr_to_sysresult_handle(7, ERROR(2));
    assert_eq!(ok.unwrap().as_ptr(), 7);
    let err: Result<HCURSOR, ERROR> = ptr_to_sysresult_handle(0, ERROR(2));
    assert_eq!(err.unwrap_err(), ERROR(2));
    let some: Option<HCURSOR> = ptr_to_option_handle(9);
    assert_eq!(some.unwrap().as_ptr(), 9);
    let none: Option<HCURSOR> = ptr_to_option_handle(0);
    assert!(none.is_none());
}

#[test]
fn guard_releases_exactly_once() {
    let mut g = CloseHandleGuard::new(HACCESSTOKEN::from_ptr(0x40));
    assert_eq!(g.handle().as_ptr(), 0x40);
    let first = g.release();
    assert_eq!(first.unwrap().as_ptr(), 0x40);
    assert_eq!(g.handle().as_ptr(), usize::MAX);
    let second = g.release();
    assert!(second.is_none());
    assert_eq!(g.handle().as_ptr(), usize::MAX);
}

#[test]
fn open_process_token_translates_both_ways() {
    let p = HPROCESS::from_ptr(0x10);
    let ok = p.OpenProcessToken(TOKEN(0x0008), 1, 0x99, ERROR(0));
    assert_eq!(ok.unwrap().handle().as_ptr(), 0x99);
    let err = p.OpenProcessToken(TOKEN(0x0008), 0, 0, ERROR(5));
    match err {
        Ok(_) => panic!("a zero return must fail"),
        Err(e) => assert_eq!(e, ERROR(5)),
    }
}

#[test]
fn destroy_cursor_always_invalidates() {
    let mut c = HCURSOR::from_ptr(0x77);
    assert_eq!(c.DestroyCursor(1, ERROR(0)), Ok(()));
    assert_eq!(c.as_ptr(), usize::MAX);

    let mut c2 = HCURSOR::from_ptr(0x78);
    assert_eq!(c2.DestroyCursor(0, ERROR(6)), Err(ERROR(6)));
    assert_eq!(c2.as_ptr(), usize::MAX);
}

#[test]
fn copy_and_set_system_cursor() {
    let c = HCURSOR::from_ptr(0x50);
    assert_eq!(c.CopyCursor(0x51, ERROR(8)).unwrap().as_ptr(), 0x51);
    assert_eq!(c.CopyCursor(0, ERROR(8)).unwrap_err(), ERROR(8));
    assert_eq!(c.SetSystemCursor(OCR(32512), 1, ERROR(0)), Ok(()));
    assert_eq!(c.SetSystemCursor(OCR(32512), 0, ERROR(3)), Err(ERROR(3)));
}

#[test]
fn error_codes_carried_by_co() {
    assert_eq!(co::SUCCESS, 0);
    assert_ne!(co::INVALID_HANDLE, co::BAD_ARGUMENTS);
}
