use springboard::driver::{
    boot_outcome, boot_prelude_status, fs_outcome, fs_prelude_output, run_result, BootDriver, Driver,
    DriverState, DriverType, FSDriver,
};
use springboard::channel::encode_output;
use uefi::Status;

#[test]
fn boot_outcome_success_is_none() {
    assert_eq!(boot_outcome(Ok(Status::SUCCESS)), None);
}

#[test]
fn boot_outcome_driver_failure() {
    assert_eq!(boot_outcome(Ok(Status::LOAD_ERROR)), Some(Ok(Status::LOAD_ERROR)));
    assert_eq!(boot_outcome(Ok(Status::WARN_UNKNOWN_GLYPH)), Some(Ok(Status::WARN_UNKNOWN_GLYPH)));
}

#[test]
fn boot_outcome_start_failure() {
    assert_eq!(boot_outcome(Err(Status::SECURITY_VIOLATION)), Some(Err(Status::SECURITY_VIOLATION)));
}

#[test]
fn boot_prelude_three_way_round() {
    assert_eq!(boot_outcome(Ok(boot_prelude_status(None))), None);
    let failed = boot_prelude_status(Some(Status::UNSUPPORTED));
    assert_eq!(failed, Status::UNSUPPORTED);
    assert_eq!(boot_outcome(Ok(failed)), Some(Ok(Status::UNSUPPORTED)));
}

#[test]
fn fs_round_trip_gives_back_payload() {
    let payload = vec![0xde, 0xad, 0xbe, 0xef, 0x00, 0x42];
    let region = fs_prelude_output(Ok(payload.clone())).unwrap();
    let got = fs_outcome(Ok(Status::SUCCESS), &region).unwrap();
    assert_eq!(got.len(), payload.len());
    assert_eq!(got, payload);
}

#[test]
fn fs_round_trip_empty_file() {
    let region = fs_prelude_output(Ok(Vec::new())).unwrap();
    assert_eq!(fs_outcome(Ok(Status::SUCCESS), &region), Ok(Vec::new()));
}

#[test]
fn fs_prelude_passes_failure_through() {
    assert_eq!(fs_prelude_output(Err(Status::NOT_FOUND)), Err(Status::NOT_FOUND));
}

#[test]
fn fs_outcome_driver_failure() {
    let region = encode_output(&vec![1, 2]);
    assert_eq!(fs_outcome(Ok(Status::NOT_FOUND), &region), Err(Ok(Status::NOT_FOUND)));
}

#[test]
fn fs_outcome_start_failure() {
    assert_eq!(fs_outcome(Err(Status::LOAD_ERROR), &Vec::new()), Err(Err(Status::LOAD_ERROR)));
}

#[test]
fn fs_outcome_short_region() {
    assert_eq!(fs_outcome(Ok(Status::SUCCESS), &vec![9, 0, 0, 0, 0, 0, 0, 0, 1]), Err(Err(Status::BAD_BUFFER_SIZE)));
    assert_eq!(fs_outcome(Ok(Status::SUCCESS), &vec![0, 0]), Err(Err(Status::BAD_BUFFER_SIZE)));
}

#[test]
fn new_driver_is_discovered() {
    let d = Driver::new("linux.efi".to_string());
    assert_eq!(d.name(), "linux.efi");
    assert_eq!(d.driver_type, None);
    assert!(d.exec_handle.is_none());
    assert_eq!(d.state, DriverState::Discovered);
}

#[test]
fn finish_load_failure_leaves_driver() {
    let mut d = Driver::new("elf.efi".to_string());
    assert_eq!(d.finish_load(Err(Status::LOAD_ERROR)), Status::LOAD_ERROR);
    assert_eq!(d.state, DriverState::Discovered);
    assert!(d.exec_handle.is_none());
    assert_eq!(d.name(), "elf.efi");
}

#[test]
fn unload_before_load_is_not_started() {
    let mut d = FSDriver(Driver::new("fat.efi".to_string()));
    assert_eq!(d.unload(), Status::NOT_STARTED);
    assert_eq!(d.0.state, DriverState::Discovered);
    assert_eq!(d.name(), "fat.efi");
    let mut b = BootDriver(Driver::new("x.efi".to_string()));
    assert_eq!(b.unload(), Status::NOT_STARTED);
    assert_eq!(b.0.driver_type, None::<DriverType>);
    assert_eq!(b.name(), "x.efi");
}

#[test]
fn start_before_load_is_not_started() {
    let d = Driver::new("linux.efi".to_string());
    assert_eq!(d.start(), Err(Status::NOT_STARTED));
    assert_eq!(boot_outcome(d.start()), Some(Err(Status::NOT_STARTED)));
}

#[test]
fn run_result_tells_refusal_from_exit() {
    assert_eq!(run_result(Ok(())), Ok(Status::SUCCESS));
    assert_eq!(run_result(Err(Status::LOAD_ERROR)), Ok(Status::LOAD_ERROR));
    assert_eq!(run_result(Err(Status::NOT_FOUND)), Ok(Status::NOT_FOUND));
    assert_eq!(run_result(Err(Status::INVALID_PARAMETER)), Err(Status::INVALID_PARAMETER));
    assert_eq!(run_result(Err(Status::SECURITY_VIOLATION)), Err(Status::SECURITY_VIOLATION));
}

#[test]
fn boot_outcomes_through_run_result() {
    assert_eq!(boot_outcome(run_result(Ok(()))), None);
    assert_eq!(boot_outcome(run_result(Err(Status::ABORTED))), Some(Ok(Status::ABORTED)));
    assert_eq!(boot_outcome(run_result(Err(Status::SECURITY_VIOLATION))), Some(Err(Status::SECURITY_VIOLATION)));
}
