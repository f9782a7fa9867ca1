//! The firmware's status codes, as the rest of the library sees them.
use vstd::prelude::*;

verus! {

/// `uefi::Status` is a transparent wrapper over a `usize` code with a public field.
#[verifier::external_type_specification]
pub struct ExStatus(uefi::Status);

/// Relies on `uefi::Status::is_success`: true exactly for the code `SUCCESS`, which is zero.
pub assume_specification[ uefi::Status::is_success ](s: uefi::Status) -> (r: bool)
    ensures
        r == (s.0 == 0),
;

/// The bit that marks a status code as an error.
pub const ERROR_BIT: usize = usize::MAX ^ (usize::MAX >> 1);

/// The code of `SUCCESS`.
pub const SUCCESS_CODE: usize = 0;

/// The code of `INVALID_PARAMETER`.
pub const INVALID_PARAMETER_CODE: usize = ERROR_BIT | 2;

/// The code of `BAD_BUFFER_SIZE`.
pub const BAD_BUFFER_SIZE_CODE: usize = ERROR_BIT | 4;

/// The code of `NOT_FOUND`.
pub const NOT_FOUND_CODE: usize = ERROR_BIT | 14;

/// The code of `NOT_STARTED`.
pub const NOT_STARTED_CODE: usize = ERROR_BIT | 19;

/// The code of `ALREADY_STARTED`.
pub const ALREADY_STARTED_CODE: usize = ERROR_BIT | 20;

/// The code of `SECURITY_VIOLATION`.
pub const SECURITY_VIOLATION_CODE: usize = ERROR_BIT | 26;

/// Whether a status reports success.
pub open spec fn reports_success(s: uefi::Status) -> bool {
    s.0 == SUCCESS_CODE
}

} // verus!
