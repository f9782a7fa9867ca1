//! Driver records and the lifecycle of boot and file system drivers: load,
//! invoke, unload, and the three outcomes an invocation tells apart.
use vstd::prelude::*;

use uefi::{Handle, Status};

use crate::channel::{encode_output, decode_output, output_payload, output_region};
use crate::disk::DiskReader;
use crate::status::{
    reports_success, ALREADY_STARTED_CODE, BAD_BUFFER_SIZE_CODE, INVALID_PARAMETER_CODE,
    NOT_STARTED_CODE, SECURITY_VIOLATION_CODE, SUCCESS_CODE,
};

verus! {

#[verifier::external_type_specification]
#[verifier::external_body]
pub struct ExHandle(Handle);

/// Relies on `uefi::boot::unload_image`: it asks the firmware to unload the
/// image and hands back the firmware's status on failure, which is never the
/// success code (`Status::to_result`). Like every boot service it may only be
/// called while boot services are up.
#[verifier::external_body]
fn unload_image(handle: Handle) -> (r: Result<(), Status>)
    ensures
        r is Err ==> r->Err_0.0 != SUCCESS_CODE,
{
    match uefi::boot::unload_image(handle) {
        Ok(()) => Ok(()),
        Err(e) => Err(e.status()),
    }
}

/// Relies on `uefi::boot::load_image` with `LoadImageSource::FromBuffer`: the
/// firmware copies the image out of `image` and hands back a handle to it,
/// or its status on failure, which is never the success code
/// (`Status::to_result_with_val`).
#[verifier::external_body]
fn load_image(parent: Handle, image: &[u8]) -> (r: Result<Handle, Status>)
    ensures
        r is Err ==> r->Err_0.0 != SUCCESS_CODE,
{
    let source = uefi::boot::LoadImageSource::FromBuffer { buffer: image, file_path: None };
    match uefi::boot::load_image(parent, source) {
        Ok(handle) => Ok(handle),
        Err(e) => Err(e.status()),
    }
}

/// Relies on `uefi::boot::start_image`: it runs the loaded image to its end
/// and hands back the status that the image exited with, or that the
/// firmware refused to start it with, where that is not the success code
/// (`Status::to_result`).
#[verifier::external_body]
fn start_image(handle: Handle) -> (r: Result<(), Status>)
    ensures
        r is Err ==> r->Err_0.0 != SUCCESS_CODE,
{
    match uefi::boot::start_image(handle) {
        Ok(()) => Ok(()),
        Err(e) => Err(e.status()),
    }
}

/// The kind of a driver.
#[derive(Clone, Copy, Debug, PartialEq, Eq, Structural)]
pub enum DriverType {
    /// A driver that boots one operating system or image format.
    BOOT,
    /// A driver that reads one file system format.
    FS,
}

/// Where a driver stands in its lifecycle.
#[derive(Clone, Copy, Debug, PartialEq, Eq, Structural)]
pub enum DriverState {
    /// Found in a driver directory; never loaded.
    Discovered,
    /// Loaded, and ready to be invoked.
    Loaded,
    /// Unloaded after having been loaded.
    Unloaded,
}

/// A driver image found in a driver directory.
pub struct Driver {
    /// The display name: the image's file name.
    pub name: String,
    /// The kind of driver, set once the record is wrapped.
    pub driver_type: Option<DriverType>,
    /// The firmware's handle to the image, once it has one.
    pub exec_handle: Option<Handle>,
    /// Where the driver stands in its lifecycle.
    pub state: DriverState,
}

/// What `finish_load` leaves of a driver that is not loaded and returns,
/// for the firmware's answer `outcome` to loading its image: loaded with the
/// new handle and success, or unchanged with the firmware's status.
pub open spec fn finish_load_spec(before: Driver, after: Driver, outcome: Result<Handle, Status>, r: Status) -> bool {
    match outcome {
        Ok(handle) => r.0 == SUCCESS_CODE && after == Driver {
            state: DriverState::Loaded,
            exec_handle: Some(handle),
            ..before
        },
        Err(status) => r == status && after == before,
    }
}

/// What `finish_unload` leaves of a loaded driver and returns, for the
/// firmware's answer `outcome` to unloading its image: unloaded without a
/// handle and success, or unchanged with the firmware's status.
pub open spec fn finish_unload_spec(before: Driver, after: Driver, outcome: Result<(), Status>, r: Status) -> bool {
    match outcome {
        Ok(()) => r.0 == SUCCESS_CODE && after == Driver {
            state: DriverState::Unloaded,
            exec_handle: None,
            ..before
        },
        Err(status) => r == status && after == before,
    }
}

/// What `load` leaves of a driver and returns, whatever the firmware
/// answered: a loaded driver is refused; another one is loaded with a
/// handle and success, or left unchanged with a failure status.
pub open spec fn load_spec(before: Driver, after: Driver, r: Status) -> bool {
    if before.state == DriverState::Loaded {
        r.0 == ALREADY_STARTED_CODE && after == before
    } else if reports_success(r) {
        exists|handle: Handle|
            after == Driver { state: DriverState::Loaded, exec_handle: Some(handle), ..before }
    } else {
        after == before
    }
}

/// What `unload` leaves of a driver and returns, whatever the firmware
/// answered: a driver that is not loaded is refused; a loaded one is
/// unloaded without a handle and success, or left unchanged with a failure
/// status.
pub open spec fn unload_spec(before: Driver, after: Driver, r: Status) -> bool {
    if before.state != DriverState::Loaded || before.exec_handle is None {
        r.0 == NOT_STARTED_CODE && after == before
    } else if reports_success(r) {
        after == Driver { state: DriverState::Unloaded, exec_handle: None, ..before }
    } else {
        after == before
    }
}

/// What running a driver's image comes to, for the firmware's answer
/// `outcome` to starting it: `Ok` with the status the image exited with, or
/// `Err` with the status the firmware refused to start it with (an invalid
/// or already started image, or a security violation).
pub open spec fn run_result_spec(outcome: Result<(), Status>) -> Result<Status, Status> {
    match outcome {
        Ok(()) => Ok(Status(SUCCESS_CODE)),
        Err(status) => if status.0 == INVALID_PARAMETER_CODE || status.0 == SECURITY_VIOLATION_CODE {
            Err(status)
        } else {
            Ok(status)
        },
    }
}

/// Tells apart an image that ran from one the firmware would not start, from
/// the firmware's answer to starting it.
pub fn run_result(outcome: Result<(), Status>) -> (r: Result<Status, Status>)
    ensures
        r == run_result_spec(outcome),
{
    match outcome {
        Ok(()) => Ok(Status(SUCCESS_CODE)),
        Err(status) => if status.0 == INVALID_PARAMETER_CODE || status.0 == SECURITY_VIOLATION_CODE {
            Err(status)
        } else {
            Ok(status)
        },
    }
}

impl Driver {
    /// A loaded driver has an image handle.
    pub open spec fn wf(self) -> bool {
        self.state == DriverState::Loaded ==> self.exec_handle is Some
    }

    /// A driver record for the image file `name`, of no kind yet and with no
    /// image handle: the image is loaded later.
    pub fn new(name: String) -> (r: Driver)
        ensures
            r.name@ == name@,
            r.driver_type is None,
            r.exec_handle is None,
            r.state == DriverState::Discovered,
            r.wf(),
    {
        Driver { name, driver_type: None, exec_handle: None, state: DriverState::Discovered }
    }

    /// The driver's name.
    pub fn name(&self) -> (r: String)
        ensures
            r@ == self.name@,
    {
        self.name.clone()
    }

    /// Records the firmware's answer to loading the image of a driver that
    /// is not loaded.
    pub fn finish_load(&mut self, outcome: Result<Handle, Status>) -> (r: Status)
        requires
            old(self).state != DriverState::Loaded,
        ensures
            finish_load_spec(*old(self), *final(self), outcome, r),
            final(self).wf(),
    {
        match outcome {
            Ok(handle) => {
                self.state = DriverState::Loaded;
                self.exec_handle = Some(handle);
                Status(SUCCESS_CODE)
            },
            Err(status) => status,
        }
    }

    /// Loads the driver's image, the contents `image` of its file, on behalf
    /// of the image `parent`, so that it can be invoked. A driver that is
    /// loaded already is refused.
    pub fn load(&mut self, parent: Handle, image: &[u8]) -> (r: Status)
        ensures
            load_spec(*old(self), *final(self), r),
            old(self).wf() ==> final(self).wf(),
    {
        if self.state == DriverState::Loaded {
            return Status(ALREADY_STARTED_CODE);
        }
        let outcome = load_image(parent, image);
        self.finish_load(outcome)
    }

    /// Records the firmware's answer to unloading the image of a loaded
    /// driver.
    pub fn finish_unload(&mut self, outcome: Result<(), Status>) -> (r: Status)
        requires
            old(self).state == DriverState::Loaded,
            old(self).exec_handle is Some,
        ensures
            finish_unload_spec(*old(self), *final(self), outcome, r),
            old(self).wf() ==> final(self).wf(),
    {
        match outcome {
            Ok(()) => {
                self.state = DriverState::Unloaded;
                self.exec_handle = None;
                Status(SUCCESS_CODE)
            },
            Err(status) => status,
        }
    }

    /// Unloads a loaded driver's image; the driver is then unloaded and has
    /// no image handle. A driver that is not loaded is left as it is.
    pub fn unload(&mut self) -> (r: Status)
        ensures
            unload_spec(*old(self), *final(self), r),
            old(self).wf() ==> final(self).wf(),
    {
        if self.state != DriverState::Loaded {
            return Status(NOT_STARTED_CODE);
        }
        match self.exec_handle {
            None => Status(NOT_STARTED_CODE),
            Some(handle) => {
                let outcome = unload_image(handle);
                self.finish_unload(outcome)
            },
        }
    }

    /// Runs the image of a loaded driver to its end, once its channel is in
    /// place: `Ok` with the status the image exited with, or `Err` where the
    /// driver is not loaded (`NOT_STARTED`) or the firmware would not start
    /// it.
    pub fn start(&self) -> (r: Result<Status, Status>)
        ensures
            (self.state != DriverState::Loaded || self.exec_handle is None) ==> r == Err::<Status, Status>(
                Status(NOT_STARTED_CODE),
            ),
            r is Err ==> r->Err_0.0 == NOT_STARTED_CODE || r->Err_0.0 == INVALID_PARAMETER_CODE
                || r->Err_0.0 == SECURITY_VIOLATION_CODE,
    {
        if self.state != DriverState::Loaded {
            return Err(Status(NOT_STARTED_CODE));
        }
        match self.exec_handle {
            None => Err(Status(NOT_STARTED_CODE)),
            Some(handle) => run_result(start_image(handle)),
        }
    }
}

/// What an invocation of a boot driver comes to, from what the firmware
/// reported: `None` where the driver ran and reported success (the boot went
/// ahead), `Some(Ok(status))` where it ran and reported a failure, and
/// `Some(Err(status))` where it could not be run at all.
pub open spec fn boot_outcome_spec(invoke_status: Result<Status, Status>) -> Option<Result<Status, Status>> {
    match invoke_status {
        Ok(status) => if reports_success(status) {
            None
        } else {
            Some(Ok(status))
        },
        Err(status) => Some(Err(status)),
    }
}

/// What an invocation of a file system driver comes to, from what the
/// firmware reported and the driver's output region: the file's bytes where
/// the driver ran and reported success, `Err(Ok(status))` where it ran and
/// reported a failure, and `Err(Err(status))` where it could not be run, or
/// left an output region shorter than its length field says
/// (`BAD_BUFFER_SIZE`).
pub open spec fn fs_outcome_spec(invoke_status: Result<Status, Status>, region: Seq<u8>) -> Result<
    Seq<u8>,
    Result<Status, Status>,
> {
    match invoke_status {
        Ok(status) => if reports_success(status) {
            match output_payload(region) {
                Some(payload) => Ok(payload),
                None => Err(Err(Status(BAD_BUFFER_SIZE_CODE))),
            }
        } else {
            Err(Ok(status))
        },
        Err(status) => Err(Err(status)),
    }
}

/// Tells apart the three outcomes of a boot driver's invocation from the
/// status that running its image gave.
pub fn boot_outcome(invoke_status: Result<Status, Status>) -> (r: Option<Result<Status, Status>>)
    ensures
        r == boot_outcome_spec(invoke_status),
{
    match invoke_status {
        Ok(status) => if status.is_success() {
            None
        } else {
            Some(Ok(status))
        },
        Err(status) => Some(Err(status)),
    }
}

/// Tells apart the three outcomes of a file system driver's invocation from
/// the status that running its image gave and the output region it left.
pub fn fs_outcome(invoke_status: Result<Status, Status>, region: &Vec<u8>) -> (r: Result<
    Vec<u8>,
    Result<Status, Status>,
>)
    ensures
        r is Ok <==> fs_outcome_spec(invoke_status, region@) is Ok,
        r is Ok ==> fs_outcome_spec(invoke_status, region@) == Ok::<Seq<u8>, Result<Status, Status>>(r->Ok_0@),
        r is Err ==> fs_outcome_spec(invoke_status, region@) == Err::<Seq<u8>, Result<Status, Status>>(r->Err_0),
{
    match invoke_status {
        Ok(status) => if status.is_success() {
            match decode_output(region) {
                Some(payload) => Ok(payload),
                None => Err(Err(Status(BAD_BUFFER_SIZE_CODE))),
            }
        } else {
            Err(Ok(status))
        },
        Err(status) => Err(Err(status)),
    }
}

/// The status a boot driver's image exits with where its entry logic
/// returned `main_status`: success for no status, else that status.
pub open spec fn boot_prelude_spec(main_status: Option<Status>) -> Status {
    match main_status {
        None => Status(SUCCESS_CODE),
        Some(status) => status,
    }
}

/// The status a boot driver's image exits with, from what its own entry
/// logic returned: success where it returned no status, else that status.
pub fn boot_prelude_status(main_status: Option<Status>) -> (r: Status)
    ensures
        r == boot_prelude_spec(main_status),
{
    match main_status {
        None => Status(SUCCESS_CODE),
        Some(status) => status,
    }
}

/// What a file system driver's image leaves behind, from what its own entry
/// logic returned: the output region that holds the file's bytes, to be
/// published through the channel before the image exits with success, or
/// the status to exit with and no output region.
pub fn fs_prelude_output(main_result: Result<Vec<u8>, Status>) -> (r: Result<Vec<u8>, Status>)
    ensures
        main_result is Ok ==> r is Ok && r->Ok_0@ == output_region(main_result->Ok_0@),
        main_result is Err ==> r == main_result,
{
    match main_result {
        Ok(bytes) => Ok(encode_output(&bytes)),
        Err(status) => Err(status),
    }
}

/// A file system driver that returns some bytes gives its invoker exactly
/// those bytes: the same length and the same content.
pub proof fn lemma_fs_round_trip(payload: Seq<u8>)
    requires
        payload.len() <= u64::MAX,
    ensures
        fs_outcome_spec(Ok(Status(SUCCESS_CODE)), output_region(payload)) == Ok::<Seq<u8>, Result<Status, Status>>(payload),
{
    crate::channel::lemma_output_round_trip(payload);
}

/// The three outcomes of a boot driver's invocation: where its image could
/// not be run the invoker sees `Some(Err(status))` with the firmware's status;
/// where it ran, the invoker sees `None` exactly when the driver's entry logic
/// returned no status or success, and `Some(Ok(status))` with the driver's
/// own failure status otherwise.
pub proof fn lemma_boot_three_way(main_status: Option<Status>, start_failure: Status)
    ensures
        boot_outcome_spec(Err(start_failure)) == Some(Err::<Status, Status>(start_failure)),
        boot_outcome_spec(Ok(boot_prelude_spec(main_status))) is None <==> (main_status is None
            || reports_success(main_status->Some_0)),
        main_status is Some && !reports_success(main_status->Some_0) ==> boot_outcome_spec(
            Ok(boot_prelude_spec(main_status)),
        ) == Some(Ok::<Status, Status>(main_status->Some_0)),
{
}

/// The input of a boot driver.
pub struct BootDriverArgs<'a> {
    /// The contents of the file to boot.
    pub img: Vec<u8>,
    /// The command line to boot with.
    pub cmdline: &'a str,
}

/// The input of a file system driver.
pub struct FSDriverArgs<'a> {
    /// The path of the file to read.
    pub path: &'a str,
    /// The reader of the volume that holds the file.
    pub diskreader: DiskReader<'a>,
}

/// A driver that boots one operating system or image format.
pub struct BootDriver(pub Driver);

/// A driver that reads one file system format.
pub struct FSDriver(pub Driver);

impl BootDriver {
    /// The driver's name, usually that of what it boots.
    pub fn name(&self) -> (r: String)
        ensures
            r@ == self.0.name@,
    {
        self.0.name()
    }

    /// Loads this boot driver.
    pub fn load(&mut self, parent: Handle, image: &[u8]) -> (r: Status)
        ensures
            load_spec(old(self).0, final(self).0, r),
    {
        self.0.load(parent, image)
    }

    /// Unloads this boot driver.
    pub fn unload(&mut self) -> (r: Status)
        ensures
            unload_spec(old(self).0, final(self).0, r),
    {
        self.0.unload()
    }
}

impl FSDriver {
    /// The driver's name, usually that of the file system it reads.
    pub fn name(&self) -> (r: String)
        ensures
            r@ == self.0.name@,
    {
        self.0.name()
    }

    /// Loads this file system driver.
    pub fn load(&mut self, parent: Handle, image: &[u8]) -> (r: Status)
        ensures
            load_spec(old(self).0, final(self).0, r),
    {
        self.0.load(parent, image)
    }

    /// Unloads this file system driver.
    pub fn unload(&mut self) -> (r: Status)
        ensures
            unload_spec(old(self).0, final(self).0, r),
    {
        self.0.unload()
    }
}

} // verus!
