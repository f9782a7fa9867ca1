//! Finding drivers: the entries of a driver directory that are valid driver
//! images, and lookup of a driver by name.
use vstd::prelude::*;

use uefi::Status;

use crate::driver::{BootDriver, Driver, DriverState, DriverType, FSDriver};

verus! {

/// The directory that holds the two driver directories.
pub const DRIVER_DIRECTORY: &'static str = "\\wakatiwai";

/// The directory of boot drivers, within `DRIVER_DIRECTORY`.
pub const BOOT_DRIVER_DIRECTORY: &'static str = "boot";

/// The directory of file system drivers, within `DRIVER_DIRECTORY`.
pub const FSYS_DRIVER_DIRECTORY: &'static str = "fs";

/// What the library reads of one entry of a driver directory.
pub struct DirEntry {
    /// The entry's file name.
    pub name: String,
    /// Whether the entry is a regular file, rather than a directory.
    pub is_regular_file: bool,
}

/// The extension that a driver image carries.
pub open spec fn efi_suffix() -> Seq<char> {
    seq!['.', 'e', 'f', 'i']
}

/// `name` ends with the driver image extension, case included.
pub open spec fn has_efi_suffix(name: Seq<char>) -> bool {
    name.len() >= 4 && name.subrange(name.len() - 4, name.len() as int) == efi_suffix()
}

/// An entry is a driver image where it is a regular file that carries the
/// driver image extension.
pub open spec fn valid_driver_entry(entry: DirEntry) -> bool {
    entry.is_regular_file && has_efi_suffix(entry.name@)
}

/// The names of the valid driver images among `entries`, in their order.
pub open spec fn driver_names(entries: Seq<DirEntry>) -> Seq<Seq<char>>
    decreases entries.len(),
{
    if entries.len() == 0 {
        seq![]
    } else {
        let before = driver_names(entries.drop_last());
        if valid_driver_entry(entries.last()) {
            before.push(entries.last().name@)
        } else {
            before
        }
    }
}

/// `d` is the freshly found record of the driver image `name` of kind `t`
/// (of no kind where `t` is `None`).
pub open spec fn is_found_driver(d: Driver, name: Seq<char>, t: Option<DriverType>) -> bool {
    &&& d.name@ == name
    &&& d.driver_type == t
    &&& d.exec_handle is None
    &&& d.state == DriverState::Discovered
}

/// Whether an entry of a driver directory is a driver image: a regular file
/// whose name ends with `.efi`.
pub fn is_valid_driver(entry: &DirEntry) -> (r: bool)
    ensures
        r == valid_driver_entry(*entry),
{
    if !entry.is_regular_file {
        return false;
    }
    let name = entry.name.as_str();
    let len = name.unicode_len();
    if len < 4 {
        return false;
    }
    let ok = name.get_char(len - 4) == '.' && name.get_char(len - 3) == 'e' && name.get_char(len - 2)
        == 'f' && name.get_char(len - 1) == 'i';
    let ghost tail = entry.name@.subrange(len - 4, len as int);
    assert(ok ==> tail =~= efi_suffix());
    assert(tail == efi_suffix() ==> ok) by {
        if tail == efi_suffix() {
            assert(tail[0] == '.' && tail[1] == 'e' && tail[2] == 'f' && tail[3] == 'i');
        }
    }
    ok
}

/// The records of the valid driver images of a directory's entries, in the
/// order of the entries, each of no kind yet and with no image handle.
pub fn get_driver_files_from_dir(entries: &Vec<DirEntry>) -> (r: Vec<Driver>)
    ensures
        r@.len() == driver_names(entries@).len(),
        forall|k: int| 0 <= k < r@.len() ==> is_found_driver(#[trigger] r@[k], driver_names(entries@)[k], None),
{
    let mut drivers: Vec<Driver> = Vec::new();
    let mut i: usize = 0;
    while i < entries.len()
        invariant
            0 <= i <= entries.len(),
            drivers@.len() == driver_names(entries@.subrange(0, i as int)).len(),
            forall|k: int|
                0 <= k < drivers@.len() ==> is_found_driver(
                    #[trigger] drivers@[k],
                    driver_names(entries@.subrange(0, i as int))[k],
                    None,
                ),
        decreases entries.len() - i,
    {
        let ghost prefix = entries@.subrange(0, i as int);
        let ghost next = entries@.subrange(0, i + 1);
        assert(next.drop_last() =~= prefix);
        assert(next.last() == entries@[i as int]);
        if is_valid_driver(&entries[i]) {
            let name = entries[i].name.clone();
            drivers.push(Driver::new(name));
        }
        i = i + 1;
    }
    assert(entries@.subrange(0, entries.len() as int) =~= entries@);
    drivers
}

/// All boot drivers of a listing of the boot driver directory, in its order;
/// a listing that failed gives its status.
pub fn get_boot_drivers(listing: Result<Vec<DirEntry>, Status>) -> (r: Result<Vec<BootDriver>, Status>)
    ensures
        listing is Err <==> r is Err,
        r is Err ==> r->Err_0 == listing->Err_0,
        r is Ok ==> r->Ok_0@.len() == driver_names(listing->Ok_0@).len(),
        r is Ok ==> forall|k: int|
            0 <= k < r->Ok_0@.len() ==> is_found_driver(
                (#[trigger] r->Ok_0@[k]).0,
                driver_names(listing->Ok_0@)[k],
                Some(DriverType::BOOT),
            ),
{
    match listing {
        Err(status) => Err(status),
        Ok(entries) => {
            let found = get_driver_files_from_dir(&entries);
            let ghost names = driver_names(entries@);
            let mut ret: Vec<BootDriver> = Vec::new();
            let mut i: usize = 0;
            while i < found.len()
                invariant
                    0 <= i <= found@.len(),
                    found@.len() == names.len(),
                    forall|k: int| 0 <= k < found@.len() ==> is_found_driver(#[trigger] found@[k], names[k], None),
                    ret@.len() == i,
                    forall|k: int|
                        0 <= k < ret@.len() ==> is_found_driver(
                            (#[trigger] ret@[k]).0,
                            names[k],
                            Some(DriverType::BOOT),
                        ),
                decreases found@.len() - i,
            {
                let driver = &found[i];
                ret.push(
                    BootDriver(
                        Driver {
                            name: driver.name.clone(),
                            driver_type: Some(DriverType::BOOT),
                            exec_handle: driver.exec_handle,
                            state: driver.state,
                        },
                    ),
                );
                i = i + 1;
            }
            Ok(ret)
        },
    }
}

/// All file system drivers of a listing of the file system driver directory, in its order;
/// a listing that failed gives its status.
pub fn get_fs_drivers(listing: Result<Vec<DirEntry>, Status>) -> (r: Result<Vec<FSDriver>, Status>)
    ensures
        listing is Err <==> r is Err,
        r is Err ==> r->Err_0 == listing->Err_0,
        r is Ok ==> r->Ok_0@.len() == driver_names(listing->Ok_0@).len(),
        r is Ok ==> forall|k: int|
            0 <= k < r->Ok_0@.len() ==> is_found_driver(
                (#[trigger] r->Ok_0@[k]).0,
                driver_names(listing->Ok_0@)[k],
                Some(DriverType::FS),
            ),
{
    match listing {
        Err(status) => Err(status),
        Ok(entries) => {
            let found = get_driver_files_from_dir(&entries);
            let ghost names = driver_names(entries@);
            let mut ret: Vec<FSDriver> = Vec::new();
            let mut i: usize = 0;
            while i < found.len()
                invariant
                    0 <= i <= found@.len(),
                    found@.len() == names.len(),
                    forall|k: int| 0 <= k < found@.len() ==> is_found_driver(#[trigger] found@[k], names[k], None),
                    ret@.len() == i,
                    forall|k: int|
                        0 <= k < ret@.len() ==> is_found_driver(
                            (#[trigger] ret@[k]).0,
                            names[k],
                            Some(DriverType::FS),
                        ),
                decreases found@.len() - i,
            {
                let driver = &found[i];
                ret.push(
                    FSDriver(
                        Driver {
                            name: driver.name.clone(),
                            driver_type: Some(DriverType::FS),
                            exec_handle: driver.exec_handle,
                            state: driver.state,
                        },
                    ),
                );
                i = i + 1;
            }
            Ok(ret)
        },
    }
}

/// The boot driver named `driver_name` (case included) of a listing of the
/// boot driver directory: the first one where several are, `None` where none
/// is; a listing that failed gives its status.
pub fn get_boot_driver(listing: Result<Vec<DirEntry>, Status>, driver_name: &str) -> (r: Result<Option<BootDriver>, Status>)
    ensures
        listing is Err <==> r is Err,
        r is Err ==> r->Err_0 == listing->Err_0,
        r matches Ok(None) <==> listing is Ok && !driver_names(listing->Ok_0@).contains(driver_name@),
        r matches Ok(Some(d)) ==> is_found_driver(d.0, driver_name@, Some(DriverType::BOOT)),
{
    let mut drivers = match get_boot_drivers(listing) {
        Err(status) => {
            return Err(status);
        },
        Ok(drivers) => drivers,
    };
    let ghost names = driver_names(listing->Ok_0@);
    let wanted = driver_name.to_owned();
    let mut i: usize = 0;
    while i < drivers.len()
        invariant
            0 <= i <= drivers@.len(),
            drivers@.len() == names.len(),
            wanted@ == driver_name@,
            listing is Ok,
            names == driver_names(listing->Ok_0@),
            forall|k: int|
                0 <= k < drivers@.len() ==> is_found_driver(
                    (#[trigger] drivers@[k]).0,
                    names[k],
                    Some(DriverType::BOOT),
                ),
            forall|k: int| 0 <= k < i ==> names[k] != driver_name@,
        decreases drivers@.len() - i,
    {
        if drivers[i].0.name == wanted {
            assert(names[i as int] == driver_name@);
            let found = drivers.remove(i);
            return Ok(Some(found));
        }
        i = i + 1;
    }
    assert(!names.contains(driver_name@));
    Ok(None)
}

/// The file system driver named `driver_name` (case included) of a listing of the
/// file system driver directory: the first one where several are, `None` where none
/// is; a listing that failed gives its status.
pub fn get_fs_driver(listing: Result<Vec<DirEntry>, Status>, driver_name: &str) -> (r: Result<Option<FSDriver>, Status>)
    ensures
        listing is Err <==> r is Err,
        r is Err ==> r->Err_0 == listing->Err_0,
        r matches Ok(None) <==> listing is Ok && !driver_names(listing->Ok_0@).contains(driver_name@),
        r matches Ok(Some(d)) ==> is_found_driver(d.0, driver_name@, Some(DriverType::FS)),
{
    let mut drivers = match get_fs_drivers(listing) {
        Err(status) => {
            return Err(status);
        },
        Ok(drivers) => drivers,
    };
    let ghost names = driver_names(listing->Ok_0@);
    let wanted = driver_name.to_owned();
    let mut i: usize = 0;
    while i < drivers.len()
        invariant
            0 <= i <= drivers@.len(),
            drivers@.len() == names.len(),
            wanted@ == driver_name@,
            listing is Ok,
            names == driver_names(listing->Ok_0@),
            forall|k: int|
                0 <= k < drivers@.len() ==> is_found_driver(
                    (#[trigger] drivers@[k]).0,
                    names[k],
                    Some(DriverType::FS),
                ),
            forall|k: int| 0 <= k < i ==> names[k] != driver_name@,
        decreases drivers@.len() - i,
    {
        if drivers[i].0.name == wanted {
            assert(names[i as int] == driver_name@);
            let found = drivers.remove(i);
            return Ok(Some(found));
        }
        i = i + 1;
    }
    assert(!names.contains(driver_name@));
    Ok(None)
}

} // verus!
