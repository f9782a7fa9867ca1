use springboard::discovery::{
    get_boot_driver, get_boot_drivers, get_driver_files_from_dir, get_fs_driver, get_fs_drivers,
    is_valid_driver, DirEntry,
};
use springboard::driver::{DriverState, DriverType};
use uefi::Status;

fn file(name: &str) -> DirEntry {
    DirEntry { name: name.to_string(), is_regular_file: true }
}

fn dir(name: &str) -> DirEntry {
    DirEntry { name: name.to_string(), is_regular_file: false }
}

#[test]
fn validation_accepts_regular_efi_files() {
    assert!(is_valid_driver(&file("linux.efi")));
    assert!(is_valid_driver(&file("LiNuX.efi")));
    assert!(is_valid_driver(&file(".efi")));
}

#[test]
fn validation_rejects_other_entries() {
    assert!(!is_valid_driver(&dir("boot.efi")));
    assert!(!is_valid_driver(&dir(".")));
    assert!(!is_valid_driver(&file("linux.txt")));
    assert!(!is_valid_driver(&file("linux.EFI")));
    assert!(!is_valid_driver(&file("efi")));
    assert!(!is_valid_driver(&file("linux.efi.bak")));
    assert!(!is_valid_driver(&file("")));
}

#[test]
fn driver_files_keep_valid_entries_in_order() {
    let entries = vec![dir("."), file("b.efi"), file("notes.txt"), file("a.efi")];
    let drivers = get_driver_files_from_dir(&entries);
    let names: Vec<String> = drivers.iter().map(|d| d.name()).collect();
    assert_eq!(names, vec!["b.efi", "a.efi"]);
    assert!(drivers.iter().all(|d| d.driver_type.is_none() && d.exec_handle.is_none()));
}

#[test]
fn boot_listing_skips_files_without_extension() {
    let listing = Ok(vec![file("a.efi"), file("b.txt"), file("c.efi")]);
    let drivers = get_boot_drivers(listing).unwrap();
    let names: Vec<String> = drivers.iter().map(|d| d.name()).collect();
    assert_eq!(names, vec!["a.efi", "c.efi"]);
    assert!(drivers.iter().all(|d| d.0.driver_type == Some(DriverType::BOOT)));
    assert!(drivers.iter().all(|d| d.0.state == DriverState::Discovered));
}

#[test]
fn fs_listing_tags_drivers() {
    let listing = Ok(vec![file("ext4.efi"), dir("old"), file("fat.efi")]);
    let drivers = get_fs_drivers(listing).unwrap();
    let names: Vec<String> = drivers.iter().map(|d| d.name()).collect();
    assert_eq!(names, vec!["ext4.efi", "fat.efi"]);
    assert!(drivers.iter().all(|d| d.0.driver_type == Some(DriverType::FS)));
}

#[test]
fn listing_failure_is_passed_on() {
    assert!(matches!(get_boot_drivers(Err(Status::NOT_FOUND)), Err(Status::NOT_FOUND)));
    assert!(matches!(get_fs_drivers(Err(Status::DEVICE_ERROR)), Err(Status::DEVICE_ERROR)));
    assert!(matches!(get_boot_driver(Err(Status::NOT_FOUND), "a.efi"), Err(Status::NOT_FOUND)));
    assert!(matches!(get_fs_driver(Err(Status::NO_MEDIA), "a.efi"), Err(Status::NO_MEDIA)));
}

#[test]
fn lookup_finds_exact_match() {
    let listing = Ok(vec![file("a.efi"), file("b.txt"), file("c.efi")]);
    let found = get_boot_driver(listing, "c.efi").unwrap().unwrap();
    assert_eq!(found.name(), "c.efi");
    assert_eq!(found.0.driver_type, Some(DriverType::BOOT));
    let listing = Ok(vec![file("ext4.efi"), file("fat.efi")]);
    let found = get_fs_driver(listing, "fat.efi").unwrap().unwrap();
    assert_eq!(found.name(), "fat.efi");
    assert_eq!(found.0.driver_type, Some(DriverType::FS));
}

#[test]
fn lookup_misses_are_none() {
    let listing = || Ok(vec![file("a.efi"), file("b.txt"), file("c.efi")]);
    assert!(get_boot_driver(listing(), "b.txt").unwrap().is_none());
    assert!(get_boot_driver(listing(), "A.efi").unwrap().is_none());
    assert!(get_boot_driver(listing(), "a").unwrap().is_none());
    assert!(get_fs_driver(Ok(Vec::new()), "a.efi").unwrap().is_none());
}
