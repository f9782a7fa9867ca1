use springboard::channel::{
    decode_output, encode_output, find_io_memory, output_page_count, pages_for, DriverIO,
    MemoryRegion, BOOT_DRIVER_IO_MEMTYPE, FSYS_DRIVER_IO_MEMTYPE,
};
use uefi::Status;

fn region(ty: u32, phys_start: u64) -> MemoryRegion {
    MemoryRegion { ty, phys_start }
}

#[test]
fn find_io_memory_returns_start_of_tagged_entry() {
    let map = vec![region(2, 0x1000), region(BOOT_DRIVER_IO_MEMTYPE, 0x5000), region(7, 0x9000)];
    assert_eq!(find_io_memory(&map, BOOT_DRIVER_IO_MEMTYPE), Ok(0x5000));
}

#[test]
fn find_io_memory_returns_first_of_several() {
    let map = vec![
        region(FSYS_DRIVER_IO_MEMTYPE, 0x3000),
        region(FSYS_DRIVER_IO_MEMTYPE, 0x8000),
    ];
    assert_eq!(find_io_memory(&map, FSYS_DRIVER_IO_MEMTYPE), Ok(0x3000));
}

#[test]
fn find_io_memory_reports_not_found() {
    let map = vec![region(2, 0x1000), region(7, 0x9000)];
    assert_eq!(find_io_memory(&map, BOOT_DRIVER_IO_MEMTYPE), Err(Status::NOT_FOUND));
    assert_eq!(find_io_memory(&Vec::new(), FSYS_DRIVER_IO_MEMTYPE), Err(Status::NOT_FOUND));
}

#[test]
fn channel_tags_are_isolated() {
    assert_ne!(BOOT_DRIVER_IO_MEMTYPE, FSYS_DRIVER_IO_MEMTYPE);
    let boot_only = vec![region(BOOT_DRIVER_IO_MEMTYPE, 0x4000)];
    assert_eq!(find_io_memory(&boot_only, FSYS_DRIVER_IO_MEMTYPE), Err(Status::NOT_FOUND));
    let fs_only = vec![region(FSYS_DRIVER_IO_MEMTYPE, 0x6000)];
    assert_eq!(find_io_memory(&fs_only, BOOT_DRIVER_IO_MEMTYPE), Err(Status::NOT_FOUND));
    let both = vec![region(BOOT_DRIVER_IO_MEMTYPE, 0x4000), region(FSYS_DRIVER_IO_MEMTYPE, 0x6000)];
    assert_eq!(find_io_memory(&both, BOOT_DRIVER_IO_MEMTYPE), Ok(0x4000));
    assert_eq!(find_io_memory(&both, FSYS_DRIVER_IO_MEMTYPE), Ok(0x6000));
}

#[test]
fn pages_for_rounds_up() {
    assert_eq!(pages_for(0), 0);
    assert_eq!(pages_for(1), 1);
    assert_eq!(pages_for(4096), 1);
    assert_eq!(pages_for(4097), 2);
    assert_eq!(DriverIO::page_count(), 1);
}

#[test]
fn output_page_count_counts_length_field() {
    assert_eq!(output_page_count(0), 1);
    assert_eq!(output_page_count(4088), 1);
    assert_eq!(output_page_count(4089), 2);
}

#[test]
fn zero_resets_both_addresses() {
    let mut dio = DriverIO { inptr: 0x1234, outptr: 0x5678 };
    dio.zero();
    assert_eq!(dio, DriverIO { inptr: 0, outptr: 0 });
}

#[test]
fn encode_output_prefixes_length() {
    let region = encode_output(&vec![1, 2, 3]);
    assert_eq!(region, vec![3, 0, 0, 0, 0, 0, 0, 0, 1, 2, 3]);
    let long = vec![7u8; 0x1_02];
    let region = encode_output(&long);
    assert_eq!(&region[..8], &[0x02, 0x01, 0, 0, 0, 0, 0, 0]);
    assert_eq!(region.len(), 8 + 0x102);
}

#[test]
fn decode_output_reads_back_payload() {
    let payload: Vec<u8> = (0..=255u8).collect();
    assert_eq!(decode_output(&encode_output(&payload)), Some(payload));
    assert_eq!(decode_output(&encode_output(&Vec::new())), Some(Vec::new()));
}

#[test]
fn decode_output_ignores_trailing_bytes() {
    assert_eq!(decode_output(&vec![2, 0, 0, 0, 0, 0, 0, 0, 9, 8, 7, 6]), Some(vec![9, 8]));
}

#[test]
fn decode_output_rejects_short_regions() {
    assert_eq!(decode_output(&vec![0, 0, 0]), None);
    assert_eq!(decode_output(&vec![4, 0, 0, 0, 0, 0, 0, 0, 1, 2, 3]), None);
}
