//! The driver I/O channel: a block of firmware memory, tagged with a memory
//! type reserved for one kind of driver, through which an invoker hands a
//! driver its arguments and a driver hands back its output.
use vstd::prelude::*;

use uefi::Status;

use crate::status::NOT_FOUND_CODE;

verus! {

/// The memory type that tags the channel of a boot driver.
pub const BOOT_DRIVER_IO_MEMTYPE: u32 = 0x8000_0001;

/// The memory type that tags the channel of a file system driver.
pub const FSYS_DRIVER_IO_MEMTYPE: u32 = 0x8000_0002;

/// The firmware's page size in bytes.
pub const PAGE_SIZE: usize = 4096;

/// The size in bytes of a channel: two 8-byte addresses.
pub const DRIVER_IO_SIZE: usize = 16;

/// The size in bytes of the length field that opens an output region.
pub const OUTPUT_LENGTH_SIZE: usize = 8;

/// One entry of the firmware's memory map: its memory type and the physical
/// address at which it starts.
#[derive(Clone, Copy, Debug, PartialEq, Eq, Structural)]
pub struct MemoryRegion {
    pub ty: u32,
    pub phys_start: u64,
}

/// Entry `i` is the first entry of `map` tagged `memtype`.
pub open spec fn is_first_of_type(map: Seq<MemoryRegion>, memtype: u32, i: int) -> bool {
    &&& 0 <= i < map.len()
    &&& map[i].ty == memtype
    &&& forall|j: int| 0 <= j < i ==> map[j].ty != memtype
}

/// Some entry of `map` is tagged `memtype`.
pub open spec fn has_type(map: Seq<MemoryRegion>, memtype: u32) -> bool {
    exists|i: int| 0 <= i < map.len() && map[i].ty == memtype
}

/// Locates the channel tagged `memtype` in a memory map: the start of the
/// first entry of that type, or `NOT_FOUND` where there is none.
pub fn find_io_memory(memory_map: &Vec<MemoryRegion>, memtype: u32) -> (r: Result<u64, Status>)
    ensures
        r is Err <==> !has_type(memory_map@, memtype),
        r is Err ==> r->Err_0.0 == NOT_FOUND_CODE,
        r is Ok ==> exists|i: int|
            is_first_of_type(memory_map@, memtype, i) && memory_map@[i].phys_start == r->Ok_0,
{
    let mut i: usize = 0;
    while i < memory_map.len()
        invariant
            0 <= i <= memory_map.len(),
            forall|j: int| 0 <= j < i ==> memory_map@[j].ty != memtype,
        decreases memory_map.len() - i,
    {
        if memory_map[i].ty == memtype {
            assert(is_first_of_type(memory_map@, memtype, i as int));
            return Ok(memory_map[i].phys_start);
        }
        i = i + 1;
    }
    Err(Status(NOT_FOUND_CODE))
}

/// A channel of one kind of driver is never what a scan for the other kind
/// finds: an entry tagged for boot drivers is never the first entry tagged
/// for file system drivers, and the reverse.
pub proof fn lemma_tag_isolation(memory_map: Seq<MemoryRegion>, i: int)
    requires
        0 <= i < memory_map.len(),
    ensures
        memory_map[i].ty == BOOT_DRIVER_IO_MEMTYPE ==> !is_first_of_type(memory_map, FSYS_DRIVER_IO_MEMTYPE, i),
        memory_map[i].ty == FSYS_DRIVER_IO_MEMTYPE ==> !is_first_of_type(memory_map, BOOT_DRIVER_IO_MEMTYPE, i),
{
}

/// The number of pages that hold `bytes` bytes.
pub fn pages_for(bytes: usize) -> (r: usize)
    requires
        bytes + PAGE_SIZE - 1 <= usize::MAX,
    ensures
        r == (bytes + PAGE_SIZE - 1) / PAGE_SIZE as int,
        r * PAGE_SIZE >= bytes,
        r * PAGE_SIZE < bytes + PAGE_SIZE,
{
    let r = (bytes + (PAGE_SIZE - 1)) / PAGE_SIZE;
    proof {
        let b = bytes as int;
        assert(((b + 4095) / 4096) * 4096 >= b && ((b + 4095) / 4096) * 4096 < b + 4096) by (nonlinear_arith)
            requires
                b >= 0,
        ;
    }
    r
}

/// The two addresses that a channel carries: that of the driver's arguments,
/// and that of its output region, zero until the driver sets it.
#[derive(Clone, Copy, Debug, PartialEq, Eq, Structural)]
pub struct DriverIO {
    pub inptr: u64,
    pub outptr: u64,
}

impl DriverIO {
    /// The number of pages that a channel takes.
    pub fn page_count() -> (r: usize)
        ensures
            r == 1,
    {
        pages_for(DRIVER_IO_SIZE)
    }

    /// Resets both addresses to zero.
    pub fn zero(&mut self)
        ensures
            final(self).inptr == 0,
            final(self).outptr == 0,
    {
        self.inptr = 0;
        self.outptr = 0;
    }
}

/// The eight bytes of `n`, least significant first.
pub open spec fn le_bytes(n: u64) -> Seq<u8> {
    seq![
        n as u8,
        (n >> 8u64) as u8,
        (n >> 16u64) as u8,
        (n >> 24u64) as u8,
        (n >> 32u64) as u8,
        (n >> 40u64) as u8,
        (n >> 48u64) as u8,
        (n >> 56u64) as u8,
    ]
}

/// The number whose bytes, least significant first, open `b`.
pub open spec fn le_value(b: Seq<u8>) -> u64 {
    (b[0] as u64) | ((b[1] as u64) << 8u64) | ((b[2] as u64) << 16u64) | ((b[3] as u64) << 24u64)
        | ((b[4] as u64) << 32u64) | ((b[5] as u64) << 40u64) | ((b[6] as u64) << 48u64)
        | ((b[7] as u64) << 56u64)
}

/// An output region holding `payload`: its length as eight bytes, least
/// significant first, then its bytes.
pub open spec fn output_region(payload: Seq<u8>) -> Seq<u8> {
    le_bytes(payload.len() as u64) + payload
}

/// The payload that an output region holds, or `None` where the region is
/// too short for its length field or for the length that field gives.
pub open spec fn output_payload(region: Seq<u8>) -> Option<Seq<u8>> {
    if region.len() < OUTPUT_LENGTH_SIZE {
        None
    } else {
        let n = le_value(region.subrange(0, OUTPUT_LENGTH_SIZE as int)) as int;
        if n > region.len() - OUTPUT_LENGTH_SIZE {
            None
        } else {
            Some(region.subrange(OUTPUT_LENGTH_SIZE as int, OUTPUT_LENGTH_SIZE + n))
        }
    }
}

proof fn lemma_le_value_of_le_bytes(n: u64)
    ensures
        le_value(le_bytes(n)) == n,
{
    let b = le_bytes(n);
    assert(n == ((n as u8) as u64) | ((((n >> 8u64) as u8) as u64) << 8u64) | ((((n >> 16u64) as u8) as u64) << 16u64)
        | ((((n >> 24u64) as u8) as u64) << 24u64) | ((((n >> 32u64) as u8) as u64) << 32u64)
        | ((((n >> 40u64) as u8) as u64) << 40u64) | ((((n >> 48u64) as u8) as u64) << 48u64)
        | ((((n >> 56u64) as u8) as u64) << 56u64)) by (bit_vector);
}

/// Reading an output region gives back exactly the payload it was written
/// with: the same length and the same bytes.
pub proof fn lemma_output_round_trip(payload: Seq<u8>)
    requires
        payload.len() <= u64::MAX,
    ensures
        output_payload(output_region(payload)) == Some(payload),
{
    let region = output_region(payload);
    lemma_le_value_of_le_bytes(payload.len() as u64);
    assert(region.subrange(0, 8) =~= le_bytes(payload.len() as u64));
    assert(region.subrange(8, 8 + payload.len() as int) =~= payload);
}

/// Writes the output region that holds `payload`.
pub fn encode_output(payload: &Vec<u8>) -> (r: Vec<u8>)
    ensures
        r@ == output_region(payload@),
{
    let n = payload.len() as u64;
    let mut r: Vec<u8> = Vec::new();
    r.push(n as u8);
    r.push((n >> 8u64) as u8);
    r.push((n >> 16u64) as u8);
    r.push((n >> 24u64) as u8);
    r.push((n >> 32u64) as u8);
    r.push((n >> 40u64) as u8);
    r.push((n >> 48u64) as u8);
    r.push((n >> 56u64) as u8);
    let mut i: usize = 0;
    while i < payload.len()
        invariant
            0 <= i <= payload.len(),
            r@ == le_bytes(n) + payload@.subrange(0, i as int),
        decreases payload.len() - i,
    {
        r.push(payload[i]);
        i = i + 1;
        assert(payload@.subrange(0, i as int) =~= payload@.subrange(0, i - 1) + seq![payload@[i - 1]]);
    }
    assert(payload@.subrange(0, payload.len() as int) =~= payload@);
    r
}

/// Reads the payload of an output region, or `None` where the region is
/// shorter than its length field says.
pub fn decode_output(region: &Vec<u8>) -> (r: Option<Vec<u8>>)
    ensures
        r is None <==> output_payload(region@) is None,
        r is Some ==> output_payload(region@) == Some(r->Some_0@),
{
    if region.len() < OUTPUT_LENGTH_SIZE {
        return None;
    }
    let n: u64 = (region[0] as u64) | ((region[1] as u64) << 8u64) | ((region[2] as u64) << 16u64)
        | ((region[3] as u64) << 24u64) | ((region[4] as u64) << 32u64) | ((region[5] as u64) << 40u64)
        | ((region[6] as u64) << 48u64) | ((region[7] as u64) << 56u64);
    assert(n == le_value(region@.subrange(0, 8)));
    if n > (region.len() - OUTPUT_LENGTH_SIZE) as u64 {
        return None;
    }
    let end: usize = OUTPUT_LENGTH_SIZE + n as usize;
    let mut out: Vec<u8> = Vec::new();
    let mut i: usize = OUTPUT_LENGTH_SIZE;
    while i < end
        invariant
            OUTPUT_LENGTH_SIZE <= i <= end,
            end <= region.len(),
            out@ == region@.subrange(OUTPUT_LENGTH_SIZE as int, i as int),
        decreases end - i,
    {
        out.push(region[i]);
        i = i + 1;
        assert(region@.subrange(8, i as int) =~= region@.subrange(8, i - 1) + seq![region@[i - 1]]);
    }
    Some(out)
}

/// The number of pages of the output region that holds `len` bytes.
pub fn output_page_count(len: usize) -> (r: usize)
    requires
        len + OUTPUT_LENGTH_SIZE + PAGE_SIZE - 1 <= usize::MAX,
    ensures
        r == (len + OUTPUT_LENGTH_SIZE + PAGE_SIZE - 1) / PAGE_SIZE as int,
        r * PAGE_SIZE >= len + OUTPUT_LENGTH_SIZE,
{
    pages_for(len + OUTPUT_LENGTH_SIZE)
}

} // verus!
