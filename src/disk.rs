//! Byte-, sector- and block-granular reads on a volume of a disk.
use vstd::prelude::*;

use uefi::proto::media::disk::DiskIo;
use uefi::Status;

verus! {

#[verifier::external_type_specification]
#[verifier::external_body]
pub struct ExDiskIo(DiskIo);

/// The size of a sector for a medium whose blocks are `block_size` bytes,
/// `ratio` of them making up a physical block (zero when unset).
pub open spec fn spec_sector_size(block_size: u32, ratio: u32) -> u32 {
    if ratio == 0 {
        block_size
    } else {
        (block_size / ratio) as u32
    }
}

/// Computes the sector size of a medium from its block size and its number
/// of logical blocks per physical block.
pub fn sector_size_for(block_size: u32, logical_blocks_per_physical_block: u32) -> (r: u32)
    ensures
        r == spec_sector_size(block_size, logical_blocks_per_physical_block),
        r <= block_size,
{
    if logical_blocks_per_physical_block == 0 {
        block_size
    } else {
        block_size / logical_blocks_per_physical_block
    }
}

/// Where the ratio of logical to physical blocks divides the block size
/// evenly, that many sectors make up exactly one block.
pub proof fn lemma_sectors_fill_block(block_size: u32, ratio: u32)
    requires
        ratio > 0,
        block_size % ratio == 0,
    ensures
        spec_sector_size(block_size, ratio) * ratio == block_size,
{
    assert((block_size / ratio) * ratio == block_size) by (nonlinear_arith)
        requires
            ratio > 0,
            block_size % ratio == 0,
    ;
}

/// The disk offset of the byte `offset` bytes into a volume that begins
/// `abs_offset` bytes into the disk.
pub fn volume_offset(abs_offset: u64, offset: u64) -> (r: u64)
    requires
        abs_offset + offset <= u64::MAX,
    ensures
        r == abs_offset + offset,
{
    abs_offset + offset
}

/// The offset and length in bytes of `count` units of `unit_size` bytes
/// from unit `index` on.
pub fn span(unit_size: u32, index: u64, count: usize) -> (r: (u64, usize))
    requires
        index * unit_size <= u64::MAX,
        count * unit_size <= usize::MAX,
    ensures
        r.0 == index * unit_size,
        r.1 == count * unit_size,
{
    (index * unit_size as u64, count * unit_size as usize)
}

/// Relies on `DiskIo::read_disk`: it reads into the buffer in place, which
/// keeps its length, and reports a failure of the device as its status,
/// which is never the success code (`Status::to_result`).
#[verifier::external_body]
fn read_disk(protocol: &DiskIo, media_id: u32, offset: u64, buffer: &mut Vec<u8>) -> (r: Result<(), Status>)
    ensures
        final(buffer)@.len() == old(buffer)@.len(),
        r is Err ==> r->Err_0.0 != 0,
{
    match protocol.read_disk(media_id, offset, buffer.as_mut_slice()) {
        Ok(()) => Ok(()),
        Err(e) => Err(e.status()),
    }
}

/// Reads a volume that begins `abs_offset` bytes into a disk, in bytes,
/// sectors or blocks.
pub struct DiskReader<'a> {
    /// The disk I/O protocol of the disk.
    pub protocol: &'a DiskIo,
    /// The offset within the disk at which the volume begins.
    pub abs_offset: u64,
    /// The identifier of the medium, which the firmware checks on each read.
    pub media_id: u32,
    /// The number of bytes in a sector.
    pub sector_size: u32,
    /// The number of bytes in a logical block.
    pub block_size: u32,
    /// The final logical block address of the volume.
    pub last_block: u64,
}

impl<'a> DiskReader<'a> {
    /// Creates a reader over `protocol` from what the disk's block I/O
    /// media reports: its identifier, block size, logical blocks per physical
    /// block, and last block.
    pub fn new(
        protocol: &'a DiskIo,
        abs_offset: u64,
        media_id: u32,
        block_size: u32,
        logical_blocks_per_physical_block: u32,
        last_block: u64,
    ) -> (r: DiskReader<'a>)
        ensures
            r.abs_offset == abs_offset,
            r.media_id == media_id,
            r.block_size == block_size,
            r.sector_size == spec_sector_size(block_size, logical_blocks_per_physical_block),
            r.last_block == last_block,
            r.sector_size <= r.block_size,
            r.protocol == protocol,
    {
        let sector_size = sector_size_for(block_size, logical_blocks_per_physical_block);
        DiskReader { protocol, abs_offset, media_id, sector_size, block_size, last_block }
    }

    /// The disk offset of the byte `offset` bytes into the volume.
    pub fn disk_offset(&self, offset: u64) -> (r: u64)
        requires
            self.abs_offset + offset <= u64::MAX,
        ensures
            r == self.abs_offset + offset,
    {
        volume_offset(self.abs_offset, offset)
    }

    /// The offset within the volume and the length in bytes of `count`
    /// sectors from sector `sector` on.
    pub fn sector_span(&self, sector: u64, count: usize) -> (r: (u64, usize))
        requires
            sector * self.sector_size <= u64::MAX,
            count * self.sector_size <= usize::MAX,
        ensures
            r.0 == sector * self.sector_size,
            r.1 == count * self.sector_size,
    {
        span(self.sector_size, sector, count)
    }

    /// The offset within the volume and the length in bytes of `count`
    /// blocks from logical block address `lba` on.
    pub fn block_span(&self, lba: u64, count: usize) -> (r: (u64, usize))
        requires
            lba * self.block_size <= u64::MAX,
            count * self.block_size <= usize::MAX,
        ensures
            r.0 == lba * self.block_size,
            r.1 == count * self.block_size,
    {
        span(self.block_size, lba, count)
    }

    /// Reads `count` bytes at `offset` bytes into the volume: the firmware
    /// is asked for `count` bytes of the medium `media_id` at the disk offset
    /// `disk_offset(offset)`.
    pub fn read_bytes(&self, offset: u64, count: usize) -> (r: Result<Vec<u8>, Status>)
        requires
            self.abs_offset + offset <= u64::MAX,
        ensures
            r is Ok ==> r->Ok_0@.len() == count,
            r is Err ==> r->Err_0.0 != 0,
    {
        let at = self.disk_offset(offset);
        let mut buffer: Vec<u8> = vec![0u8; count];
        match read_disk(self.protocol, self.media_id, at, &mut buffer) {
            Ok(()) => Ok(buffer),
            Err(status) => Err(status),
        }
    }

    /// Reads sector `sector`: `read_bytes` over `sector_span(sector, 1)`,
    /// that is `sector_size` bytes at `sector * sector_size`.
    pub fn read_sector(&self, sector: u64) -> (r: Result<Vec<u8>, Status>)
        requires
            self.abs_offset + sector * self.sector_size <= u64::MAX,
        ensures
            r is Ok ==> r->Ok_0@.len() == self.sector_size,
            r is Err ==> r->Err_0.0 != 0,
    {
        self.read_sectors(sector, 1)
    }

    /// Reads `count` sectors from sector `sector` on: `read_bytes` over
    /// `sector_span(sector, count)`.
    pub fn read_sectors(&self, sector: u64, count: usize) -> (r: Result<Vec<u8>, Status>)
        requires
            self.abs_offset + sector * self.sector_size <= u64::MAX,
            count * self.sector_size <= usize::MAX,
        ensures
            r is Ok ==> r->Ok_0@.len() == count * self.sector_size,
            r is Err ==> r->Err_0.0 != 0,
    {
        proof {
            assert(0 <= sector * self.sector_size) by (nonlinear_arith);
        }
        let (offset, len) = self.sector_span(sector, count);
        self.read_bytes(offset, len)
    }

    /// Reads the block at logical block address `lba`: `read_bytes` over
    /// `block_span(lba, 1)`, that is `block_size` bytes at `lba * block_size`.
    pub fn read_block(&self, lba: u64) -> (r: Result<Vec<u8>, Status>)
        requires
            self.abs_offset + lba * self.block_size <= u64::MAX,
        ensures
            r is Ok ==> r->Ok_0@.len() == self.block_size,
            r is Err ==> r->Err_0.0 != 0,
    {
        self.read_blocks(lba, 1)
    }

    /// Reads `count` blocks from logical block address `lba` on:
    /// `read_bytes` over `block_span(lba, count)`.
    pub fn read_blocks(&self, lba: u64, count: usize) -> (r: Result<Vec<u8>, Status>)
        requires
            self.abs_offset + lba * self.block_size <= u64::MAX,
            count * self.block_size <= usize::MAX,
        ensures
            r is Ok ==> r->Ok_0@.len() == count * self.block_size,
            r is Err ==> r->Err_0.0 != 0,
    {
        proof {
            assert(0 <= lba * self.block_size) by (nonlinear_arith);
        }
        let (offset, len) = self.block_span(lba, count);
        self.read_bytes(offset, len)
    }
}

} // verus!
