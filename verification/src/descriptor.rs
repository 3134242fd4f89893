//! The device descriptor table: a static record, read directly by the host
//! tool, that describes the target's memory geometry. Its sector list ends
//! with a sentinel entry whose size and address are both the maximum 32-bit
//! value, so the host tool can find the end of the list without a separate
//! length field.

use vstd::prelude::*;

verus! {

/// A contiguous erase-granularity region of the device, described by its
/// size in bytes and its start address.
#[derive(Clone, Copy, Debug, Eq, PartialEq, Structural)]
pub struct Sector {
    pub size: u32,
    pub address: u32,
}

/// The sentinel entry terminating a descriptor's sector list: size and
/// address both all-ones.
pub open spec fn spec_sentinel() -> Sector {
    (Sector { size: 0xffff_ffff, address: 0xffff_ffff })
}

/// The sentinel entry terminating a descriptor's sector list.
pub fn sentinel() -> (r: Sector)
    ensures
        r == spec_sentinel(),
{
    Sector { size: 0xffff_ffff, address: 0xffff_ffff }
}

/// Whether the sectors of `s` stand in ascending address order. The host
/// tool walks the list in order, so this is a contract on whoever declares
/// the geometry, not something the record itself can enforce.
pub open spec fn sectors_ordered(s: Seq<Sector>) -> bool {
    forall|i: int, j: int| 0 <= i <= j < s.len() ==> s[i].address <= s[j].address
}

/// The device descriptor record, field for field as the host tool reads it:
/// a format version, a zero-padded name buffer, the fixed tag identifying a
/// flash-algorithm descriptor, the device's base address, total size and
/// page size, a reserved word, the byte value an erased cell reads as, the
/// advisory program and erase timeouts, and the sector list with its
/// terminating sentinel.
#[derive(Debug)]
pub struct FlashDevice {
    pub vers: u16,
    pub dev_name: [u8; 128],
    pub dev_type: u16,
    pub dev_addr: u32,
    pub device_size: u32,
    pub page_size: u32,
    pub reserved: u32,
    pub empty: u8,
    pub program_time_out: u32,
    pub erase_time_out: u32,
    pub flash_sectors: Vec<Sector>,
}

impl FlashDevice {
    /// The declared sectors of this descriptor: everything before the
    /// terminating sentinel.
    pub open spec fn declared_sectors(self) -> Seq<Sector> {
        self.flash_sectors@.drop_last()
    }

    /// Well-formedness of a descriptor as host tools rely on it: the fixed
    /// fields hold their contractual values, the name buffer is fully
    /// zero-padded, the sector list ends with the sentinel, and its entries
    /// stand in ascending address order.
    pub open spec fn wf(self) -> bool {
        &&& self.vers == 0
        &&& self.dev_type == 5
        &&& self.reserved == 0
        &&& self.program_time_out == 1000
        &&& self.erase_time_out == 2000
        &&& forall|i: int| 0 <= i < 128 ==> self.dev_name@[i] == 0
        &&& self.flash_sectors@.len() >= 1
        &&& self.flash_sectors@.last() == spec_sentinel()
        &&& sectors_ordered(self.declared_sectors())
    }

    /// Generate the descriptor for a device at `dev_addr` of `device_size`
    /// bytes, programmed `page_size` bytes at a time, whose erased cells
    /// read as `empty`, with the declared sector geometry. The emitted
    /// sector list holds exactly the declared sectors, in order, followed by
    /// one sentinel entry: one more entry than sectors were declared, so a
    /// host tool can compute the record's total size from the declared count
    /// alone.
    pub fn new(
        dev_addr: u32,
        device_size: u32,
        page_size: u32,
        empty: u8,
        sectors: Vec<Sector>,
    ) -> (r: FlashDevice)
        requires
            sectors_ordered(sectors@),
        ensures
            r.wf(),
            r.dev_addr == dev_addr,
            r.device_size == device_size,
            r.page_size == page_size,
            r.empty == empty,
            r.flash_sectors@ == sectors@.push(spec_sentinel()),
            r.flash_sectors@.len() == sectors@.len() + 1,
            r.declared_sectors() == sectors@,
    {
        let mut flash_sectors = sectors;
        flash_sectors.push(sentinel());
        let r = FlashDevice {
            vers: 0,
            dev_name: [0u8; 128],
            dev_type: 5,
            dev_addr,
            device_size,
            page_size,
            reserved: 0,
            empty,
            program_time_out: 1000,
            erase_time_out: 2000,
            flash_sectors,
        };
        proof {
            assert(r.declared_sectors() =~= sectors@);
        }
        r
    }

    /// The emitted sector list of a well-formed descriptor determines, and
    /// is determined by, its declared sectors: it is exactly the declared
    /// sectors followed by the sentinel, so it always holds one entry more
    /// than were declared, and its last entry is the sentinel.
    pub proof fn lemma_sector_list_shape(self)
        requires
            self.wf(),
        ensures
            self.flash_sectors@ == self.declared_sectors().push(spec_sentinel()),
            self.flash_sectors@.len() == self.declared_sectors().len() + 1,
            self.flash_sectors@.last() == spec_sentinel(),
    {
        assert(self.flash_sectors@ =~= self.declared_sectors().push(spec_sentinel()));
    }
}

} // verus!
