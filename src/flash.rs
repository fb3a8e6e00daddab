//! The NOR flash primitive: byte-range read, page program and sector erase,
//! with a model of the chip's contents.
use vstd::prelude::*;

verus! {

/// Program granularity of the flash, in bytes.
pub const PAGE_SIZE: usize = 256;

/// Erase granularity of the flash (one sector, one engine region), in bytes.
pub const REGION_SIZE: usize = 4096;

/// The value of every byte of a freshly erased sector (all bits set).
pub const ERASED_BYTE: u8 = 0xFF;

/// One past the largest address that the hardware can take (addresses are 32-bit).
pub const ADDRESS_LIMIT: u64 = 0x1_0000_0000;

/// A page evenly divides a region.
pub proof fn page_divides_region()
    ensures
        REGION_SIZE % PAGE_SIZE == 0,
        REGION_SIZE / PAGE_SIZE == 16,
{
}

/// A failed hardware transaction.
#[derive(Clone, Copy, Debug, PartialEq, Eq, Structural)]
pub struct HwError;

/// Programming can only clear bits: each byte in `[addr, addr + data.len())`
/// becomes the bitwise AND of its old value and the data; the rest is kept.
pub open spec fn program(mem: Seq<u8>, addr: int, data: Seq<u8>) -> Seq<u8> {
    Seq::new(
        mem.len(),
        |i: int|
            if addr <= i < addr + data.len() {
                mem[i] & data[i - addr]
            } else {
                mem[i]
            },
    )
}

/// The first address of the page that holds `addr`.
pub open spec fn page_base(addr: int) -> int {
    addr - addr % (PAGE_SIZE as int)
}

/// Where byte `i` of `addr`'s page falls in a page program started at
/// `addr`: the program runs to the end of the page and wraps to its start.
pub open spec fn page_slot(addr: int, i: int) -> int {
    (i - addr) % (PAGE_SIZE as int)
}

/// Whether address `i` lies in the page that holds `addr`.
pub open spec fn in_page_of(addr: int, i: int) -> bool {
    page_base(addr) <= i < page_base(addr) + PAGE_SIZE
}

/// A page program of `data` (at most a page) started at `addr`: byte `k` of
/// `data` is programmed `k` bytes further on, wrapping at the end of the
/// page to its start, so nothing outside that page changes.
pub open spec fn program_page(mem: Seq<u8>, addr: int, data: Seq<u8>) -> Seq<u8> {
    Seq::new(
        mem.len(),
        |i: int|
            if in_page_of(addr, i) && page_slot(addr, i) < data.len() {
                mem[i] & data[page_slot(addr, i)]
            } else {
                mem[i]
            },
    )
}

/// `after` differs from `before` at most inside the page that holds `addr`.
pub open spec fn same_outside_page(before: Seq<u8>, after: Seq<u8>, addr: int) -> bool {
    &&& after.len() == before.len()
    &&& forall|i: int| 0 <= i < before.len() && !in_page_of(addr, i) ==> after[i] == before[i]
}

/// Erasing sector `index` sets its bytes to `ERASED_BYTE` and keeps the rest.
pub open spec fn erase_sector_of(mem: Seq<u8>, index: int) -> Seq<u8> {
    Seq::new(
        mem.len(),
        |i: int|
            if index * REGION_SIZE <= i < (index + 1) * REGION_SIZE {
                ERASED_BYTE
            } else {
                mem[i]
            },
    )
}

/// `len` bytes filled with `ERASED_BYTE`.
pub open spec fn erased(len: nat) -> Seq<u8> {
    Seq::new(len, |i: int| ERASED_BYTE)
}

/// A NOR flash chip as the storage adapter drives it.
///
/// `contents` is the whole chip, byte by byte. A `reliable` device completes
/// every transaction that stays inside the chip; any device may fail a
/// transaction, and a failed read changes nothing.
pub trait NorFlash {
    spec fn contents(&self) -> Seq<u8>;

    spec fn reliable(&self) -> bool;

    /// Reads `buf.len()` bytes starting at `addr`.
    fn read(&mut self, addr: u32, buf: &mut [u8]) -> (r: Result<(), HwError>)
        ensures
            final(self).contents() == old(self).contents(),
            final(self).reliable() == old(self).reliable(),
            final(buf)@.len() == old(buf)@.len(),
            r is Ok ==> addr + old(buf)@.len() <= old(self).contents().len() && final(buf)@
                == old(self).contents().subrange(addr as int, addr + old(buf)@.len()),
            old(self).reliable() && addr + old(buf)@.len() <= old(self).contents().len() ==> r is Ok,
    ;

    /// Programs at most one page of `data` from `addr` on, wrapping within
    /// `addr`'s page. A failed program may have changed that page only.
    fn write_page(&mut self, addr: u32, data: &[u8]) -> (r: Result<(), HwError>)
        requires
            data@.len() <= PAGE_SIZE,
        ensures
            final(self).reliable() == old(self).reliable(),
            same_outside_page(old(self).contents(), final(self).contents(), addr as int),
            r is Ok ==> page_base(addr as int) + PAGE_SIZE <= old(self).contents().len()
                && final(self).contents() == program_page(old(self).contents(), addr as int, data@),
            old(self).reliable() && page_base(addr as int) + PAGE_SIZE <= old(
                self,
            ).contents().len() ==> r is Ok,
    ;

    /// Erases sector `index`, the bytes `[index * REGION_SIZE, (index + 1) * REGION_SIZE)`.
    fn erase_sector(&mut self, index: u32) -> (r: Result<(), HwError>)
        ensures
            final(self).contents().len() == old(self).contents().len(),
            final(self).reliable() == old(self).reliable(),
            r is Ok ==> (index + 1) * REGION_SIZE <= old(self).contents().len() 
                && final(self).contents() == erase_sector_of(old(self).contents(), index as int),
            old(self).reliable() && (index + 1) * REGION_SIZE <= old(self).contents().len() ==> r is Ok,
    ;
}

/// A NOR flash chip held in memory: it programs and erases as the hardware
/// does and never fails a transaction inside the chip.
pub struct RamNorFlash {
    bytes: Vec<u8>,
}

impl RamNorFlash {
    /// A chip of `sectors` erased sectors.
    pub fn new(sectors: u32) -> (r: RamNorFlash)
        requires
            sectors * REGION_SIZE < ADDRESS_LIMIT,
        ensures
            r.contents() == erased((sectors * REGION_SIZE) as nat),
    {
        let len: usize = sectors as usize * REGION_SIZE;
        let mut bytes: Vec<u8> = Vec::new();
        let mut i: usize = 0;
        while i < len
            invariant
                i <= len,
                bytes@ == erased(i as nat),
            decreases len - i,
        {
            bytes.push(ERASED_BYTE);
            i += 1;
            assert(bytes@ =~= erased(i as nat));
        }
        RamNorFlash { bytes }
    }

    /// The chip's size in bytes.
    pub fn capacity(&self) -> (r: usize)
        ensures
            r == self.contents().len(),
    {
        self.bytes.len()
    }

    /// The byte at `addr`.
    pub fn byte_at(&self, addr: usize) -> (r: u8)
        requires
            addr < self.contents().len(),
        ensures
            r == self.contents()[addr as int],
    {
        self.bytes[addr]
    }
}

impl NorFlash for RamNorFlash {
    closed spec fn contents(&self) -> Seq<u8> {
        self.bytes@
    }

    open spec fn reliable(&self) -> bool {
        true
    }

    fn read(&mut self, addr: u32, buf: &mut [u8]) -> (r: Result<(), HwError>) {
        let len = buf.len();
        if addr as usize > self.bytes.len() || len > self.bytes.len() - addr as usize {
            return Err(HwError);
        }
        let start: usize = addr as usize;
        let n: usize = self.bytes.len();
        let mut i: usize = 0;
        while i < len
            invariant
                i <= len,
                len == old(buf)@.len(),
                start + len <= n,
                n == self.bytes@.len(),
                buf@.len() == len,
                forall|j: int| 0 <= j < i ==> buf@[j] == self.bytes@[start + j],
            decreases len - i,
        {
            buf[i] = self.bytes[start + i];
            i += 1;
        }
        assert(buf@ =~= self.bytes@.subrange(start as int, start + len));
        Ok(())
    }

    fn write_page(&mut self, addr: u32, data: &[u8]) -> (r: Result<(), HwError>) {
        let len = data.len();
        let offset: usize = addr as usize % PAGE_SIZE;
        let base: usize = addr as usize - offset;
        if base > self.bytes.len() || PAGE_SIZE > self.bytes.len() - base {
            return Err(HwError);
        }
        let ghost before = self.bytes@;
        let mut k: usize = 0;
        while k < len
            invariant
                k <= len,
                len == data@.len(),
                len <= PAGE_SIZE,
                offset < PAGE_SIZE,
                base == page_base(addr as int),
                offset == (addr as int) % (PAGE_SIZE as int),
                base + PAGE_SIZE <= before.len(),
                self.bytes@.len() == before.len(),
                forall|j: int|
                    0 <= j < before.len() ==> self.bytes@[j] == if in_page_of(addr as int, j)
                        && page_slot(addr as int, j) < k {
                        before[j] & data@[page_slot(addr as int, j)]
                    } else {
                        before[j]
                    },
            decreases len - k,
        {
            let at: usize = base + (offset + k) % PAGE_SIZE;
            assert(in_page_of(addr as int, at as int) && page_slot(addr as int, at as int) == k);
            let b = self.bytes[at] & data[k];
            self.bytes[at] = b;
            proof {
                assert forall|j: int|
                    0 <= j < before.len() && in_page_of(addr as int, j) && j != at implies page_slot(
                    addr as int,
                    j,
                ) != k by {}
            }
            k += 1;
        }
        assert(self.bytes@ =~= program_page(before, addr as int, data@));
        Ok(())
    }

    fn erase_sector(&mut self, index: u32) -> (r: Result<(), HwError>) {
        let sectors: usize = self.bytes.len() / REGION_SIZE;
        if index as usize >= sectors {
            return Err(HwError);
        }
        let start: usize = index as usize * REGION_SIZE;
        let ghost before = self.bytes@;
        let mut i: usize = 0;
        while i < REGION_SIZE
            invariant
                i <= REGION_SIZE,
                start == index * REGION_SIZE,
                start + REGION_SIZE <= before.len(),
                self.bytes@.len() == before.len(),
                forall|j: int|
                    0 <= j < before.len() ==> self.bytes@[j] == if start <= j < start + i {
                        ERASED_BYTE
                    } else {
                        before[j]
                    },
            decreases REGION_SIZE - i,
        {
            self.bytes[start + i] = ERASED_BYTE;
            i += 1;
        }
        assert(self.bytes@ =~= erase_sector_of(before, index as int));
        Ok(())
    }
}

} // verus!
