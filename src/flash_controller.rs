//! The flash controller that the storage engine drives: region reads, writes
//! of any length, and region erases, carried out page by page on a NOR flash.
use crate::error::ErrorCode;
use crate::flash::{
    erase_sector_of, in_page_of, page_base, program, program_page, same_outside_page, NorFlash,
    ADDRESS_LIMIT, ERASED_BYTE, PAGE_SIZE, REGION_SIZE,
};
use vstd::prelude::*;

verus! {

/// The bytes that whole pages cover when `len` bytes are written page by page.
pub open spec fn page_span(len: int) -> int {
    ((len + PAGE_SIZE - 1) / PAGE_SIZE as int) * PAGE_SIZE
}

/// The first address that `read_region(region_number, offset, ..)` reads.
pub open spec fn region_base(region_number: int, offset: int) -> int {
    region_number + offset
}

/// What a region read hands back when the flash holds `mem`.
pub open spec fn region_bytes(mem: Seq<u8>, region_number: int, offset: int) -> Seq<u8> {
    mem.subrange(
        region_base(region_number, offset),
        region_base(region_number, offset) + REGION_SIZE,
    )
}

/// Rewriting a byte with itself leaves it as it was.
proof fn and_idempotent(b: u8)
    ensures
        b & b == b,
{
    assert(b & b == b) by (bit_vector);
}

/// Programming `x` and then `y` right after it programs `x + y`.
proof fn program_concat(mem: Seq<u8>, addr: int, x: Seq<u8>, y: Seq<u8>)
    ensures
        program(program(mem, addr, x), addr + x.len(), y) == program(mem, addr, x + y),
{
    assert(program(program(mem, addr, x), addr + x.len(), y) =~= program(mem, addr, x + y));
}

/// Programming a page with its own bytes past `data` programs `data` alone.
proof fn program_with_own_tail(mem: Seq<u8>, addr: int, data: Seq<u8>, page: Seq<u8>)
    requires
        0 <= addr,
        addr + page.len() <= mem.len(),
        data.len() <= page.len(),
        page.subrange(0, data.len() as int) == data,
        page.subrange(data.len() as int, page.len() as int) == mem.subrange(
            addr + data.len(),
            addr + page.len(),
        ),
    ensures
        program(mem, addr, page) == program(mem, addr, data),
{
    assert forall|i: int| 0 <= i < mem.len() implies program(mem, addr, page)[i] == program(
        mem,
        addr,
        data,
    )[i] by {
        if addr + data.len() <= i < addr + page.len() {
            assert(page[i - addr] == page.subrange(data.len() as int, page.len() as int)[i - addr
                - data.len()]);
            and_idempotent(mem[i]);
        } else if addr <= i < addr + data.len() {
            assert(page[i - addr] == page.subrange(0, data.len() as int)[i - addr]);
        }
    }
    assert(program(mem, addr, page) =~= program(mem, addr, data));
}

/// The page that a short last chunk is merged into: the chunk, then the
/// page's bytes read after it from `addr` on.
pub open spec fn merged_page(mem: Seq<u8>, addr: int, chunk: Seq<u8>) -> Seq<u8> {
    chunk + mem.subrange(addr + chunk.len(), addr + PAGE_SIZE)
}

/// What `write(address, buf)` does to the flash when every transaction
/// succeeds: each whole page of `buf` is page-programmed at `address`,
/// `address + PAGE_SIZE`, ...; a short last chunk is overlaid at the start of
/// the page's bytes read from its address and that page is programmed.
pub open spec fn chunked_write(mem: Seq<u8>, address: int, buf: Seq<u8>) -> Seq<u8>
    decreases buf.len(),
{
    if buf.len() == 0 {
        mem
    } else if buf.len() < PAGE_SIZE {
        program_page(mem, address, merged_page(mem, address, buf))
    } else {
        chunked_write(
            program_page(mem, address, buf.subrange(0, PAGE_SIZE as int)),
            address + PAGE_SIZE,
            buf.subrange(PAGE_SIZE as int, buf.len() as int),
        )
    }
}

/// A write of `buf` at `address` that stopped when a page program failed:
/// the flash is as after the pages before it, but for the failed page.
pub open spec fn stopped_at_failed_page(
    before: Seq<u8>,
    after: Seq<u8>,
    address: int,
    buf: Seq<u8>,
) -> bool {
    exists|done: int|
        0 <= done < buf.len() && done % (PAGE_SIZE as int) == 0 && #[trigger] same_outside_page(
            chunked_write(before, address, buf.subrange(0, done)),
            after,
            address + done,
        )
}

proof fn stopped_at(before: Seq<u8>, after: Seq<u8>, address: int, buf: Seq<u8>, done: int)
    requires
        0 <= done < buf.len(),
        done % (PAGE_SIZE as int) == 0,
        same_outside_page(chunked_write(before, address, buf.subrange(0, done)), after, address + done),
    ensures
        stopped_at_failed_page(before, after, address, buf),
{
}

/// The length of the whole pages at the front of `len` bytes.
pub open spec fn whole_pages(len: int) -> int {
    len - len % (PAGE_SIZE as int)
}

/// Writing `x` (whole pages) and then `y` right after it is writing `x + y`.
proof fn chunked_write_split(mem: Seq<u8>, address: int, x: Seq<u8>, y: Seq<u8>)
    requires
        x.len() % (PAGE_SIZE as nat) == 0,
    ensures
        chunked_write(mem, address, x + y) == chunked_write(
            chunked_write(mem, address, x),
            address + x.len(),
            y,
        ),
    decreases x.len(),
{
    if x.len() == 0 {
        assert(x + y =~= y);
    } else {
        let p = PAGE_SIZE as int;
        let first = program_page(mem, address, x.subrange(0, p));
        assert((x + y).subrange(0, p) =~= x.subrange(0, p));
        assert((x + y).subrange(p, (x + y).len() as int) =~= x.subrange(p, x.len() as int) + y);
        chunked_write_split(first, address + p, x.subrange(p, x.len() as int), y);
    }
}

/// One chunk, whole or short, written at `address`.
proof fn chunked_write_one(mem: Seq<u8>, address: int, chunk: Seq<u8>)
    requires
        0 < chunk.len() <= PAGE_SIZE,
    ensures
        chunked_write(mem, address, chunk) == if chunk.len() < PAGE_SIZE {
            program_page(mem, address, merged_page(mem, address, chunk))
        } else {
            program_page(mem, address, chunk)
        },
{
    if chunk.len() == PAGE_SIZE {
        assert(chunk.subrange(0, PAGE_SIZE as int) =~= chunk);
        let rest = chunk.subrange(PAGE_SIZE as int, chunk.len() as int);
        let programmed = program_page(mem, address, chunk);
        assert(rest.len() == 0);
        assert(chunked_write(programmed, address + PAGE_SIZE, rest) == programmed);
    }
}

/// A page program from a page-aligned address programs the data in a
/// straight line.
proof fn aligned_program_page(mem: Seq<u8>, addr: int, data: Seq<u8>)
    requires
        0 <= addr,
        addr % (PAGE_SIZE as int) == 0,
        data.len() <= PAGE_SIZE,
    ensures
        program_page(mem, addr, data) == program(mem, addr, data),
{
    assert(page_base(addr) == addr);
    assert forall|i: int| 0 <= i < mem.len() implies program_page(mem, addr, data)[i] == program(
        mem,
        addr,
        data,
    )[i] by {
        if addr <= i < addr + PAGE_SIZE {
            assert((i - addr) % (PAGE_SIZE as int) == i - addr);
        }
    }
    assert(program_page(mem, addr, data) =~= program(mem, addr, data));
}

/// From a page-aligned address, a write programs `buf` in a straight line:
/// the bytes it covers become `old & buf` and every other byte is kept.
pub proof fn aligned_write_programs(mem: Seq<u8>, address: int, buf: Seq<u8>)
    requires
        0 <= address,
        address % (PAGE_SIZE as int) == 0,
        address + page_span(buf.len() as int) <= mem.len(),
    ensures
        chunked_write(mem, address, buf) == program(mem, address, buf),
    decreases buf.len(),
{
    let p = PAGE_SIZE as int;
    if buf.len() == 0 {
        assert(program(mem, address, buf) =~= mem);
    } else if buf.len() < PAGE_SIZE {
        let page = merged_page(mem, address, buf);
        aligned_program_page(mem, address, page);
        assert(page.subrange(0, buf.len() as int) =~= buf);
        assert(page.subrange(buf.len() as int, p) =~= mem.subrange(address + buf.len(), address + p));
        program_with_own_tail(mem, address, buf, page);
    } else {
        let head = buf.subrange(0, p);
        let rest = buf.subrange(p, buf.len() as int);
        aligned_program_page(mem, address, head);
        let m1 = program(mem, address, head);
        assert(page_span(buf.len() as int) == p + page_span(rest.len() as int));
        aligned_write_programs(m1, address + p, rest);
        program_concat(mem, address, head, rest);
        assert(head + rest =~= buf);
    }
}

/// Writes that stop short of a page, from a page-aligned address, keep the
/// rest of that page: the bytes past the written ones are unchanged.
pub proof fn partial_page_write_keeps_tail(mem: Seq<u8>, address: int, data: Seq<u8>)
    requires
        0 <= address,
        address % (PAGE_SIZE as int) == 0,
        data.len() < PAGE_SIZE,
        address + PAGE_SIZE <= mem.len(),
    ensures
        forall|i: int|
            data.len() <= i < PAGE_SIZE ==> #[trigger] chunked_write(mem, address, data)[address
                + i] == mem[address + i],
{
    assert(page_span(data.len() as int) <= PAGE_SIZE);
    aligned_write_programs(mem, address, data);
}

/// A short write from an address inside a page, that ends inside that page,
/// programs the bytes read past the page's end over the start of the page:
/// the bytes before `address` in its page are ANDed with those of the next
/// page, so a write that is not page-aligned damages that prefix.
pub proof fn unaligned_short_write_damages_page_start(mem: Seq<u8>, address: int, data: Seq<u8>)
    requires
        0 <= address,
        0 < data.len(),
        address % (PAGE_SIZE as int) + data.len() <= PAGE_SIZE,
        address + PAGE_SIZE <= mem.len(),
    ensures
        forall|j: int|
            0 <= j < address % (PAGE_SIZE as int) ==> #[trigger] chunked_write(
                mem,
                address,
                data,
            )[page_base(address) + j] == mem[page_base(address) + j] & mem[page_base(address)
                + PAGE_SIZE + j],
{
    let off = address % (PAGE_SIZE as int);
    let base = page_base(address);
    let page = merged_page(mem, address, data);
    assert forall|j: int| 0 <= j < off implies #[trigger] chunked_write(mem, address, data)[base
        + j] == mem[base + j] & mem[base + PAGE_SIZE + j] by {
        assert(in_page_of(address, base + j));
        assert((base + j - address) % (PAGE_SIZE as int) == PAGE_SIZE - off + j);
        assert(page[PAGE_SIZE - off + j] == mem[address + PAGE_SIZE - off + j]);
    }
}

/// Erasing sector `n` makes every byte of it `ERASED_BYTE` and keeps every
/// other byte.
pub proof fn erase_sets_sector_erased(mem: Seq<u8>, n: int)
    ensures
        erase_sector_of(mem, n).len() == mem.len(),
        forall|i: int|
            n * REGION_SIZE <= i < (n + 1) * REGION_SIZE && 0 <= i < mem.len() ==> #[trigger] erase_sector_of(mem, n)[i]
                == ERASED_BYTE,
        forall|i: int|
            0 <= i < mem.len() && !(n * REGION_SIZE <= i < (n + 1) * REGION_SIZE) ==> #[trigger] erase_sector_of(
                mem,
                n,
            )[i] == mem[i],
{
}

/// Bytes programmed over erased flash read back exactly as they were
/// written, and the bytes around them keep their values.
pub proof fn programmed_erased_bytes_read_back(mem: Seq<u8>, address: int, data: Seq<u8>)
    requires
        0 <= address,
        address + data.len() <= mem.len(),
        forall|i: int| address <= i < address + data.len() ==> mem[i] == ERASED_BYTE,
    ensures
        program(mem, address, data).subrange(address, address + data.len()) == data,
        forall|i: int|
            0 <= i < mem.len() && !(address <= i < address + data.len()) ==> #[trigger] program(
                mem,
                address,
                data,
            )[i] == mem[i],
{
    let written = program(mem, address, data).subrange(address, address + data.len());
    assert forall|i: int| 0 <= i < data.len() implies #[trigger] written[i] == data[i] by {
        let d = data[i];
        assert(0xFFu8 & d == d) by (bit_vector);
    }
    assert(program(mem, address, data).subrange(address, address + data.len()) =~= data);
}

/// After region 0 has been erased, reading region 0 hands back erased bytes
/// only. Region `n` is read from address `n` and erased as sector `n`, so for
/// any other region the two do not cover the same bytes.
pub proof fn erased_region_reads_erased(mem: Seq<u8>)
    requires
        REGION_SIZE <= mem.len(),
    ensures
        region_bytes(erase_sector_of(mem, 0), 0, 0) == Seq::new(
            REGION_SIZE as nat,
            |i: int| ERASED_BYTE,
        ),
{
    assert(region_bytes(erase_sector_of(mem, 0), 0, 0) =~= Seq::new(
        REGION_SIZE as nat,
        |i: int| ERASED_BYTE,
    ));
}

/// Puts `src[from..from + n]` at the start of `dst` and keeps the rest of `dst`.
fn overlay(dst: &mut Vec<u8>, src: &[u8], from: usize, n: usize)
    requires
        n <= old(dst)@.len(),
        from + n <= src@.len(),
    ensures
        final(dst)@ == src@.subrange(from as int, from + n) + old(dst)@.subrange(
            n as int,
            old(dst)@.len() as int,
        ),
{
    let ghost before = dst@;
    let total: usize = src.len();
    let mut j: usize = 0;
    while j < n
        invariant
            total == src@.len(),
            j <= n,
            n <= before.len(),
            from + n <= src@.len(),
            dst@.len() == before.len(),
            forall|k: int| 0 <= k < j ==> dst@[k] == src@[from + k],
            forall|k: int| j <= k < before.len() ==> dst@[k] == before[k],
        decreases n - j,
    {
        dst[j] = src[from + j];
        j += 1;
    }
    assert(dst@ =~= src@.subrange(from as int, from + n) + before.subrange(
        n as int,
        before.len() as int,
    ));
}

/// Puts `page` into `buf` at `at` and keeps the rest of `buf`.
fn place_page(buf: &mut [u8; REGION_SIZE], at: usize, page: &Vec<u8>)
    requires
        at + page@.len() <= REGION_SIZE,
    ensures
        final(buf)@.len() == REGION_SIZE,
        forall|k: int| 0 <= k < at ==> final(buf)@[k] == old(buf)@[k],
        forall|k: int| 0 <= k < page@.len() ==> final(buf)@[at + k] == page@[k],
{
    let n: usize = page.len();
    let mut j: usize = 0;
    while j < n
        invariant
            j <= n,
            n == page@.len(),
            at + n <= REGION_SIZE,
            buf@.len() == REGION_SIZE,
            forall|k: int| 0 <= k < at ==> buf@[k] == old(buf)@[k],
            forall|k: int| 0 <= k < j ==> buf@[at + k] == page@[k],
        decreases n - j,
    {
        buf[at + j] = page[j];
        j += 1;
    }
}

/// Drives a NOR flash for the storage engine, with one page of scratch
/// memory for writes that do not fill a page.
pub struct SpiNorFlashController<F: NorFlash> {
    flash: F,
    scratchpad: Vec<u8>,
}

impl<F: NorFlash> SpiNorFlashController<F> {
    /// The flash device driven.
    pub closed spec fn device(&self) -> F {
        self.flash
    }

    /// The scratch memory is one page.
    pub closed spec fn wf(&self) -> bool {
        self.scratchpad@.len() == PAGE_SIZE
    }

    /// Takes the flash and the scratch memory; fails with
    /// `BufferTooSmall(PAGE_SIZE)` when the scratch memory is shorter than a
    /// page. Only its first page is used.
    pub fn new(flash: F, scratchpad: Vec<u8>) -> (r: Result<Self, ErrorCode>)
        ensures
            scratchpad@.len() < PAGE_SIZE <==> r is Err,
            r is Err ==> r->Err_0 == ErrorCode::BufferTooSmall(PAGE_SIZE),
            r is Ok ==> r->Ok_0.wf() && r->Ok_0.device() == flash,
    {
        if scratchpad.len() < PAGE_SIZE {
            Err(ErrorCode::BufferTooSmall(PAGE_SIZE))
        } else {
            let mut scratchpad = scratchpad;
            scratchpad.truncate(PAGE_SIZE);
            Ok(SpiNorFlashController { flash, scratchpad })
        }
    }

    /// Gives the flash device back.
    pub fn into_flash(self) -> (r: F)
        ensures
            r == self.device(),
    {
        self.flash
    }

    /// Fills `buf` with the region's bytes, read one page at a time from
    /// address `region_number + offset` on.
    pub fn read_region(
        &mut self,
        region_number: usize,
        offset: usize,
        buf: &mut [u8; REGION_SIZE],
    ) -> (r: Result<(), ErrorCode>)
        requires
            old(self).wf(),
            region_base(region_number as int, offset as int) + REGION_SIZE <= ADDRESS_LIMIT,
        ensures
            final(self).wf(),
            final(self).device().contents() == old(self).device().contents(),
            final(self).device().reliable() == old(self).device().reliable(),
            r is Err ==> r->Err_0 == ErrorCode::ReadFail,
            r is Ok ==> region_base(region_number as int, offset as int) + REGION_SIZE
                <= old(self).device().contents().len() && final(buf)@ == region_bytes(
                old(self).device().contents(),
                region_number as int,
                offset as int,
            ),
            old(self).device().reliable() && region_base(region_number as int, offset as int)
                + REGION_SIZE <= old(self).device().contents().len() ==> r is Ok,
    {
        let base_addr: usize = region_number + offset;
        let ghost mem = self.flash.contents();
        let mut pos: usize = 0;
        while pos < REGION_SIZE
            invariant
                self.wf(),
                mem == old(self).device().contents(),
                self.flash.contents() == mem,
                self.flash.reliable() == old(self).device().reliable(),
                base_addr == region_base(region_number as int, offset as int),
                base_addr + REGION_SIZE <= ADDRESS_LIMIT,
                pos <= REGION_SIZE,
                pos % PAGE_SIZE == 0,
                buf@.len() == REGION_SIZE,
                pos > 0 ==> base_addr + pos <= mem.len(),
                forall|j: int| 0 <= j < pos ==> buf@[j] == mem[base_addr + j],
            decreases REGION_SIZE - pos,
        {
            let addr: u32 = (base_addr + pos) as u32;
            let rd = self.flash.read(addr, self.scratchpad.as_mut_slice());
            if rd.is_err() {
                return Err(ErrorCode::ReadFail);
            }
            place_page(buf, pos, &self.scratchpad);
            assert forall|k: int| 0 <= k < pos + PAGE_SIZE implies buf@[k] == mem[base_addr + k] by {
                if k >= pos {
                    assert(buf@[pos + (k - pos)] == self.scratchpad@[k - pos]);
                }
            }
            pos += PAGE_SIZE;
        }
        assert(buf@ =~= region_bytes(mem, region_number as int, offset as int));
        Ok(())
    }

    /// Programs `buf` at `address`, one page at a time: whole pages go to
    /// `address`, `address + PAGE_SIZE`, ... in that order. A last chunk
    /// shorter than a page is merged into the bytes read from its address
    /// (overlaid at their start) and programmed as a page. The merge keeps
    /// the rest of the page only when `address` is page-aligned; from an
    /// address inside a page, the page program wraps and the bytes read past
    /// the page's end land on its start (`unaligned_short_write_damages_page_start`).
    /// A failure stops the write: pages already programmed stay programmed.
    pub fn write(&mut self, address: usize, buf: &[u8]) -> (r: Result<(), ErrorCode>)
        requires
            old(self).wf(),
            address + page_span(buf@.len() as int) <= ADDRESS_LIMIT,
        ensures
            final(self).wf(),
            final(self).device().contents().len() == old(self).device().contents().len(),
            final(self).device().reliable() == old(self).device().reliable(),
            buf@.len() == 0 ==> r is Ok && final(self).device().contents() == old(
                self,
            ).device().contents(),
            r is Ok ==> final(self).device().contents() == chunked_write(
                old(self).device().contents(),
                address as int,
                buf@,
            ),
            r is Err ==> r->Err_0 == ErrorCode::ReadFail || r->Err_0 == ErrorCode::WriteFail,
            r == Err::<(), ErrorCode>(ErrorCode::ReadFail) ==> buf@.len() % (PAGE_SIZE as nat) != 0
                && final(self).device().contents() == chunked_write(
                old(self).device().contents(),
                address as int,
                buf@.subrange(0, whole_pages(buf@.len() as int)),
            ),
            r == Err::<(), ErrorCode>(ErrorCode::WriteFail) ==> stopped_at_failed_page(
                old(self).device().contents(),
                final(self).device().contents(),
                address as int,
                buf@,
            ),
            old(self).device().reliable() && address + page_span(buf@.len() as int)
                <= old(self).device().contents().len() ==> r is Ok,
    {
        let len: usize = buf.len();
        let ghost mem = self.flash.contents();
        let mut pos: usize = 0;
        while pos < len
            invariant
                self.wf(),
                mem == old(self).device().contents(),
                len == buf@.len(),
                pos <= len,
                pos < len ==> pos % PAGE_SIZE == 0,
                address + page_span(len as int) <= ADDRESS_LIMIT,
                self.flash.reliable() == old(self).device().reliable(),
                self.flash.contents().len() == mem.len(),
                self.flash.contents() == chunked_write(
                    mem,
                    address as int,
                    buf@.subrange(0, pos as int),
                ),
            decreases len - pos,
        {
            assert(pos + PAGE_SIZE <= page_span(len as int));
            let addr: u32 = (address + pos) as u32;
            let ghost cur = self.flash.contents();
            let ghost done = buf@.subrange(0, pos as int);
            let remaining: usize = len - pos;
            if remaining < PAGE_SIZE {
                let rd = self.flash.read(addr, self.scratchpad.as_mut_slice());
                if rd.is_err() {
                    assert(whole_pages(len as int) == pos);
                    return Err(ErrorCode::ReadFail);
                }
                overlay(&mut self.scratchpad, buf, pos, remaining);
                let ghost chunk = buf@.subrange(pos as int, len as int);
                assert(self.scratchpad@ =~= merged_page(cur, addr as int, chunk));
                assert(addr as int == address + pos);
                let wr = self.flash.write_page(addr, self.scratchpad.as_slice());
                if wr.is_err() {
                    proof {
                        stopped_at(mem, self.flash.contents(), address as int, buf@, pos as int);
                    }
                    return Err(ErrorCode::WriteFail);
                }
                proof {
                    chunked_write_one(cur, addr as int, chunk);
                    chunked_write_split(mem, address as int, done, chunk);
                    assert(done + chunk =~= buf@.subrange(0, len as int));
                }
                pos = len;
            } else {
                overlay(&mut self.scratchpad, buf, pos, PAGE_SIZE);
                let ghost chunk = buf@.subrange(pos as int, pos + PAGE_SIZE);
                assert(self.scratchpad@ =~= chunk);
                assert(addr as int == address + pos);
                let wr = self.flash.write_page(addr, self.scratchpad.as_slice());
                if wr.is_err() {
                    proof {
                        stopped_at(mem, self.flash.contents(), address as int, buf@, pos as int);
                    }
                    return Err(ErrorCode::WriteFail);
                }
                proof {
                    chunked_write_one(cur, addr as int, chunk);
                    chunked_write_split(mem, address as int, done, chunk);
                    assert(done + chunk =~= buf@.subrange(0, pos + PAGE_SIZE));
                }
                pos = pos + PAGE_SIZE;
            }
        }
        assert(buf@.subrange(0, len as int) =~= buf@);
        Ok(())
    }

    /// Erases the region: one sector erase at index `region_number`.
    pub fn erase_region(&mut self, region_number: usize) -> (r: Result<(), ErrorCode>)
        requires
            old(self).wf(),
            region_number < ADDRESS_LIMIT,
        ensures
            final(self).wf(),
            final(self).device().contents().len() == old(self).device().contents().len(),
            final(self).device().reliable() == old(self).device().reliable(),
            r is Err ==> r->Err_0 == ErrorCode::EraseFail,
            r is Ok ==> final(self).device().contents() == erase_sector_of(
                old(self).device().contents(),
                region_number as int,
            ),
            old(self).device().reliable() && (region_number + 1) * REGION_SIZE
                <= old(self).device().contents().len() ==> r is Ok,
    {
        let er = self.flash.erase_sector(region_number as u32);
        if er.is_err() {
            return Err(ErrorCode::EraseFail);
        }
        Ok(())
    }
}

} // verus!
