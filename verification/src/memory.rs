//! Byte snapshots of the target's address space.
//!
//! [`Memory`] is the frozen world the walker reads instances from: a set of
//! regions, looked up first-match, with every unmapped address reading as
//! zero.  [`PageSource`] carries the per-page results of the host's raw
//! memory-read primitive, and [`MemoryImage`] is the contiguous best-effort
//! buffer assembled from it, with unreadable pages left zero-filled.

use vstd::prelude::*;

verus! {

/// Bytes in one page-sized read, 4096 except for a final partial page.
pub const PAGE_SIZE: usize = 4096;

/// Wrapping 64-bit address addition, as the hardware computes it.
pub open spec fn wadd(a: u64, b: u64) -> u64 {
    vstd::wrapping::u64_specs::wrapping_add(a, b)
}

/// Wrapping 64-bit address subtraction.
pub open spec fn wsub(a: u64, b: u64) -> u64 {
    vstd::wrapping::u64_specs::wrapping_sub(a, b)
}

/// One contiguous run of mapped bytes in the frozen target.
#[derive(Debug, Clone)]
pub struct Region {
    pub base: u64,
    pub bytes: Vec<u8>,
}

/// A frozen snapshot of an address space.
///
/// A byte is taken from the first region in order that covers its address;
/// an address no region covers reads as zero, the same absorption that keeps
/// a partial read from becoming fatal.
#[derive(Debug, Clone)]
pub struct Memory {
    pub regions: Vec<Region>,
}

pub open spec fn region_covers(r: Region, addr: u64) -> bool {
    r.base <= addr && addr - r.base < r.bytes@.len()
}

pub open spec fn spec_byte_in(regions: Seq<Region>, addr: u64) -> u8
    decreases regions.len(),
{
    if regions.len() == 0 {
        0u8
    } else if region_covers(regions[0], addr) {
        regions[0].bytes@[addr - regions[0].base]
    } else {
        spec_byte_in(regions.drop_first(), addr)
    }
}

impl Memory {
    /// The byte held at `addr`: zero wherever nothing is mapped.
    pub open spec fn spec_byte(self, addr: u64) -> u8 {
        spec_byte_in(self.regions@, addr)
    }

    /// Little-endian 16-bit read at `addr`, wrapping around the address space.
    pub open spec fn spec_read_u16(self, addr: u64) -> u16 {
        (self.spec_byte(addr) + self.spec_byte(wadd(addr, 1)) * 0x100) as u16
    }

    /// Little-endian 32-bit read at `addr`.
    pub open spec fn spec_read_u32(self, addr: u64) -> u32 {
        (self.spec_read_u16(addr) + self.spec_read_u16(wadd(addr, 2)) * 0x1_0000) as u32
    }

    /// Little-endian 64-bit read at `addr`.
    pub open spec fn spec_read_u64(self, addr: u64) -> u64 {
        (self.spec_read_u32(addr) + self.spec_read_u32(wadd(addr, 4)) * 0x1_0000_0000) as u64
    }

    pub fn read_u8(&self, addr: u64) -> (r: u8)
        ensures
            r == self.spec_byte(addr),
    {
        let mut i: usize = 0;
        assert(self.regions@.skip(0) =~= self.regions@);
        while i < self.regions.len()
            invariant
                i <= self.regions@.len(),
                spec_byte_in(self.regions@.skip(i as int), addr) == self.spec_byte(addr),
            decreases self.regions@.len() - i,
        {
            let region = &self.regions[i];
            if region.base <= addr && addr - region.base < region.bytes.len() as u64 {
                assert(region_covers(self.regions@.skip(i as int)[0], addr));
                return region.bytes[(addr - region.base) as usize];
            }
            assert(self.regions@.skip(i as int).drop_first() =~= self.regions@.skip(i as int + 1));
            i = i + 1;
        }
        assert(self.regions@.skip(i as int).len() == 0);
        0
    }

    pub fn read_u16(&self, addr: u64) -> (r: u16)
        ensures
            r == self.spec_read_u16(addr),
    {
        let b0 = self.read_u8(addr) as u16;
        let b1 = self.read_u8(addr.wrapping_add(1)) as u16;
        b0 + b1 * 0x100
    }

    pub fn read_u32(&self, addr: u64) -> (r: u32)
        ensures
            r == self.spec_read_u32(addr),
    {
        let h0 = self.read_u16(addr) as u32;
        let h1 = self.read_u16(addr.wrapping_add(2)) as u32;
        h0 + h1 * 0x1_0000
    }

    pub fn read_u64(&self, addr: u64) -> (r: u64)
        ensures
            r == self.spec_read_u64(addr),
    {
        let w0 = self.read_u32(addr) as u64;
        let w1 = self.read_u32(addr.wrapping_add(4)) as u64;
        w0 + w1 * 0x1_0000_0000
    }
}

/// What the host's raw read primitive returned for one page: the bytes, and
/// whether the read succeeded.  The bytes of a failed read are ignored, but
/// still give the page its span.
#[derive(Debug, Clone)]
pub struct PageRead {
    pub ok: bool,
    pub bytes: Vec<u8>,
}

/// The per-page read results over one address range, lowest page first.
#[derive(Debug, Clone)]
pub struct PageSource {
    pub base: u64,
    pub pages: Vec<PageRead>,
}

/// Every page spans `PAGE_SIZE` bytes but the last, which spans at least one;
/// the whole range fits in a `usize`.
pub open spec fn wf_source(s: PageSource) -> bool {
    &&& forall|i: int|
        0 <= i < s.pages@.len() - 1 ==> (#[trigger] s.pages@[i].bytes)@.len() == PAGE_SIZE
    &&& s.pages@.len() > 0 ==> {
        let last = s.pages@[s.pages@.len() - 1].bytes@.len();
        1 <= last <= PAGE_SIZE
    }
    &&& s.pages@.len() * PAGE_SIZE <= usize::MAX
}

/// The length of the captured range.
pub open spec fn spec_total(s: PageSource) -> int {
    if s.pages@.len() == 0 {
        0
    } else {
        (s.pages@.len() - 1) * (PAGE_SIZE as int) + s.pages@[s.pages@.len() - 1].bytes@.len()
    }
}

/// The byte at offset `off` of the captured range: the source byte where the
/// page read succeeded, zero where it failed or `off` is out of range.
pub open spec fn spec_source_byte(s: PageSource, off: int) -> u8 {
    if 0 <= off < spec_total(s) && s.pages@[off / (PAGE_SIZE as int)].ok {
        s.pages@[off / (PAGE_SIZE as int)].bytes@[off % (PAGE_SIZE as int)]
    } else {
        0u8
    }
}

/// The whole captured range as a byte sequence.
pub open spec fn spec_source_seq(s: PageSource) -> Seq<u8> {
    Seq::new(spec_total(s) as nat, |j: int| spec_source_byte(s, j))
}

impl PageSource {
    pub fn total_len(&self) -> (r: usize)
        requires
            wf_source(*self),
        ensures
            r == spec_total(*self),
    {
        if self.pages.len() == 0 {
            0
        } else {
            (self.pages.len() - 1) * PAGE_SIZE + self.pages[self.pages.len() - 1].bytes.len()
        }
    }

    fn read_byte(&self, off: usize) -> (r: u8)
        requires
            wf_source(*self),
            off < spec_total(*self),
        ensures
            r == spec_source_byte(*self, off as int),
    {
        let page = off / PAGE_SIZE;
        let idx = off % PAGE_SIZE;
        assert(page < self.pages@.len() && idx < self.pages@[page as int].bytes@.len()) by {
            let n = self.pages@.len() as int;
            assert(off < n * (PAGE_SIZE as int));
            assert(page == off as int / (PAGE_SIZE as int));
            assert(off as int - (n - 1) * (PAGE_SIZE as int) < self.pages@[n - 1].bytes@.len());
        };
        if self.pages[page].ok {
            self.pages[page].bytes[idx]
        } else {
            0
        }
    }

    /// The bytes of `[lo, hi)` within the captured range.
    pub fn capture_range(&self, lo: usize, hi: usize) -> (r: Vec<u8>)
        requires
            wf_source(*self),
            lo <= hi <= spec_total(*self),
        ensures
            r@.len() == hi - lo,
            forall|j: int| 0 <= j < hi - lo ==> r@[j] == spec_source_byte(*self, lo + j),
    {
        let mut out: Vec<u8> = Vec::new();
        let mut j: usize = lo;
        while j < hi
            invariant
                wf_source(*self),
                lo <= j <= hi <= spec_total(*self),
                out@.len() == j - lo,
                forall|k: int| 0 <= k < j - lo ==> out@[k] == spec_source_byte(*self, lo + k),
            decreases hi - j,
        {
            let b = self.read_byte(j);
            out.push(b);
            j = j + 1;
        }
        out
    }
}

/// A contiguous best-effort buffer of one address range, assembled from
/// per-page reads with failed pages zero-filled.
#[derive(Debug, Clone)]
pub struct MemoryImage {
    pub base: u64,
    pub data: Vec<u8>,
}

impl MemoryImage {
    /// Assembles the full image: each page's bytes where its read succeeded,
    /// zeroes where it failed.
    pub fn capture(source: &PageSource) -> (img: MemoryImage)
        requires
            wf_source(*source),
        ensures
            img.base == source.base,
            img.data@ == spec_source_seq(*source),
    {
        let total = source.total_len();
        let data = source.capture_range(0, total);
        assert(data@ =~= spec_source_seq(*source));
        MemoryImage { base: source.base, data }
    }
}

} // verus!
