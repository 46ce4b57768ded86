//! Locating the class registry inside a module image.
//!
//! The host hands this crate the module's base address, image size and
//! version string; acquiring them, and freezing the target's other
//! execution contexts, is the host's business.  Here the scanner is applied
//! over the captured code region, pattern by pattern in priority order; the
//! first pattern whose capture resolves to a non-null address wins, the
//! address is dereferenced once or twice as that pattern encodes, and the
//! registry table it reaches is read out as an ordered list of class
//! references, each validated non-null.

use vstd::prelude::*;

use crate::doc::DocValue;
use crate::memory::{wadd, wf_source, Memory, MemoryImage, PageSource};
use crate::meta::{wf_classes, Class, TargetWorld};
use crate::meta_dump::{dump_meta_document, res_view, spec_dump_meta_document};
use crate::scanner::{scan_resolve, spec_scan_resolve, wf_pattern, Pattern};
use crate::MetaError;

verus! {

/// One locator entry: a pattern, and how many times the resolved address
/// is dereferenced to reach the registry table.
#[derive(Debug, Clone)]
pub struct LocatorPattern {
    pub pattern: Pattern,
    /// Level of indirection this pattern encodes: one or two.
    pub derefs: usize,
}

pub open spec fn wf_locator_pattern(p: LocatorPattern) -> bool {
    &&& wf_pattern(p.pattern)
    &&& 1 <= p.derefs <= 2
}

/// The module being dumped: its base address, product version and the
/// length of the region to scan.
#[derive(Debug, Clone)]
pub struct ModuleInfo {
    pub base: u64,
    pub version: String,
    pub image_size: usize,
}

/// The first pattern, in priority order, whose capture resolves to a
/// non-null address, with that address.
pub open spec fn spec_first_resolved(
    data: Seq<u8>,
    base: u64,
    pats: Seq<LocatorPattern>,
) -> Option<(LocatorPattern, u64)>
    decreases pats.len(),
{
    if pats.len() == 0 {
        None
    } else {
        match spec_scan_resolve(data, base, pats[0].pattern) {
            Some(a) => Some((pats[0], a)),
            None => spec_first_resolved(data, base, pats.drop_first()),
        }
    }
}

/// Follows `derefs` pointers from `addr`; a null pointer anywhere on the
/// chain means the registry is not where the pattern claimed.
pub open spec fn spec_locate_table(mem: Memory, addr: u64, derefs: int) -> Result<u64, MetaError>
    decreases derefs,
{
    if derefs <= 0 {
        Ok(addr)
    } else {
        let next = mem.spec_read_u64(addr);
        if next == 0 {
            Err(MetaError::RegistryNotFound)
        } else {
            spec_locate_table(mem, next, derefs - 1)
        }
    }
}

/// The class references from position `k` up; a null reference fails the
/// whole read.
pub open spec fn spec_collect_refs(mem: Memory, data: u64, k: int, n: int, acc: Seq<u64>) -> Result<
    Seq<u64>,
    MetaError,
>
    decreases n - k,
{
    if k >= n {
        Ok(acc)
    } else {
        let p = mem.spec_read_u64(wadd(data, (8 * k) as u64));
        if p == 0 {
            Err(MetaError::RegistryNotFound)
        } else {
            spec_collect_refs(mem, data, k + 1, n, acc.push(p))
        }
    }
}

/// The registry table at `table`: a vector header whose data pointer holds
/// `count` class references, every one validated non-null.
pub open spec fn spec_read_class_refs(mem: Memory, table: u64) -> Result<Seq<u64>, MetaError> {
    let data = mem.spec_read_u64(table);
    let count = mem.spec_read_u32(wadd(table, 8));
    if count > 0 && data == 0 {
        Err(MetaError::RegistryNotFound)
    } else {
        spec_collect_refs(mem, data, 0, count as int, Seq::empty())
    }
}

/// The whole locate operation: no pattern resolving is `PatternNotFound`;
/// a null table pointer or class reference is `RegistryNotFound`.
pub open spec fn spec_find_meta(
    img: MemoryImage,
    mem: Memory,
    pats: Seq<LocatorPattern>,
) -> Result<Seq<u64>, MetaError> {
    match spec_first_resolved(img.data@, img.base, pats) {
        None => Err(MetaError::PatternNotFound),
        Some((p, a)) => match spec_locate_table(mem, a, p.derefs as int) {
            Err(e) => Err(e),
            Ok(t) => spec_read_class_refs(mem, t),
        },
    }
}

impl ModuleInfo {
    /// Captures the module image from the host's per-page reads; unreadable
    /// pages are zero-filled, never fatal.
    pub fn dump_data(&self, source: &PageSource) -> (img: MemoryImage)
        requires
            wf_source(*source),
        ensures
            img.base == source.base,
            img.data@ == crate::memory::spec_source_seq(*source),
    {
        MemoryImage::capture(source)
    }

    /// Scans the captured image for one pattern and resolves its capture.
    pub fn scan_memory(&self, image: &MemoryImage, pat: &Pattern) -> (r: Option<u64>)
        requires
            wf_pattern(*pat),
        ensures
            r == spec_scan_resolve(image.data@, image.base, *pat),
    {
        scan_resolve(&image.data, image.base, pat)
    }

    /// Locates the registry table and reads out its class references.
    pub fn find_meta(
        &self,
        image: &MemoryImage,
        mem: &Memory,
        patterns: &Vec<LocatorPattern>,
    ) -> (r: Result<Vec<u64>, MetaError>)
        requires
            forall|k: int| 0 <= k < patterns@.len() ==> wf_locator_pattern(#[trigger] patterns@[k]),
        ensures
            match r {
                Ok(refs) => spec_find_meta(*image, *mem, patterns@) matches Ok(s) && refs@ == s,
                Err(e) => spec_find_meta(*image, *mem, patterns@) == Err::<Seq<u64>, MetaError>(e),
            },
    {
        // Priority scan: the first pattern that yields a non-null resolved
        // address wins.
        let mut k: usize = 0;
        let mut found: Option<(usize, u64)> = None;
        assert(patterns@.skip(0) =~= patterns@);
        while k < patterns.len()
            invariant_except_break
                found is None,
                k <= patterns@.len(),
                forall|t: int|
                    0 <= t < patterns@.len() ==> wf_locator_pattern(#[trigger] patterns@[t]),
                spec_first_resolved(image.data@, image.base, patterns@) == spec_first_resolved(
                    image.data@,
                    image.base,
                    patterns@.skip(k as int),
                ),
            ensures
                match found {
                    Some((w, a)) => w < patterns@.len() && spec_first_resolved(
                        image.data@,
                        image.base,
                        patterns@,
                    ) == Some((patterns@[w as int], a)),
                    None => spec_first_resolved(image.data@, image.base, patterns@) is None,
                },
            decreases patterns@.len() - k,
        {
            proof {
                assert(patterns@.skip(k as int)[0] == patterns@[k as int]);
                assert(patterns@.skip(k as int).drop_first() =~= patterns@.skip(k as int + 1));
            }
            match self.scan_memory(image, &patterns[k].pattern) {
                Some(a) => {
                    found = Some((k, a));
                    break ;
                },
                None => {
                    k = k + 1;
                },
            }
        }
        let (w, addr) = match found {
            Some(pair) => pair,
            None => {
                return Err(MetaError::PatternNotFound);
            },
        };
        // Follow the indirection this pattern encodes.
        let derefs = patterns[w].derefs;
        let mut table = addr;
        let mut d: usize = 0;
        #[verifier::loop_isolation(false)]
        while d < derefs
            invariant
                d <= derefs,
                spec_locate_table(*mem, addr, derefs as int) == spec_locate_table(
                    *mem,
                    table,
                    derefs - d,
                ),
            decreases derefs - d,
        {
            let next = mem.read_u64(table);
            if next == 0 {
                return Err(MetaError::RegistryNotFound);
            }
            table = next;
            d = d + 1;
        }
        assert(spec_locate_table(*mem, addr, derefs as int) == Ok::<u64, MetaError>(table));
        // Read the registry vector: data pointer, then each reference.
        let data = mem.read_u64(table);
        let count = mem.read_u32(table.wrapping_add(8));
        if count > 0 && data == 0 {
            return Err(MetaError::RegistryNotFound);
        }
        let n = count as usize;
        let mut refs: Vec<u64> = Vec::new();
        let mut j: usize = 0;
        #[verifier::loop_isolation(false)]
        while j < n
            invariant
                j <= n,
                n == count,
                spec_collect_refs(*mem, data, 0, n as int, Seq::empty()) == spec_collect_refs(
                    *mem,
                    data,
                    j as int,
                    n as int,
                    refs@,
                ),
            decreases n - j,
        {
            let p = mem.read_u64(data.wrapping_add((8 * (j as u64)) as u64));
            if p == 0 {
                return Err(MetaError::RegistryNotFound);
            }
            refs.push(p);
            j = j + 1;
        }
        Ok(refs)
    }

    /// Builds the whole output document for this module: the compute part
    /// of writing a dump file.  Serializing the tree and writing it to a
    /// path derived from the version string is the host's business.
    pub fn dump_meta_info(&self, classes: &Vec<Class>, world: &TargetWorld) -> (r: Result<
        DocValue,
        MetaError,
    >)
        requires
            wf_classes(classes@),
        ensures
            res_view(r) == spec_dump_meta_document(self.version@, self.base, classes@, *world),
    {
        dump_meta_document(self.version.as_str(), self.base, classes, world)
    }
}

} // verus!
