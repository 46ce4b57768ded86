//! Locating a synthetic registry table behind scanned patterns.

use metadump::memory::{Memory, MemoryImage, Region};
use metadump::module_info::{LocatorPattern, ModuleInfo};
use metadump::scanner::{CaptureMode, PatByte, Pattern};
use metadump::MetaError;

fn lit(b: u8) -> PatByte {
    PatByte::Lit(b)
}

fn any() -> PatByte {
    PatByte::Any
}

fn info(base: u64) -> ModuleInfo {
    ModuleInfo { base, version: String::from("1.0.0"), image_size: 64 }
}

/// A pattern whose absolute 8-byte capture holds the address of the
/// registry pointer.
fn abs_pattern() -> LocatorPattern {
    LocatorPattern {
        pattern: Pattern {
            bytes: vec![
                lit(0x48),
                lit(0x8B),
                any(),
                any(),
                any(),
                any(),
                any(),
                any(),
                any(),
                any(),
            ],
            cap_start: 2,
            cap_len: 8,
            mode: CaptureMode::Absolute,
        },
        derefs: 1,
    }
}

/// Image bytes with the pattern at offset 16, capturing `ptr_addr`.
fn image_with_capture(base: u64, ptr_addr: u64) -> MemoryImage {
    let mut data = vec![0u8; 64];
    data[16] = 0x48;
    data[17] = 0x8B;
    data[18..26].copy_from_slice(&ptr_addr.to_le_bytes());
    MemoryImage { base, data }
}

/// Target memory holding, at `ptr_addr`, a pointer to a registry vector of
/// `refs`, laid out as data pointer then a 32-bit count.
fn registry_memory(ptr_addr: u64, table: u64, refs: &[u64]) -> Memory {
    let data_addr = table + 64;
    let mut ptr_cell = Vec::new();
    ptr_cell.extend_from_slice(&table.to_le_bytes());
    let mut table_bytes = Vec::new();
    table_bytes.extend_from_slice(&data_addr.to_le_bytes());
    table_bytes.extend_from_slice(&(refs.len() as u32).to_le_bytes());
    table_bytes.extend_from_slice(&0u32.to_le_bytes());
    let mut ref_bytes = Vec::new();
    for r in refs {
        ref_bytes.extend_from_slice(&r.to_le_bytes());
    }
    Memory {
        regions: vec![
            Region { base: ptr_addr, bytes: ptr_cell },
            Region { base: table, bytes: table_bytes },
            Region { base: data_addr, bytes: ref_bytes },
        ],
    }
}

#[test]
fn find_meta_reads_the_class_references() {
    let base = 0x40_0000u64;
    let ptr_addr = 0x50_0000u64;
    let table = 0x60_0000u64;
    let image = image_with_capture(base, ptr_addr);
    let mem = registry_memory(ptr_addr, table, &[0x70_0000, 0x70_0100, 0x70_0200]);
    let r = info(base).find_meta(&image, &mem, &vec![abs_pattern()]);
    assert_eq!(r, Ok(vec![0x70_0000, 0x70_0100, 0x70_0200]));
}

#[test]
fn no_match_is_pattern_not_found() {
    let base = 0x40_0000u64;
    let image = MemoryImage { base, data: vec![0u8; 64] };
    let mem = Memory { regions: Vec::new() };
    let r = info(base).find_meta(&image, &mem, &vec![abs_pattern()]);
    assert_eq!(r, Err(MetaError::PatternNotFound));
}

#[test]
fn null_table_pointer_is_registry_not_found() {
    let base = 0x40_0000u64;
    let ptr_addr = 0x50_0000u64;
    let image = image_with_capture(base, ptr_addr);
    // Nothing mapped at ptr_addr: the dereference reads null.
    let mem = Memory { regions: Vec::new() };
    let r = info(base).find_meta(&image, &mem, &vec![abs_pattern()]);
    assert_eq!(r, Err(MetaError::RegistryNotFound));
}

#[test]
fn null_class_reference_is_registry_not_found() {
    let base = 0x40_0000u64;
    let ptr_addr = 0x50_0000u64;
    let table = 0x60_0000u64;
    let image = image_with_capture(base, ptr_addr);
    let mem = registry_memory(ptr_addr, table, &[0x70_0000, 0, 0x70_0200]);
    let r = info(base).find_meta(&image, &mem, &vec![abs_pattern()]);
    assert_eq!(r, Err(MetaError::RegistryNotFound));
}

#[test]
fn null_data_pointer_with_entries_is_registry_not_found() {
    let base = 0x40_0000u64;
    let ptr_addr = 0x50_0000u64;
    let table = 0x60_0000u64;
    let image = image_with_capture(base, ptr_addr);
    // The table claims three entries but its data pointer is null.
    let mut table_bytes = Vec::new();
    table_bytes.extend_from_slice(&0u64.to_le_bytes());
    table_bytes.extend_from_slice(&3u32.to_le_bytes());
    table_bytes.extend_from_slice(&0u32.to_le_bytes());
    let mem = Memory {
        regions: vec![
            Region { base: ptr_addr, bytes: table.to_le_bytes().to_vec() },
            Region { base: table, bytes: table_bytes },
        ],
    };
    let r = info(base).find_meta(&image, &mem, &vec![abs_pattern()]);
    assert_eq!(r, Err(MetaError::RegistryNotFound));
}

#[test]
fn an_empty_registry_is_an_empty_list() {
    let base = 0x40_0000u64;
    let ptr_addr = 0x50_0000u64;
    let table = 0x60_0000u64;
    let image = image_with_capture(base, ptr_addr);
    let mem = registry_memory(ptr_addr, table, &[]);
    let r = info(base).find_meta(&image, &mem, &vec![abs_pattern()]);
    assert_eq!(r, Ok(Vec::new()));
}

#[test]
fn patterns_are_tried_in_priority_order() {
    let base = 0x40_0000u64;
    let ptr_addr = 0x50_0000u64;
    let table = 0x60_0000u64;
    let image = image_with_capture(base, ptr_addr);
    let mem = registry_memory(ptr_addr, table, &[0x70_0000]);
    // The first pattern matches nothing; the second finds the registry.
    let miss = LocatorPattern {
        pattern: Pattern {
            bytes: vec![lit(0xC7), lit(0x05), any(), any(), any(), any()],
            cap_start: 2,
            cap_len: 4,
            mode: CaptureMode::Absolute,
        },
        derefs: 1,
    };
    let r = info(base).find_meta(&image, &mem, &vec![miss, abs_pattern()]);
    assert_eq!(r, Ok(vec![0x70_0000]));
}

#[test]
fn double_indirection_follows_two_pointers() {
    let base = 0x40_0000u64;
    let ptr_addr = 0x50_0000u64;
    let mid = 0x58_0000u64;
    let table = 0x60_0000u64;
    let image = image_with_capture(base, ptr_addr);
    let mut mem = registry_memory(mid, table, &[0x70_0000]);
    // ptr_addr -> mid -> table.
    mem.regions.push(Region { base: ptr_addr, bytes: mid.to_le_bytes().to_vec() });
    // Put the extra region first so it is the one found.
    mem.regions.rotate_right(1);
    let mut pat = abs_pattern();
    pat.derefs = 2;
    let r = info(base).find_meta(&image, &mem, &vec![pat]);
    assert_eq!(r, Ok(vec![0x70_0000]));
}

#[test]
fn scan_memory_resolves_through_the_image() {
    let base = 0x40_0000u64;
    let ptr_addr = 0x1122_3344_5566_7788u64;
    let image = image_with_capture(base, ptr_addr);
    let got = info(base).scan_memory(&image, &abs_pattern().pattern);
    assert_eq!(got, Some(ptr_addr));
}
