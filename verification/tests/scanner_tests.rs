//! Scanner behavior over synthetic byte buffers: capture resolution in both
//! modes, the null-address rule, and agreement between the streamed and the
//! full-buffer scan.

use metadump::memory::{MemoryImage, PageRead, PageSource};
use metadump::scanner::{
    find_down, parse_pattern, scan_resolve, scan_stream, CaptureMode, PatByte, Pattern,
};

fn lit(b: u8) -> PatByte {
    PatByte::Lit(b)
}

fn any() -> PatByte {
    PatByte::Any
}

fn one_page_source(base: u64, bytes: Vec<u8>) -> PageSource {
    PageSource { base, pages: vec![PageRead { ok: true, bytes }] }
}

#[test]
fn relative_capture_adds_displacement_to_span_end() {
    // Pattern: AA BB ?? ?? ?? ?? with a 4-byte relative capture at offset 2.
    let pat = Pattern {
        bytes: vec![lit(0xAA), lit(0xBB), any(), any(), any(), any()],
        cap_start: 2,
        cap_len: 4,
        mode: CaptureMode::Relative,
    };
    // Place the match at offset 3; displacement 0x10 little-endian.
    let mut data = vec![0u8; 16];
    data[3] = 0xAA;
    data[4] = 0xBB;
    data[5] = 0x10;
    let base = 0x1000u64;
    // Capture-span end address: base + 3 + 2 + 4.
    let end = base + 3 + 2 + 4;
    assert_eq!(scan_resolve(&data, base, &pat), Some(end + 0x10));
}

#[test]
fn relative_capture_sign_extends_negative_displacement() {
    let pat = Pattern {
        bytes: vec![lit(0xAA), lit(0xBB), any(), any(), any(), any()],
        cap_start: 2,
        cap_len: 4,
        mode: CaptureMode::Relative,
    };
    let mut data = vec![0u8; 16];
    data[3] = 0xAA;
    data[4] = 0xBB;
    // -16 as a little-endian 32-bit displacement.
    data[5] = 0xF0;
    data[6] = 0xFF;
    data[7] = 0xFF;
    data[8] = 0xFF;
    let base = 0x1000u64;
    let end = base + 3 + 2 + 4;
    assert_eq!(scan_resolve(&data, base, &pat), Some(end - 16));
}

#[test]
fn absolute_capture_reads_pointer_value() {
    let pat = Pattern {
        bytes: vec![lit(0x48), lit(0x89), any(), any(), any(), any()],
        cap_start: 2,
        cap_len: 4,
        mode: CaptureMode::Absolute,
    };
    let mut data = vec![0u8; 12];
    data[0] = 0x48;
    data[1] = 0x89;
    data[2] = 0x78;
    data[3] = 0x56;
    data[4] = 0x34;
    data[5] = 0x12;
    assert_eq!(scan_resolve(&data, 0x4000, &pat), Some(0x12345678));
}

#[test]
fn null_absolute_capture_is_not_found() {
    let pat = Pattern {
        bytes: vec![lit(0x48), lit(0x89), any(), any(), any(), any()],
        cap_start: 2,
        cap_len: 4,
        mode: CaptureMode::Absolute,
    };
    // The match exists but its captured pointer is zero.
    let mut data = vec![0u8; 12];
    data[0] = 0x48;
    data[1] = 0x89;
    assert_eq!(scan_resolve(&data, 0x4000, &pat), None);
}

#[test]
fn null_relative_capture_is_not_found() {
    let pat = Pattern {
        bytes: vec![lit(0xAA), any(), any(), any(), any()],
        cap_start: 1,
        cap_len: 4,
        mode: CaptureMode::Relative,
    };
    // base + 0 + 1 + 4 = 16; displacement -16 resolves to address zero.
    let mut data = vec![0u8; 8];
    data[0] = 0xAA;
    data[1] = 0xF0;
    data[2] = 0xFF;
    data[3] = 0xFF;
    data[4] = 0xFF;
    assert_eq!(scan_resolve(&data, 11, &pat), None);
}

#[test]
fn scan_reports_the_highest_match() {
    let pat = Pattern {
        bytes: vec![lit(0xAA), lit(0xBB)],
        cap_start: 0,
        cap_len: 1,
        mode: CaptureMode::Absolute,
    };
    let mut data = vec![0u8; 32];
    data[4] = 0xAA;
    data[5] = 0xBB;
    data[20] = 0xAA;
    data[21] = 0xBB;
    assert_eq!(find_down(&data, &pat.bytes), Some(20));
}

#[test]
fn wildcards_match_any_byte() {
    let pat = vec![lit(0x01), any(), lit(0x03)];
    let data = vec![0x01u8, 0xEE, 0x03];
    assert_eq!(find_down(&data, &pat), Some(0));
    let miss = vec![0x01u8, 0xEE, 0x04];
    assert_eq!(find_down(&miss, &pat), None);
}

#[test]
fn windowed_scan_matches_full_scan_inside_one_window() {
    let mut bytes = vec![0u8; 64];
    bytes[10] = 0xDE;
    bytes[11] = 0xAD;
    bytes[12] = 0xBE;
    let pat = Pattern {
        bytes: vec![lit(0xDE), lit(0xAD), lit(0xBE)],
        cap_start: 0,
        cap_len: 1,
        mode: CaptureMode::Absolute,
    };
    let src = one_page_source(0x7000, bytes);
    let img = MemoryImage::capture(&src);
    let full = find_down(&img.data, &pat.bytes);
    let streamed = scan_stream(&src, &pat, 16);
    assert_eq!(full, Some(10));
    assert_eq!(streamed, full);
}

#[test]
fn windowed_scan_finds_match_straddling_window_boundary() {
    // Window size 8: a 5-byte match at offset 6 crosses the 8-byte boundary.
    let mut bytes = vec![0u8; 32];
    bytes[6] = 0x11;
    bytes[7] = 0x22;
    bytes[8] = 0x33;
    bytes[9] = 0x44;
    bytes[10] = 0x55;
    let pat = Pattern {
        bytes: vec![lit(0x11), lit(0x22), lit(0x33), lit(0x44), lit(0x55)],
        cap_start: 0,
        cap_len: 1,
        mode: CaptureMode::Absolute,
    };
    let src = one_page_source(0x7000, bytes);
    let img = MemoryImage::capture(&src);
    let full = find_down(&img.data, &pat.bytes);
    let streamed = scan_stream(&src, &pat, 8);
    assert_eq!(full, Some(6));
    assert_eq!(streamed, full);
}

#[test]
fn textual_pattern_parses_literals_wildcards_and_capture() {
    let p = parse_pattern("83 3D ? ? ? ? FF [ ? ? ? ? ] 48 89", CaptureMode::Relative)
        .expect("pattern should parse");
    assert_eq!(p.bytes.len(), 13);
    assert_eq!(p.bytes[0], PatByte::Lit(0x83));
    assert_eq!(p.bytes[1], PatByte::Lit(0x3D));
    assert_eq!(p.bytes[2], PatByte::Any);
    assert_eq!(p.bytes[7], PatByte::Any);
    assert_eq!(p.bytes[11], PatByte::Lit(0x48));
    assert_eq!(p.cap_start, 7);
    assert_eq!(p.cap_len, 4);
    assert_eq!(p.mode, CaptureMode::Relative);
}

#[test]
fn textual_pattern_accepts_lowercase_hex() {
    let p = parse_pattern("ab [ cd ] ef", CaptureMode::Absolute).expect("pattern should parse");
    assert_eq!(p.bytes[0], PatByte::Lit(0xAB));
    assert_eq!(p.bytes[1], PatByte::Lit(0xCD));
    assert_eq!(p.bytes[2], PatByte::Lit(0xEF));
    assert_eq!(p.cap_start, 1);
    assert_eq!(p.cap_len, 1);
}

#[test]
fn malformed_textual_patterns_are_rejected() {
    // No capture span.
    assert!(parse_pattern("83 3D ? ?", CaptureMode::Absolute).is_none());
    // An empty capture span.
    assert!(parse_pattern("83 [ ] 3D", CaptureMode::Absolute).is_none());
    // Two capture spans.
    assert!(parse_pattern("[ 83 ] [ 3D ]", CaptureMode::Absolute).is_none());
    // A lone hex digit, a bad digit, and a glued bracket.
    assert!(parse_pattern("8 [ 00 ]", CaptureMode::Absolute).is_none());
    assert!(parse_pattern("8G [ 00 ]", CaptureMode::Absolute).is_none());
    assert!(parse_pattern("83 [00 ]", CaptureMode::Absolute).is_none());
    // A relative capture must span exactly four bytes.
    assert!(parse_pattern("83 [ ? ? ]", CaptureMode::Relative).is_none());
    // An absolute capture fits a pointer: at most eight bytes.
    assert!(
        parse_pattern("83 [ ? ? ? ? ? ? ? ? ? ]", CaptureMode::Absolute).is_none()
    );
    // The empty pattern.
    assert!(parse_pattern("", CaptureMode::Absolute).is_none());
}

#[test]
fn parsed_pattern_scans_like_a_built_one() {
    let p = parse_pattern("AA BB [ ? ? ? ? ]", CaptureMode::Relative).expect("pattern");
    let mut data = vec![0u8; 16];
    data[3] = 0xAA;
    data[4] = 0xBB;
    data[5] = 0x10;
    let base = 0x1000u64;
    let end = base + 3 + 2 + 4;
    assert_eq!(scan_resolve(&data, base, &p), Some(end + 0x10));
}

#[test]
fn windowed_scan_agrees_when_nothing_matches() {
    let bytes = vec![0xEEu8; 40];
    let pat = Pattern {
        bytes: vec![lit(0x01), lit(0x02)],
        cap_start: 0,
        cap_len: 1,
        mode: CaptureMode::Absolute,
    };
    let src = one_page_source(0, bytes);
    let img = MemoryImage::capture(&src);
    assert_eq!(find_down(&img.data, &pat.bytes), None);
    assert_eq!(scan_stream(&src, &pat, 7), None);
}
