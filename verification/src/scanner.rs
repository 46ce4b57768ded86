//! Signature scanning over byte snapshots.
//!
//! A [`Pattern`] is a wildcarded byte sequence with one capture span.  A scan
//! walks candidate positions from the highest address downward, so the match
//! it reports is the last occurrence in the buffer.  The captured bytes are
//! resolved to a target address in one of two modes: reinterpreted directly
//! as a pointer (absolute), or as a 32-bit signed displacement added to the
//! address just past the capture span (relative).  A resolved address of
//! zero is treated as "not found", never as a result.

use vstd::prelude::*;
use vstd::string::{StrSliceExecFns, StringSliceAdditionalSpecFns};

use crate::memory::{wadd, wsub, wf_source, spec_source_seq, spec_total, MemoryImage, PageSource};

verus! {

/// One position of a pattern: a literal byte that must match, or a wildcard.
#[derive(Debug, Clone, Copy, PartialEq, Eq, Structural)]
pub enum PatByte {
    Lit(u8),
    Any,
}

/// How the captured bytes are turned into a target address.
#[derive(Debug, Clone, Copy, PartialEq, Eq, Structural)]
pub enum CaptureMode {
    /// The captured bytes are the pointer value itself, little endian.
    Absolute,
    /// The captured bytes are a 32-bit signed displacement from the address
    /// just past the capture span.
    Relative,
}

/// A wildcarded byte pattern with one capture span.
#[derive(Debug, Clone)]
pub struct Pattern {
    pub bytes: Vec<PatByte>,
    /// Offset of the capture span within the pattern.
    pub cap_start: usize,
    /// Length of the capture span in bytes.
    pub cap_len: usize,
    pub mode: CaptureMode,
}

pub open spec fn wf_pattern(p: Pattern) -> bool {
    &&& 1 <= p.bytes@.len()
    &&& p.cap_start + p.cap_len <= p.bytes@.len()
    &&& 1 <= p.cap_len <= 8
    &&& p.mode is Relative ==> p.cap_len == 4
}

pub open spec fn pat_byte_matches(p: PatByte, b: u8) -> bool {
    match p {
        PatByte::Lit(x) => x == b,
        PatByte::Any => true,
    }
}

/// The pattern matches the bytes starting at position `i`.
pub open spec fn spec_match_at(data: Seq<u8>, pat: Seq<PatByte>, i: int) -> bool {
    &&& 0 <= i
    &&& i + pat.len() <= data.len()
    &&& forall|j: int| 0 <= j < pat.len() ==> pat_byte_matches(#[trigger] pat[j], data[i + j])
}

/// The highest match position at or below `from`, searching downward.
pub open spec fn spec_find_down(data: Seq<u8>, pat: Seq<PatByte>, from: int) -> Option<int>
    decreases from + 1,
{
    if from < 0 {
        None
    } else if spec_match_at(data, pat, from) {
        Some(from)
    } else {
        spec_find_down(data, pat, from - 1)
    }
}

/// 256 to the power `n`.
pub open spec fn pow256(n: int) -> int
    decreases n,
{
    if n <= 0 {
        1
    } else {
        256 * pow256(n - 1)
    }
}

/// The little-endian value of the `n` bytes starting at `start`.
pub open spec fn spec_le_bytes(data: Seq<u8>, start: int, n: int) -> int
    decreases n,
{
    if n <= 0 {
        0
    } else {
        data[start] + 256 * spec_le_bytes(data, start + 1, n - 1)
    }
}

pub proof fn lemma_pow256_pos(n: int)
    ensures
        pow256(n) >= 1,
    decreases
            if n > 0 {
                n
            } else {
                0
            },
{
    if n > 0 {
        lemma_pow256_pos(n - 1);
    }
}

pub proof fn lemma_pow256_increases(a: int, b: int)
    requires
        0 <= a <= b,
    ensures
        1 <= pow256(a) <= pow256(b),
    decreases b,
{
    lemma_pow256_pos(a);
    if a < b {
        lemma_pow256_increases(a, b - 1);
        lemma_pow256_pos(b - 1);
    }
}

pub proof fn lemma_le_bytes_bound(data: Seq<u8>, start: int, n: int)
    requires
        0 <= n,
    ensures
        0 <= spec_le_bytes(data, start, n) < pow256(n),
    decreases n,
{
    if n > 0 {
        lemma_le_bytes_bound(data, start + 1, n - 1);
    }
}

/// Sign extension of a 32-bit value to 64 bits, as an integer in `[0, 2^64)`.
pub open spec fn spec_sign_ext32(d: int) -> int {
    if d < 0x8000_0000 {
        d
    } else {
        d + 0xFFFF_FFFF_0000_0000
    }
}

/// The address the capture of a match at `i` resolves to.
pub open spec fn spec_resolve(data: Seq<u8>, base: u64, pat: Pattern, i: int) -> u64 {
    let d = spec_le_bytes(data, i + pat.cap_start, pat.cap_len as int);
    match pat.mode {
        CaptureMode::Absolute => d as u64,
        CaptureMode::Relative => {
            let end = wadd(base, (i + pat.cap_start + pat.cap_len) as u64);
            if d < 0x8000_0000 {
                wadd(end, d as u64)
            } else {
                wsub(end, (0x1_0000_0000 - d) as u64)
            }
        },
    }
}

/// The outcome of one pattern over one buffer: the resolved address of the
/// highest match, or nothing if there is no match or it resolves to null.
pub open spec fn spec_scan_resolve(data: Seq<u8>, base: u64, pat: Pattern) -> Option<u64> {
    match spec_find_down(data, pat.bytes@, data.len() - pat.bytes@.len()) {
        None => None,
        Some(i) => {
            let t = spec_resolve(data, base, pat, i);
            if t == 0 {
                None
            } else {
                Some(t)
            }
        },
    }
}

/// Relative resolution computes capture-span-end plus the sign-extended
/// 32-bit displacement, modulo the address space.
pub proof fn lemma_relative_capture_resolution(data: Seq<u8>, base: u64, pat: Pattern, i: int)
    requires
        wf_pattern(pat),
        pat.mode is Relative,
        spec_match_at(data, pat.bytes@, i),
    ensures
        ({
            let d = spec_le_bytes(data, i + pat.cap_start, 4);
            let end = wadd(base, (i + pat.cap_start + 4) as u64);
            spec_resolve(data, base, pat, i) == (end + spec_sign_ext32(d)) % 0x1_0000_0000_0000_0000
        }),
{
    let d = spec_le_bytes(data, i + pat.cap_start, 4);
    let end = wadd(base, (i + pat.cap_start + 4) as u64);
    lemma_le_bytes_bound(data, i + pat.cap_start, 4);
    assert(pow256(4) == 0x1_0000_0000) by {
        reveal_with_fuel(pow256, 5);
    };
    if d < 0x8000_0000 {
        assert(wadd(end, d as u64) == (end + d) % 0x1_0000_0000_0000_0000);
    } else {
        let k = (0x1_0000_0000 - d) as u64;
        assert(wsub(end, k) == (end + d + 0xFFFF_FFFF_0000_0000) % 0x1_0000_0000_0000_0000);
    }
}

/// A successful search ends on a real match at or below where it started.
pub proof fn lemma_find_down_some(data: Seq<u8>, pat: Seq<PatByte>, from: int)
    ensures
        spec_find_down(data, pat, from) matches Some(i) ==> spec_match_at(data, pat, i) && i
            <= from,
    decreases from + 1,
{
    if from >= 0 && !spec_match_at(data, pat, from) {
        lemma_find_down_some(data, pat, from - 1);
    }
}

/// A capture that resolves to the null address is reported as "not found",
/// in both capture modes.
pub proof fn lemma_null_resolution_not_found(data: Seq<u8>, base: u64, pat: Pattern, i: int)
    requires
        spec_find_down(data, pat.bytes@, data.len() - pat.bytes@.len()) == Some(i),
        spec_resolve(data, base, pat, i) == 0,
    ensures
        spec_scan_resolve(data, base, pat) is None,
{
}

fn pat_matches_at(data: &Vec<u8>, pat: &Vec<PatByte>, i: usize) -> (r: bool)
    requires
        i + pat@.len() <= data@.len(),
    ensures
        r == spec_match_at(data@, pat@, i as int),
{
    let dlen = data.len();
    let mut j: usize = 0;
    while j < pat.len()
        invariant
            j <= pat@.len(),
            i + pat@.len() <= data@.len(),
            dlen == data@.len(),
            forall|k: int| 0 <= k < j ==> pat_byte_matches(#[trigger] pat@[k], data@[i + k]),
        decreases pat@.len() - j,
    {
        match pat[j] {
            PatByte::Lit(x) => {
                if data[i + j] != x {
                    assert(!pat_byte_matches(pat@[j as int], data@[i + j]));
                    return false;
                }
            },
            PatByte::Any => {},
        }
        j = j + 1;
    }
    true
}

/// The highest match of `pat` in `data`, scanning from the top down.
pub fn find_down(data: &Vec<u8>, pat: &Vec<PatByte>) -> (r: Option<usize>)
    requires
        1 <= pat@.len(),
    ensures
        match r {
            Some(i) => spec_find_down(data@, pat@, data@.len() - pat@.len()) == Some(i as int),
            None => spec_find_down(data@, pat@, data@.len() - pat@.len()) is None,
        },
{
    if data.len() < pat.len() {
        return None;
    }
    let hi = data.len() - pat.len();
    let ghost full_from: int = hi as int;
    let mut idx: usize = hi + 1;
    while idx > 0
        invariant
            idx <= hi + 1,
            hi == data@.len() - pat@.len(),
            1 <= pat@.len(),
            spec_find_down(data@, pat@, full_from) == spec_find_down(data@, pat@, idx - 1),
            full_from == hi as int,
        decreases idx,
    {
        idx = idx - 1;
        if pat_matches_at(data, pat, idx) {
            return Some(idx);
        }
    }
    None
}

/// Resolves the capture of a match at `i` to a target address.
pub fn resolve_capture(data: &Vec<u8>, base: u64, pat: &Pattern, i: usize) -> (r: u64)
    requires
        wf_pattern(*pat),
        i + pat.bytes@.len() <= data@.len(),
    ensures
        r == spec_resolve(data@, base, *pat, i as int),
{
    let dlen = data.len();
    let d = le_bytes(data, i + pat.cap_start, pat.cap_len);
    proof {
        lemma_le_bytes_bound(data@, i as int + pat.cap_start, pat.cap_len as int);
        lemma_pow256_increases(pat.cap_len as int, 8);
        assert(pow256(8) == 0x1_0000_0000_0000_0000) by {
            reveal_with_fuel(pow256, 9);
        };
    }
    match pat.mode {
        CaptureMode::Absolute => d,
        CaptureMode::Relative => {
            let end = base.wrapping_add((i + pat.cap_start + pat.cap_len) as u64);
            assert(pow256(4) == 0x1_0000_0000) by {
                reveal_with_fuel(pow256, 5);
            };
            if d < 0x8000_0000 {
                end.wrapping_add(d)
            } else {
                end.wrapping_sub(0x1_0000_0000u64 - d)
            }
        },
    }
}

fn le_bytes(data: &Vec<u8>, start: usize, n: usize) -> (r: u64)
    requires
        n <= 8,
        start + n <= data@.len(),
    ensures
        r == spec_le_bytes(data@, start as int, n as int),
    decreases n,
{
    if n == 0 {
        0
    } else {
        let dlen = data.len();
        let rest = le_bytes(data, start + 1, n - 1);
        proof {
            lemma_le_bytes_bound(data@, start as int + 1, n as int - 1);
            lemma_pow256_increases(n as int - 1, 7);
            assert(pow256(7) == 0x100_0000_0000_0000) by {
                reveal_with_fuel(pow256, 8);
            };
        }
        data[start] as u64 + 256 * rest
    }
}

/// Scans one buffer for the pattern and resolves its capture.
pub fn scan_resolve(data: &Vec<u8>, base: u64, pat: &Pattern) -> (r: Option<u64>)
    requires
        wf_pattern(*pat),
    ensures
        r == spec_scan_resolve(data@, base, *pat),
{
    match find_down(data, &pat.bytes) {
        None => None,
        Some(i) => {
            proof {
                lemma_find_down_some(data@, pat.bytes@, data@.len() - pat.bytes@.len());
            }
            let t = resolve_capture(data, base, pat, i);
            if t == 0 {
                None
            } else {
                Some(t)
            }
        },
    }
}

/// Scans a page source in fixed-size windows from the highest address down,
/// carrying the low tail of each window into the next so that a match
/// straddling a window boundary is still found.  Finds exactly what a scan
/// of the fully captured image finds.
pub fn scan_stream(src: &PageSource, pat: &Pattern, window: usize) -> (r: Option<usize>)
    requires
        wf_source(*src),
        wf_pattern(*pat),
        window >= 1,
    ensures
        ({
            let full = spec_source_seq(*src);
            let from = spec_total(*src) - pat.bytes@.len();
            match r {
                Some(i) => spec_find_down(full, pat.bytes@, from) == Some(i as int),
                None => spec_find_down(full, pat.bytes@, from) is None,
            }
        }),
{
    let ghost full = spec_source_seq(*src);
    let total = src.total_len();
    let plen = pat.bytes.len();
    if total < plen {
        return None;
    }
    let hi = total - plen;
    let ghost full_from: int = hi as int;
    let mut upper: usize = hi + 1;
    // The carried tail: the plen - 1 bytes just above the unexamined range.
    let mut carry: Vec<u8> = src.capture_range(upper, upper + plen - 1);
    while upper > 0
        invariant
            wf_source(*src),
            wf_pattern(*pat),
            window >= 1,
            full == spec_source_seq(*src),
            plen == pat.bytes@.len(),
            hi == spec_total(*src) - plen,
            full_from == hi as int,
            1 <= upper <= hi + 1 || upper == 0,
            carry@.len() == plen - 1,
            forall|j: int| 0 <= j < plen - 1 ==> carry@[j] == full[upper + j],
            spec_find_down(full, pat.bytes@, full_from) == spec_find_down(
                full,
                pat.bytes@,
                upper - 1,
            ),
        decreases upper,
    {
        let lo = if upper > window {
            upper - window
        } else {
            0
        };
        // The window buffer covers [lo, upper + plen - 1).
        let mut buf = src.capture_range(lo, upper);
        let mut t: usize = 0;
        while t < carry.len()
            invariant
                t <= carry@.len(),
                carry@.len() == plen - 1,
                lo <= upper,
                upper as int + plen - 1 <= spec_total(*src),
                full == spec_source_seq(*src),
                buf@.len() == upper - lo + t,
                forall|j: int| 0 <= j < upper - lo ==> buf@[j] == full[lo + j],
                forall|j: int| 0 <= j < plen - 1 ==> carry@[j] == full[upper + j],
                forall|j: int|
                    upper - lo <= j < buf@.len() ==> buf@[j] == carry@[j - (upper - lo)],
            decreases carry@.len() - t,
        {
            let b = carry[t];
            buf.push(b);
            t = t + 1;
        }
        assert(forall|j: int| 0 <= j < buf@.len() ==> buf@[j] == full[lo + j]);
        // Scan the candidates [lo, upper) from the top down.
        let mut k: usize = upper;
        while k > lo
            invariant
                lo <= k <= upper,
                lo <= upper <= hi + 1,
                plen == pat.bytes@.len(),
                1 <= plen,
                hi == spec_total(*src) - plen,
                full_from == hi as int,
                full == spec_source_seq(*src),
                buf@.len() == upper - lo + plen - 1,
                forall|j: int| 0 <= j < buf@.len() ==> buf@[j] == full[lo + j],
                spec_find_down(full, pat.bytes@, full_from) == spec_find_down(
                    full,
                    pat.bytes@,
                    k - 1,
                ),
            decreases k,
        {
            k = k - 1;
            if pat_matches_at(&buf, &pat.bytes, k - lo) {
                proof {
                    assert forall|j: int| 0 <= j < pat.bytes@.len() implies pat_byte_matches(
                        #[trigger] pat.bytes@[j],
                        full[k + j],
                    ) by {
                        assert(buf@[k - lo + j] == full[lo + (k as int - lo as int + j)]);
                    }
                    assert(spec_match_at(full, pat.bytes@, k as int));
                }
                return Some(k);
            }
            proof {
                if spec_match_at(full, pat.bytes@, k as int) {
                    assert forall|j: int| 0 <= j < pat.bytes@.len() implies pat_byte_matches(
                        #[trigger] pat.bytes@[j],
                        buf@[k - lo + j],
                    ) by {
                        assert(buf@[k - lo + j] == full[lo + (k as int - lo as int + j)]);
                    }
                    assert(spec_match_at(buf@, pat.bytes@, k - lo));
                    assert(false);
                }
            }
        }
        // Prepare the carry for the next, lower window.
        let mut next_carry: Vec<u8> = Vec::new();
        let mut c: usize = 0;
        while c < plen - 1
            invariant
                c <= plen - 1,
                plen >= 1,
                buf@.len() >= plen - 1,
                full == spec_source_seq(*src),
                forall|j: int| 0 <= j < buf@.len() ==> buf@[j] == full[lo + j],
                next_carry@.len() == c,
                forall|j: int| 0 <= j < c ==> next_carry@[j] == full[lo + j],
            decreases plen - 1 - c,
        {
            let b = buf[c];
            next_carry.push(b);
            c = c + 1;
        }
        carry = next_carry;
        upper = lo;
    }
    None
}

// ---------------------------------------------------------------------------
// The textual pattern form
// ---------------------------------------------------------------------------
/// The value of one hex digit character, as a byte.
pub open spec fn spec_hex_val(b: u8) -> Option<u8> {
    if 0x30 <= b <= 0x39 {
        Some((b - 0x30) as u8)
    } else if 0x41 <= b <= 0x46 {
        Some((b - 0x41 + 10) as u8)
    } else if 0x61 <= b <= 0x66 {
        Some((b - 0x61 + 10) as u8)
    } else {
        None
    }
}

fn hex_val(b: u8) -> (r: Option<u8>)
    ensures
        r == spec_hex_val(b),
{
    if 0x30 <= b && b <= 0x39 {
        Some(b - 0x30)
    } else if 0x41 <= b && b <= 0x46 {
        Some(b - 0x41 + 10)
    } else if 0x61 <= b && b <= 0x66 {
        Some(b - 0x61 + 10)
    } else {
        None
    }
}

/// One step of the textual pattern grammar, over the remaining bytes of the
/// text.  Tokens are separated by spaces: a pair of hex digits is a literal
/// byte, `?` is a wildcard, and a single `[` .. `]` bracket pair delimits
/// the capture span.  `state` is 0 before the capture, 1 inside it, and 2
/// after it.
pub open spec fn spec_parse_tokens(
    bytes: Seq<u8>,
    pats: Seq<PatByte>,
    state: int,
    cap_start: int,
    cap_len: int,
) -> Option<(Seq<PatByte>, int, int)>
    decreases bytes.len(),
{
    if bytes.len() == 0 {
        if state == 2 && pats.len() >= 1 {
            Some((pats, cap_start, cap_len))
        } else {
            None
        }
    } else if bytes[0] == 0x20 {
        spec_parse_tokens(bytes.drop_first(), pats, state, cap_start, cap_len)
    } else if bytes[0] == 0x3F {  // '?'
        if bytes.len() > 1 && bytes[1] != 0x20 {
            None
        } else {
            spec_parse_tokens(
                bytes.drop_first(),
                pats.push(PatByte::Any),
                state,
                cap_start,
                cap_len,
            )
        }
    } else if bytes[0] == 0x5B {  // '['
        if state != 0 {
            None
        } else if bytes.len() > 1 && bytes[1] != 0x20 {
            None
        } else {
            spec_parse_tokens(bytes.drop_first(), pats, 1, pats.len() as int, cap_len)
        }
    } else if bytes[0] == 0x5D {  // ']'
        if state != 1 {
            None
        } else if bytes.len() > 1 && bytes[1] != 0x20 {
            None
        } else if pats.len() <= cap_start {
            None
        } else {
            spec_parse_tokens(bytes.drop_first(), pats, 2, cap_start, pats.len() - cap_start)
        }
    } else {
        if bytes.len() >= 2 && spec_hex_val(bytes[0]) is Some && spec_hex_val(bytes[1]) is Some
            && (bytes.len() == 2 || bytes[2] == 0x20) {
            let hv = spec_hex_val(bytes[0])->Some_0;
            let lv = spec_hex_val(bytes[1])->Some_0;
            spec_parse_tokens(
                bytes.skip(2),
                pats.push(PatByte::Lit((hv * 16 + lv) as u8)),
                state,
                cap_start,
                cap_len,
            )
        } else {
            None
        }
    }
}

/// The whole textual pattern: the token grammar, then the capture-span
/// rules (one to eight bytes, exactly four for the relative mode).
pub open spec fn spec_parse_pattern(bytes: Seq<u8>, mode: CaptureMode) -> Option<
    (Seq<PatByte>, int, int),
> {
    match spec_parse_tokens(bytes, Seq::empty(), 0, 0, 0) {
        None => None,
        Some((pats, cs, cl)) => if 1 <= cl <= 8 && (mode is Relative ==> cl == 4) {
            Some((pats, cs, cl))
        } else {
            None
        },
    }
}

/// Parses the textual pattern form: space-separated hex byte pairs and `?`
/// wildcards, with one `[` .. `]` bracket pair marking the capture span,
/// resolved in the given mode.
#[verifier::loop_isolation(false)]
#[verifier::rlimit(30)]
pub fn parse_pattern(text: &str, mode: CaptureMode) -> (r: Option<Pattern>)
    ensures
        match r {
            Some(p) => {
                &&& spec_parse_pattern(text.spec_bytes(), mode) == Some(
                    (p.bytes@, p.cap_start as int, p.cap_len as int),
                )
                &&& p.mode == mode
                &&& wf_pattern(p)
            },
            None => spec_parse_pattern(text.spec_bytes(), mode) is None,
        },
{
    let bytes = text.as_bytes_vec();
    let n = bytes.len();
    let ghost whole = spec_parse_tokens(bytes@, Seq::<PatByte>::empty(), 0, 0, 0);
    let mut pats: Vec<PatByte> = Vec::new();
    let mut state: u8 = 0;
    let mut cap_start: usize = 0;
    let mut cap_len: usize = 0;
    let mut i: usize = 0;
    assert(bytes@.skip(0) =~= bytes@);
    while i < n
        invariant
            i <= n,
            state == 0 || state == 1 || state == 2,
            state == 0 ==> cap_start == 0 && cap_len == 0,
            state == 1 ==> cap_start <= pats@.len() && cap_len == 0,
            state == 2 ==> cap_start + cap_len <= pats@.len() && cap_len >= 1,
            spec_parse_tokens(
                bytes@.skip(i as int),
                pats@,
                state as int,
                cap_start as int,
                cap_len as int,
            ) == whole,
        decreases n - i,
    {
        proof {
            assert(bytes@.skip(i as int)[0] == bytes@[i as int]);
            assert(bytes@.skip(i as int).drop_first() =~= bytes@.skip(i as int + 1));
        }
        let b = bytes[i];
        if b == 0x20 {
            i = i + 1;
        } else if b == 0x3F {
            if i + 1 < n && bytes[i + 1] != 0x20 {
                return None;
            }
            pats.push(PatByte::Any);
            i = i + 1;
        } else if b == 0x5B {
            if state != 0 {
                return None;
            }
            if i + 1 < n && bytes[i + 1] != 0x20 {
                return None;
            }
            state = 1;
            cap_start = pats.len();
            i = i + 1;
        } else if b == 0x5D {
            if state != 1 {
                return None;
            }
            if i + 1 < n && bytes[i + 1] != 0x20 {
                return None;
            }
            if pats.len() <= cap_start {
                return None;
            }
            cap_len = pats.len() - cap_start;
            state = 2;
            i = i + 1;
        } else {
            if i + 1 >= n {
                return None;
            }
            proof {
                assert(bytes@.skip(i as int)[1] == bytes@[i as int + 1]);
                if i + 2 < n {
                    assert(bytes@.skip(i as int)[2] == bytes@[i as int + 2]);
                }
                assert(bytes@.skip(i as int).skip(2) =~= bytes@.skip(i as int + 2));
            }
            let hv = match hex_val(b) {
                Some(v) => v,
                None => {
                    return None;
                },
            };
            let lv = match hex_val(bytes[i + 1]) {
                Some(v) => v,
                None => {
                    return None;
                },
            };
            if i + 2 < n && bytes[i + 2] != 0x20 {
                return None;
            }
            pats.push(PatByte::Lit(hv * 16 + lv));
            i = i + 2;
        }
    }
    assert(bytes@.skip(n as int) =~= Seq::<u8>::empty());
    if state != 2 {
        return None;
    }
    if pats.len() == 0 {
        return None;
    }
    if cap_len > 8 {
        return None;
    }
    if mode == CaptureMode::Relative && cap_len != 4 {
        return None;
    }
    Some(Pattern { bytes: pats, cap_start, cap_len, mode })
}

/// The streamed, windowed scan and a scan of the fully captured image search
/// the same byte sequence, so they report the same match.
pub proof fn lemma_stream_agrees_with_full(src: PageSource, img: MemoryImage, pat: Pattern)
    requires
        wf_source(src),
        img.data@ == spec_source_seq(src),
    ensures
        spec_find_down(img.data@, pat.bytes@, img.data@.len() - pat.bytes@.len())
            == spec_find_down(spec_source_seq(src), pat.bytes@, spec_total(src) - pat.bytes@.len()),
{
    assert(img.data@.len() == spec_total(src));
}

} // verus!
