//! The byte-pattern scanner that looks for `scanf("%s", ...)` call sites.
//!
//! It decodes two instruction shapes only: a near call (`E8` + rel32) and a
//! RIP-relative `lea` into a 64-bit register (`48 8D 05` + disp32).
use vstd::prelude::*;

use crate::analyzer::DetectionError;

verus! {

/// The unsigned little-endian 32-bit integer held by `b[k..k + 4]`.
pub open spec fn u32_le(b: Seq<u8>, k: int) -> int {
    b[k] as int + b[k + 1] as int * 0x100 + b[k + 2] as int * 0x1_0000 + b[k + 3] as int
        * 0x100_0000
}

/// The signed (two's complement) little-endian 32-bit integer held by `b[k..k + 4]`.
pub open spec fn i32_le(b: Seq<u8>, k: int) -> int {
    if u32_le(b, k) >= 0x8000_0000 {
        u32_le(b, k) - 0x1_0000_0000
    } else {
        u32_le(b, k)
    }
}

/// `b[j..j + 3]` is `48 8D 05`: `lea reg, [rip + disp32]` with a 64-bit operand.
pub open spec fn is_rip_lea(b: Seq<u8>, j: int) -> bool {
    b[j] == 0x48 && b[j + 1] == 0x8D && b[j + 2] == 0x05
}

/// `b[t..t + 3]` is the C string `"%s"`.
pub open spec fn is_percent_s(b: Seq<u8>, t: int) -> bool {
    b[t] == 0x25 && b[t + 1] == 0x73 && b[t + 2] == 0x00
}

/// The search, from the window at `j` down to the one at `lo`, for the first
/// RIP-relative `lea` whose target holds `"%s"`: `Ok(true)` when one is found,
/// `Ok(false)` when none is, an error when a `lea` points outside the buffer.
pub open spec fn format_load_search(b: Seq<u8>, lo: int, j: int) -> Result<bool, DetectionError>
    decreases j - lo + 1,
{
    if j < lo || j < 0 || j + 7 > b.len() {
        Ok(false)
    } else if is_rip_lea(b, j) {
        let t = j + 7 + i32_le(b, j + 3);
        if t < 0 || t + 3 > b.len() {
            Err(DetectionError::MalformedBinary)
        } else if is_percent_s(b, t) {
            Ok(true)
        } else {
            format_load_search(b, lo, j - 1)
        }
    } else {
        format_load_search(b, lo, j - 1)
    }
}

/// What the byte at offset `i` contributes, in a range that starts at offset
/// `lo` and at virtual address `lo_va`: `Ok(true)` when it opens a call to
/// `scanf_va` whose format argument is `"%s"`.
pub open spec fn call_site_verdict(
    b: Seq<u8>,
    lo: int,
    lo_va: int,
    scanf_va: int,
    i: int,
) -> Result<bool, DetectionError> {
    if b[i] != 0xE8 {
        Ok(false)
    } else if i + 5 > b.len() {
        Err(DetectionError::MalformedBinary)
    } else if lo_va + (i - lo) + 5 + i32_le(b, i + 1) != scanf_va {
        Ok(false)
    } else {
        format_load_search(b, lo, i - 7)
    }
}

/// The verdict over the offsets `lo..k`: the first error met, else whether any
/// call site matched.
pub open spec fn scan_prefix(
    b: Seq<u8>,
    lo: int,
    lo_va: int,
    scanf_va: int,
    k: int,
) -> Result<bool, DetectionError>
    decreases k - lo,
{
    if k <= lo {
        Ok(false)
    } else {
        match scan_prefix(b, lo, lo_va, scanf_va, k - 1) {
            Err(e) => Err(e),
            Ok(f) => match call_site_verdict(b, lo, lo_va, scanf_va, k - 1) {
                Err(e) => Err(e),
                Ok(h) => Ok(f || h),
            },
        }
    }
}

/// The verdict over the `len` bytes at offset `start`, whose first byte lies at
/// virtual address `start_va`.
pub open spec fn scan_range(
    b: Seq<u8>,
    start: int,
    len: int,
    start_va: int,
    scanf_va: int,
) -> Result<bool, DetectionError> {
    if start < 0 || len < 0 || start + len > b.len() {
        Err(DetectionError::MalformedBinary)
    } else {
        scan_prefix(b, start, start_va, scanf_va, start + len)
    }
}

proof fn lemma_error_persists(b: Seq<u8>, lo: int, lo_va: int, scanf_va: int, k: int, m: int)
    requires
        lo <= k <= m,
        scan_prefix(b, lo, lo_va, scanf_va, k) is Err,
    ensures
        scan_prefix(b, lo, lo_va, scanf_va, m) == scan_prefix(b, lo, lo_va, scanf_va, k),
    decreases m - k,
{
    if m > k {
        lemma_error_persists(b, lo, lo_va, scanf_va, k, m - 1);
    }
}

/// The signed little-endian 32-bit integer at `bytes[k..k + 4]`.
fn read_i32_le(bytes: &[u8], k: usize) -> (r: i64)
    requires
        k + 4 <= bytes@.len(),
    ensures
        r == i32_le(bytes@, k as int),
{
    let u: i64 = bytes[k] as i64 + bytes[k + 1] as i64 * 0x100 + bytes[k + 2] as i64 * 0x1_0000
        + bytes[k + 3] as i64 * 0x100_0000;
    if u >= 0x8000_0000 {
        u - 0x1_0000_0000
    } else {
        u
    }
}

/// Looks backward from 7 bytes before the call at `i`, down to `lo`, for the
/// `lea` that loads the call's format argument.
fn format_load_before(bytes: &[u8], lo: usize, i: usize) -> (r: Result<bool, DetectionError>)
    requires
        lo <= i < bytes@.len(),
    ensures
        r == format_load_search(bytes@, lo as int, i - 7),
{
    if i - lo < 7 {
        return Ok(false);
    }
    let mut k: usize = i - 6;
    while k > lo
        invariant
            lo <= k <= i - 6,
            i < bytes@.len(),
            format_load_search(bytes@, lo as int, i - 7) == format_load_search(
                bytes@,
                lo as int,
                k - 1,
            ),
        decreases k,
    {
        let j = k - 1;
        if bytes[j] == 0x48 && bytes[j + 1] == 0x8D && bytes[j + 2] == 0x05 {
            let disp = read_i32_le(bytes, j + 3);
            let t: i128 = j as i128 + 7 + disp as i128;
            if t < 0 || t + 3 > bytes.len() as i128 {
                return Err(DetectionError::MalformedBinary);
            }
            let tu = t as usize;
            if bytes[tu] == 0x25 && bytes[tu + 1] == 0x73 && bytes[tu + 2] == 0x00 {
                return Ok(true);
            }
        }
        k = j;
    }
    Ok(false)
}

/// What the byte at offset `i` contributes to the scan of a range that starts
/// at offset `lo` and virtual address `lo_va`.
fn call_site_at(bytes: &[u8], lo: usize, lo_va: u64, scanf_va: u64, i: usize) -> (r: Result<
    bool,
    DetectionError,
>)
    requires
        lo <= i < bytes@.len(),
    ensures
        r == call_site_verdict(bytes@, lo as int, lo_va as int, scanf_va as int, i as int),
{
    if bytes[i] != 0xE8 {
        return Ok(false);
    }
    if bytes.len() - i < 5 {
        return Err(DetectionError::MalformedBinary);
    }
    let disp = read_i32_le(bytes, i + 1);
    let target: i128 = lo_va as i128 + (i - lo) as i128 + 5 + disp as i128;
    if target != scanf_va as i128 {
        return Ok(false);
    }
    format_load_before(bytes, lo, i)
}

/// Scans the `len` bytes at offset `start` (the body of a function whose first
/// byte lies at virtual address `start_va`) for a near call to `scanf_va`
/// whose format argument is loaded, by a RIP-relative `lea` found by looking
/// back from the call, from the literal `"%s"`.
///
/// Every byte of the range is visited, also after a match. A range or a
/// decoded operand that leaves the buffer is reported as a malformed binary.
pub fn scan_for_vulnerable_scanf(
    bytes: &[u8],
    start: u64,
    len: u64,
    start_va: u64,
    scanf_va: u64,
) -> (r: Result<bool, DetectionError>)
    ensures
        r == scan_range(bytes@, start as int, len as int, start_va as int, scanf_va as int),
{
    if start > bytes.len() as u64 || len > bytes.len() as u64 - start {
        return Err(DetectionError::MalformedBinary);
    }
    let lo = start as usize;
    let end = (start + len) as usize;
    let mut found = false;
    let mut i: usize = lo;
    while i < end
        invariant
            lo <= i <= end,
            end <= bytes@.len(),
            lo == start,
            end == start + len,
            scan_prefix(bytes@, lo as int, start_va as int, scanf_va as int, i as int) == Ok::<
                bool,
                DetectionError,
            >(found),
        decreases end - i,
    {
        match call_site_at(bytes, lo, start_va, scanf_va, i) {
            Err(e) => {
                proof {
                    lemma_error_persists(
                        bytes@,
                        lo as int,
                        start_va as int,
                        scanf_va as int,
                        i + 1,
                        end as int,
                    );
                }
                return Err(e);
            },
            Ok(h) => {
                found = found || h;
            },
        }
        i = i + 1;
    }
    Ok(found)
}

} // verus!
