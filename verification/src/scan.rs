//! Instrumentation scanner: byte-level signature matching over process
//! introspection snapshots (memory-mapping lines and per-thread names).
//!
//! The caller reads the introspection pseudo-files and hands the raw lines
//! in; everything from there on — case folding, substring search, the
//! any-match-in-either-source policy — is verified here.

use vstd::prelude::*;

verus! {

/// ASCII lower-casing of one byte; anything outside the upper-case letter
/// range passes through unchanged.
pub open spec fn lower(b: u8) -> u8 {
    if 65 <= b && b <= 90 {
        (b + 32) as u8
    } else {
        b
    }
}

/// The needle occurs in the haystack at position `i`, byte for byte.
pub open spec fn match_at(hay: Seq<u8>, needle: Seq<u8>, i: int) -> bool {
    &&& 0 <= i
    &&& i + needle.len() <= hay.len()
    &&& forall|j: int| 0 <= j < needle.len() ==> hay[i + j] == needle[j]
}

/// The needle occurs in the haystack at position `i`, comparing bytes after
/// ASCII case folding.
pub open spec fn fold_match_at(hay: Seq<u8>, needle: Seq<u8>, i: int) -> bool {
    &&& 0 <= i
    &&& i + needle.len() <= hay.len()
    &&& forall|j: int| 0 <= j < needle.len() ==> lower(hay[i + j]) == lower(needle[j])
}

/// The needle occurs somewhere in the haystack, byte for byte.
pub open spec fn contains_bytes(hay: Seq<u8>, needle: Seq<u8>) -> bool {
    exists|i: int| match_at(hay, needle, i)
}

/// The needle occurs somewhere in the haystack, case-insensitively.
pub open spec fn contains_bytes_fold(hay: Seq<u8>, needle: Seq<u8>) -> bool {
    exists|i: int| fold_match_at(hay, needle, i)
}

pub fn lower_byte(b: u8) -> (r: u8)
    ensures
        r == lower(b),
{
    if 65 <= b && b <= 90 {
        b + 32
    } else {
        b
    }
}

fn fold_match_at_exec(hay: &[u8], needle: &[u8], i: usize) -> (r: bool)
    requires
        i + needle@.len() <= hay@.len(),
    ensures
        r == fold_match_at(hay@, needle@, i as int),
{
    let n = needle.len();
    let h = hay.len();
    let mut j: usize = 0;
    while j < n
        invariant
            n == needle@.len(),
            h == hay@.len(),
            j <= n,
            i + n <= h,
            forall|k: int| 0 <= k < j ==> lower(hay@[i + k]) == lower(needle@[k]),
        decreases n - j,
    {
        if lower_byte(hay[i + j]) != lower_byte(needle[j]) {
            return false;
        }
        j += 1;
    }
    true
}

fn match_at_exec(hay: &[u8], needle: &[u8], i: usize) -> (r: bool)
    requires
        i + needle@.len() <= hay@.len(),
    ensures
        r == match_at(hay@, needle@, i as int),
{
    let n = needle.len();
    let h = hay.len();
    let mut j: usize = 0;
    while j < n
        invariant
            n == needle@.len(),
            h == hay@.len(),
            j <= n,
            i + n <= h,
            forall|k: int| 0 <= k < j ==> hay@[i + k] == needle@[k],
        decreases n - j,
    {
        if hay[i + j] != needle[j] {
            return false;
        }
        j += 1;
    }
    true
}

/// Case-insensitive substring search over byte slices.
pub fn contains_fold_exec(hay: &[u8], needle: &[u8]) -> (r: bool)
    ensures
        r == contains_bytes_fold(hay@, needle@),
{
    let n = needle.len();
    let h = hay.len();
    if n > h {
        assert(forall|i: int| !fold_match_at(hay@, needle@, i));
        return false;
    }
    let mut i: usize = 0;
    while i <= h - n
        invariant
            n == needle@.len(),
            h == hay@.len(),
            n <= h,
            i <= h - n + 1,
            forall|k: int| 0 <= k < i ==> !fold_match_at(hay@, needle@, k),
        decreases h - n - i + 1,
    {
        if fold_match_at_exec(hay, needle, i) {
            return true;
        }
        i += 1;
    }
    assert(forall|k: int| fold_match_at(hay@, needle@, k) ==> 0 <= k < i);
    false
}

/// Exact substring search over byte slices.
pub fn contains_exec(hay: &[u8], needle: &[u8]) -> (r: bool)
    ensures
        r == contains_bytes(hay@, needle@),
{
    let n = needle.len();
    let h = hay.len();
    if n > h {
        assert(forall|i: int| !match_at(hay@, needle@, i));
        return false;
    }
    let mut i: usize = 0;
    while i <= h - n
        invariant
            n == needle@.len(),
            h == hay@.len(),
            n <= h,
            i <= h - n + 1,
            forall|k: int| 0 <= k < i ==> !match_at(hay@, needle@, k),
        decreases h - n - i + 1,
    {
        if match_at_exec(hay, needle, i) {
            return true;
        }
        i += 1;
    }
    assert(forall|k: int| match_at(hay@, needle@, k) ==> 0 <= k < i);
    false
}

/// The signature bytes of the first known dynamic-instrumentation tool.
pub open spec fn frida_sig() -> Seq<u8> {
    seq![102u8, 114u8, 105u8, 100u8, 97u8]
}

/// The signature bytes of the second known dynamic-instrumentation tool.
pub open spec fn xposed_sig() -> Seq<u8> {
    seq![120u8, 112u8, 111u8, 115u8, 101u8, 100u8]
}

fn frida_signature() -> (v: Vec<u8>)
    ensures
        v@ == frida_sig(),
{
    let mut v: Vec<u8> = Vec::new();
    v.push(102);
    v.push(114);
    v.push(105);
    v.push(100);
    v.push(97);
    proof {
        assert(v@ =~= frida_sig());
    }
    v
}

fn xposed_signature() -> (v: Vec<u8>)
    ensures
        v@ == xposed_sig(),
{
    let mut v: Vec<u8> = Vec::new();
    v.push(120);
    v.push(112);
    v.push(111);
    v.push(115);
    v.push(101);
    v.push(100);
    proof {
        assert(v@ =~= xposed_sig());
    }
    v
}

/// One introspection line carries evidence of instrumentation: some known
/// tool signature occurs in it, case-insensitively.
pub open spec fn entry_matches(line: Seq<u8>) -> bool {
    contains_bytes_fold(line, frida_sig()) || contains_bytes_fold(line, xposed_sig())
}

/// Whether one introspection line (a mapping entry or a thread name) carries
/// a known tool signature, case-insensitively.
pub fn entry_has_signature(line: &[u8]) -> (r: bool)
    ensures
        r == entry_matches(line@),
{
    let frida = frida_signature();
    if contains_fold_exec(line, frida.as_slice()) {
        return true;
    }
    let xposed = xposed_signature();
    contains_fold_exec(line, xposed.as_slice())
}

/// Some entry in the snapshot carries a tool signature.
pub open spec fn any_entry_matches(entries: Seq<Seq<u8>>) -> bool {
    exists|k: int| 0 <= k < entries.len() && entry_matches(entries[k])
}

/// Scan one introspection snapshot; a single matching entry suffices.
pub fn scan_entries(entries: &Vec<Vec<u8>>) -> (r: bool)
    ensures
        r == any_entry_matches(entries.deep_view()),
{
    let mut k: usize = 0;
    let n = entries.len();
    while k < n
        invariant
            n == entries@.len(),
            k <= n,
            entries.deep_view().len() == entries@.len(),
            forall|m: int| 0 <= m < n ==> entries.deep_view()[m] == entries@[m]@,
            forall|m: int| 0 <= m < k ==> !entry_matches(entries.deep_view()[m]),
        decreases n - k,
    {
        if entry_has_signature(entries[k].as_slice()) {
            proof {
                assert(entry_matches(entries.deep_view()[k as int]));
            }
            return true;
        }
        k += 1;
    }
    false
}

/// Instrumentation is detected in a pair of snapshots when either readable
/// source holds a matching entry; an unreadable source contributes nothing.
pub open spec fn spec_detected(
    maps: Option<Seq<Seq<u8>>>,
    threads: Option<Seq<Seq<u8>>>,
) -> bool {
    ||| (maps matches Some(m) && any_entry_matches(m))
    ||| (threads matches Some(t) && any_entry_matches(t))
}

/// Inspect the two process-introspection snapshots — memory-mapping lines
/// and per-thread names — for known dynamic-instrumentation signatures,
/// case-insensitively. Any single match in either source suffices; an
/// unreadable source (`None`) is treated as evidence of nothing, so a pair
/// of unreadable sources reads as not detected.
pub fn is_instrumentation_detected(
    maps: &Option<Vec<Vec<u8>>>,
    threads: &Option<Vec<Vec<u8>>>,
) -> (r: bool)
    ensures
        r == spec_detected(maps.deep_view(), threads.deep_view()),
{
    let maps_hit = match maps {
        Some(entries) => scan_entries(entries),
        None => false,
    };
    if maps_hit {
        return true;
    }
    match threads {
        Some(entries) => scan_entries(entries),
        None => false,
    }
}

/// Detection is a function of the snapshots alone: two runs over an
/// unchanged process state return the same answer.
pub proof fn lemma_detection_idempotent(
    maps1: Option<Seq<Seq<u8>>>,
    threads1: Option<Seq<Seq<u8>>>,
    maps2: Option<Seq<Seq<u8>>>,
    threads2: Option<Seq<Seq<u8>>>,
)
    requires
        maps1 == maps2,
        threads1 == threads2,
    ensures
        spec_detected(maps1, threads1) == spec_detected(maps2, threads2),
{
}

} // verus!
