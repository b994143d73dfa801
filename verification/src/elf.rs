//! Symbol resolution for the linkage-table patch probe: pick a loaded
//! module (the main program or a named library), and compute the absolute
//! address of a symbol's linkage slot together with the memory page
//! containing it.
//!
//! The binary-format walk itself — reading a module's dynamic metadata and
//! looking the symbol up — is done by an outside ELF library whose calls
//! can abort on a module with degenerate metadata, which no verified
//! function may risk; the process boundary performs that walk under an
//! unwind fence and hands the plain values back. The selection policy, the
//! address arithmetic and the error taxonomy are verified here over those
//! values.

use crate::scan::{contains_bytes, contains_exec};
use vstd::arithmetic::div_mod::lemma_fundamental_div_mod;
use vstd::prelude::*;
use vstd::string::StringSliceAdditionalSpecFns;
use vstd::utf8::encode_utf8;

verus! {

/// Relies on nix::unistd::sysconf(PAGE_SIZE): the system's memory page size
/// as the kernel reports it, handed back raw.
#[verifier::external_body]
fn page_size_raw() -> Option<i64> {
    nix::unistd::sysconf(nix::unistd::SysconfVar::PAGE_SIZE).ok().flatten().map(|v| v as i64)
}

/// What a linkage-table patch attempt can fail on before any protection
/// change is tried; each keeps the failing step apart, so a blocked
/// technique can be told from one that could not be attempted.
#[derive(Clone, Copy, Debug, PartialEq, Eq, Structural)]
pub enum PatchProbeError {
    /// No loaded module answers to the requested target.
    LibraryNotFound,
    /// The module was found but its dynamic metadata could not be read.
    ImageUnreadable,
    /// The module holds no relocation entry for the symbol.
    SymbolNotFound,
    /// The page size could not be determined or is unusable.
    PageSizeUnavailable,
    /// The slot address does not fit the address space.
    SlotOutOfRange,
}

/// Identifies what to search for a symbol: the running executable itself,
/// or a loaded shared library picked by name.
pub enum LibraryTarget {
    Executable,
    Named(String),
}

/// The byte spelling of the reserved name that denotes the running
/// executable.
pub open spec fn executable_selector() -> Seq<u8> {
    seq![101u8, 120u8, 101u8, 99u8, 117u8, 116u8, 97u8, 98u8, 108u8, 101u8]
}

fn executable_selector_bytes() -> (v: Vec<u8>)
    ensures
        v@ == executable_selector(),
{
    let mut v: Vec<u8> = Vec::new();
    v.push(101);
    v.push(120);
    v.push(101);
    v.push(99);
    v.push(117);
    v.push(116);
    v.push(97);
    v.push(98);
    v.push(108);
    v.push(101);
    proof {
        assert(v@ =~= executable_selector());
    }
    v
}

/// Byte-for-byte equality of two slices.
pub fn bytes_equal(a: &[u8], b: &[u8]) -> (r: bool)
    ensures
        r <==> a@ == b@,
{
    let n = a.len();
    if n != b.len() {
        return false;
    }
    let mut i: usize = 0;
    while i < n
        invariant
            n == a@.len(),
            n == b@.len(),
            i <= n,
            forall|k: int| 0 <= k < i ==> a@[k] == b@[k],
        decreases n - i,
    {
        if a[i] != b[i] {
            return false;
        }
        i += 1;
    }
    proof {
        assert(a@ =~= b@);
    }
    true
}

/// The target a requested library name denotes: the reserved selector names
/// the running executable, anything else names a shared library.
pub fn library_target_from_name(name: &str) -> (t: LibraryTarget)
    ensures
        (name.spec_bytes() == executable_selector()) <==> t is Executable,
        t matches LibraryTarget::Named(n) ==> n@ == name@,
{
    let bytes = name.as_bytes();
    let sel = executable_selector_bytes();
    if bytes_equal(bytes, sel.as_slice()) {
        LibraryTarget::Executable
    } else {
        LibraryTarget::Named(name.to_owned())
    }
}

/// `i` is the first of the recorded module names that contains the
/// requested name as a byte substring.
pub open spec fn first_match_at(names: Seq<Seq<u8>>, needle: Seq<u8>, i: int) -> bool {
    &&& 0 <= i < names.len()
    &&& contains_bytes(names[i], needle)
    &&& forall|j: int| 0 <= j < i ==> !contains_bytes(names[j], needle)
}

/// The index of the first module name containing the requested name, if
/// any does.
pub fn first_module_matching(names: &Vec<Vec<u8>>, needle: &[u8]) -> (r: Option<usize>)
    ensures
        match r {
            Some(i) => first_match_at(names.deep_view(), needle@, i as int),
            None => forall|j: int|
                0 <= j < names.deep_view().len() ==> !contains_bytes(
                    names.deep_view()[j],
                    needle@,
                ),
        },
{
    let n = names.len();
    let mut i: usize = 0;
    while i < n
        invariant
            n == names@.len(),
            i <= n,
            names.deep_view().len() == names@.len(),
            forall|m: int| 0 <= m < n ==> names.deep_view()[m] == names@[m]@,
            forall|j: int| 0 <= j < i ==> !contains_bytes(names.deep_view()[j], needle@),
        decreases n - i,
    {
        if contains_exec(names[i].as_slice(), needle) {
            proof {
                assert(contains_bytes(names.deep_view()[i as int], needle@));
            }
            return Some(i);
        }
        i += 1;
    }
    None
}

/// The resolved linkage-table slot of one symbol: its absolute address,
/// the page containing it, and the page size that page was computed with.
#[derive(Clone, Copy, Debug, PartialEq, Eq, Structural)]
pub struct SymbolSlot {
    pub slot_addr: usize,
    pub page_addr: usize,
    pub page_len: usize,
}

impl SymbolSlot {
    /// The page is the slot's address aligned down to a whole page.
    pub open spec fn wf(self) -> bool {
        &&& self.page_len > 0
        &&& self.page_addr == (self.slot_addr as int / self.page_len as int)
            * self.page_len as int
    }
}

/// A well-formed slot lies inside its page.
pub proof fn lemma_slot_in_page(s: SymbolSlot)
    requires
        s.wf(),
    ensures
        s.page_addr <= s.slot_addr < s.page_addr + s.page_len,
{
    let q = s.slot_addr as int / s.page_len as int;
    let m = s.slot_addr as int % s.page_len as int;
    lemma_fundamental_div_mod(s.slot_addr as int, s.page_len as int);
    assert(s.slot_addr as int == s.page_len as int * q + m);
    assert(0 <= m);
    assert(m < s.page_len as int);
    assert(s.page_len as int * q == q * s.page_len as int) by (nonlinear_arith);
}

/// A usable page size from the raw answer of the system configuration
/// query: a positive count of bytes no wider than 32 bits; anything else
/// is unusable.
pub open spec fn spec_normal_page_size(raw: Option<i64>) -> Option<usize> {
    match raw {
        Some(v) => if 0 < v && v <= u32::MAX as i64 {
            Some(v as usize)
        } else {
            None
        },
        None => None,
    }
}

pub fn normalize_page_size(raw: Option<i64>) -> (r: Option<usize>)
    ensures
        r == spec_normal_page_size(raw),
{
    match raw {
        Some(v) => if 0 < v && v <= u32::MAX as i64 {
            Some(v as usize)
        } else {
            None
        },
        None => None,
    }
}

/// The absolute slot address and its containing page, from the outside
/// resolution results: the module's base load address, the symbol's
/// relocation offset, and the page size. The slot is `base + offset`; it is
/// out of range exactly when that sum does not fit an address.
pub fn slot_location(base: usize, offset: u64, page_len: usize) -> (r: Result<
    SymbolSlot,
    PatchProbeError,
>)
    requires
        page_len > 0,
    ensures
        base + offset <= usize::MAX ==> (r matches Ok(s) && s.slot_addr == base + offset
            && s.page_len == page_len && s.wf()),
        base + offset > usize::MAX ==> r == Err::<SymbolSlot, PatchProbeError>(
            PatchProbeError::SlotOutOfRange,
        ),
{
    if offset > (usize::MAX as u64) - (base as u64) {
        return Err(PatchProbeError::SlotOutOfRange);
    }
    let slot: usize = base + (offset as usize);
    let quot: usize = slot / page_len;
    proof {
        lemma_fundamental_div_mod(slot as int, page_len as int);
        assert(0 <= slot as int % page_len as int);
        assert((slot as int % page_len as int) < page_len as int);
    }
    let page: usize = quot * page_len;
    let s = SymbolSlot { slot_addr: slot, page_addr: page, page_len };
    Ok(s)
}

/// No recorded module name answers to the target: for the running
/// executable, the loader reported no modules at all; for a named library,
/// no recorded name contains the requested one.
pub open spec fn spec_library_missing(names: Seq<Seq<u8>>, target: LibraryTarget) -> bool {
    match target {
        LibraryTarget::Executable => names.len() == 0,
        LibraryTarget::Named(n) => forall|j: int|
            0 <= j < names.len() ==> !contains_bytes(names[j], encode_utf8(n@)),
    }
}

/// The module the resolution policy picks from the recorded names: the
/// running executable is the first module the loader reports; a named
/// library is the first whose recorded name contains the requested one.
pub fn select_module_index(names: &Vec<Vec<u8>>, target: &LibraryTarget) -> (r: Result<
    usize,
    PatchProbeError,
>)
    ensures
        r is Err <==> spec_library_missing(names.deep_view(), *target),
        r matches Err(e) ==> e == PatchProbeError::LibraryNotFound,
        match *target {
            LibraryTarget::Executable => r is Ok ==> r == Ok::<usize, PatchProbeError>(0usize),
            LibraryTarget::Named(n) => r matches Ok(i) ==> first_match_at(
                names.deep_view(),
                encode_utf8(n@),
                i as int,
            ),
        },
{
    match target {
        LibraryTarget::Executable => {
            if names.len() == 0 {
                Err(PatchProbeError::LibraryNotFound)
            } else {
                Ok(0)
            }
        },
        LibraryTarget::Named(name) => match first_module_matching(
            names,
            name.as_str().as_bytes(),
        ) {
            Some(i) => Ok(i),
            None => Err(PatchProbeError::LibraryNotFound),
        },
    }
}

/// Resolve the linkage-table slot of a symbol from the values the caller
/// gathered: the recorded module names, in loader order, and the result of
/// walking the selected module's dynamic metadata (`image` is `None` when
/// the metadata could not be read, else the module's base load address
/// paired with the symbol's relocation offset where one was found). The
/// walk itself happens at the process boundary, under its unwind fence:
/// its outside calls can abort on degenerate metadata, which no verified
/// function may risk. Every resolved answer is a well-formed slot; every
/// failure names the step that could not be carried out, with a missing
/// library reported ahead of anything the walk handed back.
pub fn resolve_symbol_slot(
    target: &LibraryTarget,
    names: &Vec<Vec<u8>>,
    image: &Option<(usize, Option<u64>)>,
) -> (r: Result<SymbolSlot, PatchProbeError>)
    ensures
        spec_library_missing(names.deep_view(), *target) ==> r == Err::<
            SymbolSlot,
            PatchProbeError,
        >(PatchProbeError::LibraryNotFound),
        !spec_library_missing(names.deep_view(), *target) ==> match *image {
            None => r == Err::<SymbolSlot, PatchProbeError>(PatchProbeError::ImageUnreadable),
            Some((base, found)) => match found {
                None => r == Err::<SymbolSlot, PatchProbeError>(PatchProbeError::SymbolNotFound),
                Some(offset) => {
                    &&& (r matches Ok(s) ==> s.wf() && s.slot_addr == base + offset)
                    &&& (r is Err ==> r == Err::<SymbolSlot, PatchProbeError>(
                        PatchProbeError::PageSizeUnavailable,
                    ) || r == Err::<SymbolSlot, PatchProbeError>(PatchProbeError::SlotOutOfRange))
                    &&& (r == Err::<SymbolSlot, PatchProbeError>(PatchProbeError::SlotOutOfRange)
                        ==> base + offset > usize::MAX)
                },
            },
        },
{
    if let Err(e) = select_module_index(names, target) {
        return Err(e);
    }
    let (base, found) = match image {
        Some(pair) => (pair.0, pair.1),
        None => {
            return Err(PatchProbeError::ImageUnreadable);
        },
    };
    let offset = match found {
        Some(o) => o,
        None => {
            return Err(PatchProbeError::SymbolNotFound);
        },
    };
    let page_len = match normalize_page_size(page_size_raw()) {
        Some(p) => p,
        None => {
            return Err(PatchProbeError::PageSizeUnavailable);
        },
    };
    slot_location(base, offset, page_len)
}

} // verus!
