use rasp_probe::elf::{
    bytes_equal, first_module_matching, library_target_from_name, normalize_page_size,
    resolve_symbol_slot, select_module_index, slot_location, LibraryTarget, PatchProbeError,
};
use rasp_probe::patch::{PageProtection, PatchSession};
use rasp_probe::trace::{attempt_process_trace, trace_verdict};
use rasp_probe::verdict::{verdict_code, ProbeVerdict};
use rasp_probe::write_probe::FaultTrampoline;

#[test]
fn verdict_codes_distinguish_bypass_from_everything_else() {
    assert_eq!(verdict_code(&ProbeVerdict::Bypassed), 0);
    assert_eq!(verdict_code(&ProbeVerdict::Blocked), -1);
    assert_eq!(verdict_code(&ProbeVerdict::InvocationError), -1);
}

#[test]
fn trace_verdict_maps_attach_outcome() {
    assert_eq!(trace_verdict(&Ok(())), ProbeVerdict::Bypassed);
    assert_eq!(trace_verdict(&Err(1)), ProbeVerdict::Blocked);
}

#[test]
fn tracing_a_nonexistent_process_is_blocked() {
    // No process can carry this id (the kernel's default pid cap is far
    // lower), so the attach must fail and the probe report `Blocked`.
    let report = attempt_process_trace(i32::MAX);
    assert_eq!(report.verdict, ProbeVerdict::Blocked);
    assert!(!report.detach_attempted);
    assert!(report.attach_errno.is_some());
    assert!(report.detach_errno.is_none());
}

#[test]
fn tracing_your_own_process_is_blocked() {
    // A process may not attach to itself, so this target is untraceable
    // and the probe must report `Blocked`.
    let own_pid = nix::unistd::getpid().as_raw();
    let report = attempt_process_trace(own_pid);
    assert_eq!(report.verdict, ProbeVerdict::Blocked);
    assert!(!report.detach_attempted);
    assert!(report.attach_errno.is_some());
}

#[test]
fn byte_equality_is_exact() {
    assert!(bytes_equal(b"executable", b"executable"));
    assert!(!bytes_equal(b"executable", b"Executable"));
    assert!(!bytes_equal(b"executable", b"executables"));
    assert!(bytes_equal(b"", b""));
}

#[test]
fn library_target_reserves_the_executable_selector() {
    assert!(matches!(library_target_from_name("executable"), LibraryTarget::Executable));
    match library_target_from_name("libc.so") {
        LibraryTarget::Named(n) => assert_eq!(n, "libc.so"),
        LibraryTarget::Executable => panic!("a library name must not denote the executable"),
    }
    assert!(matches!(library_target_from_name("EXECUTABLE"), LibraryTarget::Named(_)));
}

#[test]
fn first_matching_module_name_wins() {
    let names: Vec<Vec<u8>> = vec![
        b"".to_vec(),
        b"/lib/ld-linux.so.2".to_vec(),
        b"/lib/libc.so.6".to_vec(),
        b"/lib/libcrypto.so".to_vec(),
    ];
    assert_eq!(first_module_matching(&names, b"libc"), Some(2));
    assert_eq!(first_module_matching(&names, b"ld-linux"), Some(1));
    assert_eq!(first_module_matching(&names, b"libfoo"), None);
}

#[test]
fn page_size_normalization_rejects_unusable_answers() {
    assert_eq!(normalize_page_size(Some(4096)), Some(4096));
    assert_eq!(normalize_page_size(Some(16384)), Some(16384));
    assert_eq!(normalize_page_size(Some(0)), None);
    assert_eq!(normalize_page_size(Some(-1)), None);
    assert_eq!(normalize_page_size(Some(1_i64 << 40)), None);
    assert_eq!(normalize_page_size(None), None);
}

#[test]
fn slot_location_computes_the_containing_page() {
    let slot = slot_location(0x7f00_0000, 0x1234, 0x1000).unwrap();
    assert_eq!(slot.slot_addr, 0x7f00_1234);
    assert_eq!(slot.page_addr, 0x7f00_1000);
    assert_eq!(slot.page_len, 0x1000);

    let aligned = slot_location(0x4000, 0, 0x1000).unwrap();
    assert_eq!(aligned.slot_addr, 0x4000);
    assert_eq!(aligned.page_addr, 0x4000);
}

#[test]
fn slot_location_rejects_an_address_past_the_address_space() {
    let r = slot_location(usize::MAX, 1, 4096);
    assert_eq!(r, Err(PatchProbeError::SlotOutOfRange));
}

#[test]
fn executable_selection_picks_the_first_module() {
    let target = library_target_from_name("executable");
    let names: Vec<Vec<u8>> = vec![b"".to_vec(), b"/lib/libc.so.6".to_vec()];
    assert_eq!(select_module_index(&names, &target), Ok(0));
    let empty: Vec<Vec<u8>> = vec![];
    assert_eq!(select_module_index(&empty, &target), Err(PatchProbeError::LibraryNotFound));
}

#[test]
fn resolving_in_an_absent_library_is_a_library_not_found_error() {
    let target = library_target_from_name("no_such_library_zzz.so");
    let names: Vec<Vec<u8>> = vec![b"".to_vec(), b"/lib/libc.so.6".to_vec()];
    assert_eq!(
        select_module_index(&names, &target),
        Err(PatchProbeError::LibraryNotFound)
    );
    // A missing library is reported even ahead of whatever the walk says.
    let r = resolve_symbol_slot(&target, &names, &Some((0x1000, Some(0x10))));
    assert_eq!(r, Err(PatchProbeError::LibraryNotFound));
}

#[test]
fn resolving_an_absent_symbol_is_a_symbol_not_found_error() {
    let target = library_target_from_name("executable");
    let names: Vec<Vec<u8>> = vec![b"".to_vec()];
    let r = resolve_symbol_slot(&target, &names, &Some((0x7f00_0000, None)));
    assert_eq!(r, Err(PatchProbeError::SymbolNotFound));
}

#[test]
fn unreadable_metadata_is_an_image_unreadable_error() {
    let target = library_target_from_name("executable");
    let names: Vec<Vec<u8>> = vec![b"".to_vec()];
    let r = resolve_symbol_slot(&target, &names, &None);
    assert_eq!(r, Err(PatchProbeError::ImageUnreadable));
}

#[test]
fn resolving_a_common_symbol_in_the_running_executable() {
    // The real walk, mirroring the probe's boundary driver: the library
    // picks the module, the outside ELF walk hands back plain values. A
    // dynamically linked test binary imports at least one of these symbols
    // through its linkage table.
    let target = library_target_from_name("executable");
    let mut modules = plt_rs::collect_modules();
    let names: Vec<Vec<u8>> = modules.iter().map(|m| m.name().as_bytes().to_vec()).collect();
    let idx = select_module_index(&names, &target).unwrap();
    let module = modules.remove(idx);
    let image = plt_rs::DynamicLibrary::initialize(module).unwrap();
    let base = image.base_addr();
    let mut resolved: usize = 0;
    for sym in ["memcpy", "memmove", "memset", "malloc", "free", "abort", "strlen"] {
        if let Some(entry) = image.try_find_function(sym) {
            let r = resolve_symbol_slot(
                &target,
                &names,
                &Some((base, Some(entry.r_offset as u64))),
            );
            let slot = r.unwrap();
            assert!(slot.page_len > 0);
            assert_eq!(slot.page_addr, (slot.slot_addr / slot.page_len) * slot.page_len);
            assert!(slot.page_addr <= slot.slot_addr);
            assert!(slot.slot_addr - slot.page_addr < slot.page_len);
            assert_eq!(slot.slot_addr, base + entry.r_offset as usize);
            resolved += 1;
        }
    }
    assert!(resolved > 0);
}

#[test]
fn blocked_patch_leaves_the_page_read_only() {
    let mut session = PatchSession::begin();
    session.record_enable(false);
    assert_eq!(session.verdict, Some(ProbeVerdict::Blocked));
    assert_eq!(session.protection, PageProtection::ReadOnly);
    assert!(!session.restore_failed);
}

#[test]
fn bypassed_patch_reverts_the_page() {
    let mut session = PatchSession::begin();
    session.record_enable(true);
    assert_eq!(session.protection, PageProtection::ReadWrite);
    session.record_revert(true);
    assert_eq!(session.verdict, Some(ProbeVerdict::Bypassed));
    assert_eq!(session.protection, PageProtection::ReadOnly);
    assert!(!session.restore_failed);
}

#[test]
fn failed_revert_elevates_but_keeps_the_bypass_verdict() {
    let mut session = PatchSession::begin();
    session.record_enable(true);
    session.record_revert(false);
    assert_eq!(session.verdict, Some(ProbeVerdict::Bypassed));
    assert_eq!(session.protection, PageProtection::ReadWrite);
    assert!(session.restore_failed);
}

#[test]
fn faulted_write_is_blocked_and_restores_the_handler() {
    let mut t = FaultTrampoline::arm();
    assert!(t.handler_installed);
    t.observe_fault();
    t.complete_blocked();
    assert!(!t.handler_installed);
    assert!(!t.wrote);
    assert_eq!(t.verdict, Some(ProbeVerdict::Blocked));
}

#[test]
fn landed_write_is_bypassed_and_restores_the_handler() {
    let mut t = FaultTrampoline::arm();
    t.complete_written();
    assert!(!t.handler_installed);
    assert!(t.wrote);
    assert_eq!(t.verdict, Some(ProbeVerdict::Bypassed));
}
