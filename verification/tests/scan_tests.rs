use rasp_probe::scan::{contains_exec, contains_fold_exec, entry_has_signature, is_instrumentation_detected, lower_byte};

#[test]
fn lower_byte_folds_ascii_upper_case_only() {
    assert_eq!(lower_byte(b'A'), b'a');
    assert_eq!(lower_byte(b'Z'), b'z');
    assert_eq!(lower_byte(b'a'), b'a');
    assert_eq!(lower_byte(b'0'), b'0');
    assert_eq!(lower_byte(b'-'), b'-');
    assert_eq!(lower_byte(0u8), 0u8);
    assert_eq!(lower_byte(255u8), 255u8);
}

#[test]
fn contains_fold_finds_substring_case_insensitively() {
    assert!(contains_fold_exec(b"frida-agent", b"frida"));
    assert!(contains_fold_exec(b"FRIDA-agent", b"frida"));
    assert!(contains_fold_exec(b"a FrIdA gadget", b"frida"));
    assert!(contains_fold_exec(b"libXposedBridge.so", b"xposed"));
    assert!(!contains_fold_exec(b"gmain", b"frida"));
    assert!(!contains_fold_exec(b"frid", b"frida"));
    assert!(contains_fold_exec(b"anything", b""));
    assert!(!contains_fold_exec(b"", b"frida"));
}

#[test]
fn contains_exec_is_case_sensitive() {
    assert!(contains_exec(b"/lib/libc.so.6", b"libc"));
    assert!(!contains_exec(b"/lib/LIBC.so.6", b"libc"));
    assert!(contains_exec(b"abc", b""));
    assert!(!contains_exec(b"ab", b"abc"));
}

#[test]
fn entry_signatures_cover_both_tools() {
    assert!(entry_has_signature(b"frida-agent"));
    assert!(entry_has_signature(b"Frida-Server"));
    assert!(entry_has_signature(b"/data/app/XposedInstaller.apk"));
    assert!(!entry_has_signature(b"pool-1-thread-2"));
    assert!(!entry_has_signature(b""));
}

#[test]
fn detection_requires_a_match_in_some_readable_source() {
    let maps: Option<Vec<Vec<u8>>> = Some(vec![
        b"7f0000000000-7f0000001000 r-xp 00000000 fd:00 1 /system/lib/libart.so".to_vec(),
        b"7f0000002000-7f0000003000 r-xp 00000000 fd:00 2 /data/local/tmp/frida-agent.so".to_vec(),
    ]);
    let threads: Option<Vec<Vec<u8>>> = Some(vec![b"main".to_vec()]);
    assert!(is_instrumentation_detected(&maps, &threads));
}

#[test]
fn detection_finds_thread_name_signature() {
    let maps: Option<Vec<Vec<u8>>> = Some(vec![b"clean mapping".to_vec()]);
    let threads: Option<Vec<Vec<u8>>> = Some(vec![b"gmain".to_vec(), b"FRIDA-agent".to_vec()]);
    assert!(is_instrumentation_detected(&maps, &threads));
}

#[test]
fn detection_is_negative_on_clean_sources() {
    let maps: Option<Vec<Vec<u8>>> = Some(vec![b"/system/lib64/libc.so".to_vec()]);
    let threads: Option<Vec<Vec<u8>>> = Some(vec![b"main".to_vec(), b"binder-1".to_vec()]);
    assert!(!is_instrumentation_detected(&maps, &threads));
}

#[test]
fn detection_fails_closed_when_sources_are_unreadable() {
    let maps: Option<Vec<Vec<u8>>> = None;
    let threads: Option<Vec<Vec<u8>>> = None;
    assert!(!is_instrumentation_detected(&maps, &threads));
}

#[test]
fn detection_is_idempotent_over_an_unchanged_snapshot() {
    let maps: Option<Vec<Vec<u8>>> = Some(vec![b"xposed bridge".to_vec()]);
    let threads: Option<Vec<Vec<u8>>> = None;
    let first = is_instrumentation_detected(&maps, &threads);
    let second = is_instrumentation_detected(&maps, &threads);
    assert_eq!(first, second);
    assert!(first);

    let clean_maps: Option<Vec<Vec<u8>>> = Some(vec![b"nothing here".to_vec()]);
    let clean_threads: Option<Vec<Vec<u8>>> = Some(vec![]);
    let first = is_instrumentation_detected(&clean_maps, &clean_threads);
    let second = is_instrumentation_detected(&clean_maps, &clean_threads);
    assert_eq!(first, second);
    assert!(!first);
}
