use export_findmy::logging::{
    checkpoint, classify, current_session, filter_from_env, format_record, is_keychain_detail,
    is_safe_diagnostic, last_checkpoint, note_checkpoint, scope, Level, LogScope, CHECKPOINT_COUNT,
    DEFAULT_FILTER, KEYCHAIN_TARGET,
};

fn scoped(tag: &str) -> Option<LogScope> {
    Some(scope(tag.to_string()))
}

#[test]
fn blank_rust_log_falls_back_to_the_default_filter() {
    assert_eq!(filter_from_env(None), DEFAULT_FILTER);
    assert_eq!(filter_from_env(Some("")), DEFAULT_FILTER);
    assert_eq!(filter_from_env(Some("   ")), DEFAULT_FILTER);
    assert_eq!(filter_from_env(Some("rustpush=debug")), "rustpush=debug");
}

#[test]
fn other_white_space_counts_as_blank_too() {
    assert_eq!(filter_from_env(Some("\t\r\n\u{a0}\u{3000}")), DEFAULT_FILTER);
    // The variable is handed on as it is, not trimmed.
    assert_eq!(filter_from_env(Some(" warn ")), " warn ");
}

#[test]
fn default_filter_keeps_our_own_lines() {
    assert!(DEFAULT_FILTER.contains("export_findmy=info"));
}

#[test]
fn default_filter_admits_the_keychain_checkpoints_and_diagnostics() {
    assert!(DEFAULT_FILTER.contains("rustpush::icloud::keychain=debug"));
}

#[test]
fn session_tag_is_scoped_to_the_task() {
    assert_eq!(current_session(&None), "-");
    assert_eq!(current_session(&scoped("3f2a1b8c")), "3f2a1b8c");
    assert_eq!(current_session(&None), "-");
}

#[test]
fn checkpoints_are_recognised_with_their_real_suffixes() {
    // The messages as rustpush formats them, hashes and all.
    let cases = [
        ("Available as SHA256:abc123 [\"SHA256:def\"]", 0),
        ("Self vouching as SHA256:abc123 [\"SHA256:def\"]", 1),
        ("Entering on key MasterKey", 2),
        ("Joining with 4 shared keys.", 3),
        ("Deriving trust from peer SHA256:abc123 [\"SHA256:def\"]", 4),
    ];
    for (message, expected) in cases {
        assert_eq!(classify(message), Some(expected), "{message}");
    }
}

#[test]
fn the_last_two_checkpoints_verify_nothing() {
    assert_eq!(classify("Synced Trust!"), Some(5));
    assert_eq!(classify("Joining clique"), Some(6));
    assert_eq!(CHECKPOINT_COUNT, 7);
    for i in [1, 3, 5, 6] {
        assert_eq!(checkpoint(i).verifies(), None);
    }
    for i in [0, 2, 4] {
        assert!(checkpoint(i).verifies().is_some());
    }
    assert_eq!(checkpoint(6).prefix(), "Joining clique");
}

#[test]
fn non_checkpoint_keychain_lines_are_dropped() {
    // The first one is decrypted keychain contents.
    assert_eq!(classify("data 62706c6973743030d4010203"), None);
    assert_eq!(classify("Insert key uuid 5A2B"), None);
    assert_eq!(classify("Peer SHA256:abc clique trust state:"), None);
}

#[test]
fn only_the_keychain_module_below_warn_is_filtered() {
    assert!(is_keychain_detail(KEYCHAIN_TARGET, Level::Info));
    assert!(is_keychain_detail(KEYCHAIN_TARGET, Level::Debug));
    assert!(!is_keychain_detail(KEYCHAIN_TARGET, Level::Warn));
    assert!(!is_keychain_detail(KEYCHAIN_TARGET, Level::Error));
    assert!(!is_keychain_detail("rustpush::icloud::cloudkit", Level::Info));
    assert!(!is_keychain_detail("export_findmy::pipeline", Level::Info));
}

#[test]
fn the_last_checkpoint_reached_is_what_is_reported() {
    let mut slot = scoped("t");
    assert!(last_checkpoint(&slot).is_none());

    note_checkpoint(&mut slot, classify("Available as SHA256:abc []").unwrap());
    assert_eq!(last_checkpoint(&slot).map(|c| c.prefix()), Some("Available as "));

    // A fetch that gets through several shares still reports the site, not the share.
    note_checkpoint(&mut slot, classify("Entering on key MasterKey").unwrap());
    note_checkpoint(&mut slot, classify("Entering on key TLK").unwrap());
    let last = last_checkpoint(&slot).expect("checkpoint recorded");
    assert_eq!(last.prefix(), "Entering on key ");
    assert!(last.verifies().unwrap().contains("TLK share"));
}

#[test]
fn checkpoints_do_not_leak_between_sessions() {
    let mut a = scoped("a");
    let b = scoped("b");
    note_checkpoint(&mut a, classify("Entering on key TLK").unwrap());
    assert!(last_checkpoint(&a).is_some());
    assert!(last_checkpoint(&b).is_none());
}

#[test]
fn a_dropped_record_reaches_the_output_as_nothing_at_all() {
    let mut slot = scoped("t");
    assert_eq!(
        format_record(&mut slot, KEYCHAIN_TARGET, Level::Info, "data 62706c69737430"),
        "",
        "dropped record produced output"
    );
    assert_eq!(format_record(&mut slot, KEYCHAIN_TARGET, Level::Debug, "Insert key uuid 5A2B"), "");
}

#[test]
fn checkpoints_and_warnings_do_reach_the_output() {
    let mut slot = scoped("7b2f1fa7");
    let mut out =
        format_record(&mut slot, KEYCHAIN_TARGET, Level::Info, "Entering on key MasterKey");
    out.push_str(&format_record(
        &mut slot,
        KEYCHAIN_TARGET,
        Level::Warn,
        "Signature verification failed",
    ));
    assert!(out.contains("Entering on key MasterKey"), "{out}");
    assert!(out.contains("Signature verification failed"), "{out}");
    assert_eq!(out.matches("[sess=7b2f1fa7]").count(), 2, "{out}");
    assert_eq!(last_checkpoint(&slot).map(|c| c.prefix()), Some("Entering on key "));
}

#[test]
fn rust_log_cannot_re_enable_the_redacted_lines() {
    // No filter is consulted: the allowlist holds at every level below `warn`.
    let mut slot = scoped("t");
    assert_eq!(
        format_record(&mut slot, KEYCHAIN_TARGET, Level::Trace, "data 62706c69737430"),
        ""
    );
}

#[test]
fn a_record_is_one_tagged_line() {
    let mut slot = scoped("3f2a1b8c");
    assert_eq!(
        format_record(&mut slot, KEYCHAIN_TARGET, Level::Warn, "Signature verification failed"),
        "[sess=3f2a1b8c] WARN  rustpush::icloud::keychain > Signature verification failed\n"
    );
    assert_eq!(
        format_record(&mut None, "export_findmy", Level::Error, "x"),
        "[sess=-] ERROR export_findmy > x\n"
    );
    assert_eq!(
        format_record(&mut None, "other", Level::Info, "data 00"),
        "[sess=-] INFO  other > data 00\n"
    );
}

#[test]
fn the_escrow_diagnostics_are_matched_as_rustpush_formats_them() {
    assert!(is_safe_diagnostic(
        "Escrow lookup returned 3 metadata record(s) and 0 viable Cuttlefish bottle(s)"
    ));
    assert!(is_safe_diagnostic(
        "Escrow metadata schema mismatch: missing field `passcodeGeneration`; \
         top-level shape: [bottleId:string, escrowedSPKI:data]"
    ));
    // Prefix, not substring.
    assert!(!is_safe_diagnostic("Insert key for Escrow lookup returned"));
    assert!(!is_safe_diagnostic("data 62706c69737430"));
}

#[test]
fn the_escrow_diagnostics_print_without_claiming_a_join_position() {
    let mut slot = scoped("t");
    let mut out = format_record(
        &mut slot,
        KEYCHAIN_TARGET,
        Level::Info,
        "Escrow lookup returned 3 metadata record(s) and 0 viable Cuttlefish bottle(s)",
    );
    out.push_str(&format_record(
        &mut slot,
        KEYCHAIN_TARGET,
        Level::Debug,
        "Escrow metadata schema mismatch: missing field `passcodeGeneration`; \
         top-level shape: [bottleId:string, escrowedSPKI:data]",
    ));
    assert!(out.contains("3 metadata record(s) and 0 viable"), "{out}");
    assert!(out.contains("missing field `passcodeGeneration`"), "{out}");
    assert!(last_checkpoint(&slot).is_none(), "diagnostic recorded as a checkpoint");
}

#[test]
fn a_checkpoint_outside_an_export_is_harmless() {
    let mut slot = None;
    note_checkpoint(&mut slot, 0);
    assert!(last_checkpoint(&slot).is_none());
}
