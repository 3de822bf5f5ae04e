use export_findmy::logging::{checkpoint, Checkpoint};
use export_findmy::pipeline::{
    account_ids, check_index, choice_line, clone_devices, device_line, failing_signature,
    join_error, log_line, login_error, sanitize, AuthError, AuthFailure, DeviceInfo, JoinFailure,
    PipelineError, CLUB_LABEL, LOGIN_UPSTREAM, MAX_JOIN_ATTEMPTS, TRUST_CIRCLE_SIGNATURE,
};
use export_findmy::timestamp::rfc3339_secs;

fn md(pairs: &[(&str, &str)]) -> plist::Value {
    let mut d = plist::Dictionary::new();
    for (k, v) in pairs {
        d.insert((*k).into(), plist::Value::String((*v).into()));
    }
    plist::Value::Dictionary(d)
}

fn failed(kind: AuthFailure, text: &str) -> AuthError {
    AuthError { kind, text: text.to_string() }
}

fn join(bad_msg: bool, text: &str) -> JoinFailure {
    JoinFailure { bad_msg, text: text.to_string(), debug: format!("Debug({text})") }
}

#[test]
fn device_info_prefers_name_and_model_class() {
    let info = DeviceInfo::from_metadata(
        "GYK3003QMY",
        &md(&[
            ("device_name", "Grega's MacBook Air"),
            ("device_model_class", "MacBook Air"),
            ("device_model", "Mac17,4"),
        ]),
    );
    assert_eq!(info.serial, "GYK3003QMY");
    assert_eq!(info.name, "Grega's MacBook Air");
    assert_eq!(info.model, "MacBook Air"); // class preferred over device_model
}

#[test]
fn device_info_falls_back_to_model_then_serial() {
    let info = DeviceInfo::from_metadata("J9NQHW229W", &md(&[("device_model", "iPhone 16")]));
    assert_eq!(info.name, "J9NQHW229W");
    assert_eq!(info.model, "iPhone 16");

    let info = DeviceInfo::from_metadata("SER", &md(&[]));
    assert_eq!(info.name, "SER");
    assert_eq!(info.model, "");
}

#[test]
fn device_info_ignores_metadata_of_another_type() {
    // A value that is no dictionary, and an entry that is no string.
    let info = DeviceInfo::from_metadata("SER", &plist::Value::String("device_name".into()));
    assert_eq!(info.name, "SER");
    let mut d = plist::Dictionary::new();
    d.insert("device_name".into(), plist::Value::Integer(7.into()));
    let info = DeviceInfo::from_metadata("SER", &plist::Value::Dictionary(d));
    assert_eq!(info.name, "SER");
}

#[test]
fn rfc3339_secs_truncates_to_whole_seconds() {
    assert_eq!(rfc3339_secs(0), "1970-01-01T00:00:00Z");
    // Sub-second precision is dropped.
    assert_eq!(rfc3339_secs(1_500 * 1_000_000), "1970-01-01T00:00:01Z");
    let s = rfc3339_secs(1_736_625_462_920_991_898);
    assert!(!s.contains('.') && s.ends_with('Z'), "no fractional seconds: {s}");
}

#[test]
fn dates_are_exact() {
    assert_eq!(rfc3339_secs(1_736_625_462_920_991_898), "2025-01-11T19:57:42Z");
    // Leap years: every fourth, but of the centuries only every fourth.
    let day = |days: i128| rfc3339_secs(days * 86_400_000_000_000);
    assert_eq!(day(58), "1970-02-28T00:00:00Z");
    assert_eq!(day(59), "1970-03-01T00:00:00Z");
    assert_eq!(day(789), "1972-02-29T00:00:00Z");
    assert_eq!(day(11_016), "2000-02-29T00:00:00Z");
    assert_eq!(day(11_322), "2000-12-31T00:00:00Z");
    assert_eq!(day(47_540), "2100-02-28T00:00:00Z");
    assert_eq!(day(47_541), "2100-03-01T00:00:00Z");
    // A moment before 1970 counts as its beginning.
    assert_eq!(rfc3339_secs(-1), "1970-01-01T00:00:00Z");
    assert_eq!(rfc3339_secs(253_402_300_799_000_000_000), "9999-12-31T23:59:59Z");
    assert_eq!(rfc3339_secs(253_402_300_800_000_000_000), "+10000-01-01T00:00:00Z");
    assert_eq!(rfc3339_secs(8_210_266_876_799_999_999_999), "+262142-12-31T23:59:59Z");
}

#[test]
fn sanitize_stops_a_caller_forging_a_log_record() {
    let forged = "a@b.com\n[victim@icloud.com] [sess=3f2a1b8c]   Joined trust circle!";
    let clean = sanitize(forged);
    assert!(!clean.contains('\n'), "{clean}");
    assert!(!clean.contains('\r'));
    assert!(clean.starts_with("a@b.com"));
    // Ordinary text, including non-ASCII, is untouched.
    assert_eq!(sanitize("Grega's MacBook Air"), "Grega's MacBook Air");
    assert_eq!(sanitize("iPhone de José"), "iPhone de José");
}

#[test]
fn sanitize_replaces_every_control_character() {
    for n in 0..0x300u32 {
        let c = char::from_u32(n).unwrap();
        let clean = sanitize(&c.to_string());
        if c.is_control() {
            assert_eq!(clean, "\u{fffd}");
        } else {
            assert_eq!(clean, c.to_string());
        }
    }
}

#[test]
fn a_log_line_names_the_account_and_the_attempt() {
    assert_eq!(
        log_line("me@icloud.com", "3f2a1b8c", "[2/7] Logging in to Apple ID..."),
        "[me@icloud.com] [sess=3f2a1b8c] [2/7] Logging in to Apple ID..."
    );
    assert_eq!(log_line("a\nb", "cli", "x"), "[a\u{fffd}b] [sess=cli] x");
}

#[test]
fn passcode_length_counts_characters_not_bytes() {
    assert_eq!("pässwörd".chars().count(), 8);
    assert_eq!("pässwörd".len(), 10);
    let d = DeviceInfo { serial: "S".into(), name: "N".into(), model: "M".into() };
    assert_eq!(
        choice_line(0, &d, "pässwörd"),
        "  Using device [0]: N (M) [S], passcode 8 chars"
    );
}

#[test]
fn device_lines_are_sanitized() {
    let d = DeviceInfo {
        serial: "L2MPKH342P".into(),
        name: "Wilbur's Mac".into(),
        model: "MacBook Air".into(),
    };
    assert_eq!(device_line(0, &d), "    [0] Wilbur's Mac (MacBook Air) [L2MPKH342P]");
    assert_eq!(
        choice_line(12, &d, "123456"),
        "  Using device [12]: Wilbur's Mac (MacBook Air) [L2MPKH342P], passcode 6 chars"
    );
    let d = DeviceInfo { serial: "S".into(), name: "a\nb".into(), model: String::new() };
    assert_eq!(device_line(3, &d), "    [3] a\u{fffd}b () [S]");
    let copy = clone_devices(&[d]);
    assert_eq!(copy[0].name, "a\nb");
}

#[test]
fn login_error_does_not_blame_the_password_for_an_upstream_failure() {
    // An HTML error page where a property list was promised.
    let html = plist::from_bytes::<plist::Dictionary>(b"<html>Bad Gateway</html>").unwrap_err();
    for e in [
        failed(AuthFailure::PlistError, &html.to_string()),
        failed(AuthFailure::AuthSrp, "AuthSrp"),
        failed(AuthFailure::Parse, "Parse"),
        failed(AuthFailure::HappyBirthdayError, "HappyBirthdayError"),
        failed(AuthFailure::Other, "reqwest"),
    ] {
        let mapped = login_error(&e);
        assert_ne!(mapped.code(), "bad_credentials", "{:?} must not blame the password", e.kind);
        assert_eq!(mapped.code(), "apple_error");
        assert_eq!(mapped.message(), LOGIN_UPSTREAM);
    }

    // Account state: the credentials are right. Apple's own wording carries the action.
    for e in [
        failed(AuthFailure::ExtraStep, "Extra step: repair"),
        failed(AuthFailure::FailedGetting2FAConfig, "no 2FA config"),
        failed(AuthFailure::HardwareKeyError, "hardware key"),
    ] {
        let mapped = login_error(&e);
        assert_ne!(mapped.code(), "bad_credentials", "{:?} must not blame the password", e.kind);
        assert_eq!(mapped.code(), "apple_error");
        assert!(mapped.message().contains(&e.text), "{} drops Apple's advice", mapped.message());
    }
}

#[test]
fn login_error_keeps_apples_own_verdict_on_the_credentials() {
    let rejected = failed(
        AuthFailure::AuthSrpWithMessage,
        "-22406: Enter the correct password for this Apple Account",
    );
    let mapped = login_error(&rejected);
    assert_eq!(mapped.code(), "bad_credentials");
    assert!(mapped.message().contains("-22406"), "{}", mapped.message());
    assert!(mapped.message().contains("Enter the correct password"), "{}", mapped.message());
    assert_eq!(
        mapped.message(),
        "Apple sign-in failed: -22406: Enter the correct password for this Apple Account"
    );

    assert_eq!(login_error(&failed(AuthFailure::Bad2faCode, "bad code")).code(), "bad_credentials");
}

#[test]
fn pipeline_error_codes_and_messages() {
    assert_eq!(PipelineError::BadCredentials("x".into()).code(), "bad_credentials");
    assert_eq!(PipelineError::BadPasscode("x".into()).code(), "bad_passcode");
    // Distinct from bad_passcode on purpose: the passcode already worked.
    assert_eq!(PipelineError::TrustCircleSignature("x".into()).code(), "trust_circle_signature");
    assert_eq!(PipelineError::BadDeviceIndex("x".into()).code(), "bad_device_index");
    assert_eq!(PipelineError::NoBottles.code(), "no_bottles");
    assert_eq!(PipelineError::Apple("x".into()).code(), "apple_error");
    // A local input timeout is not Apple's fault.
    assert_eq!(PipelineError::Aborted.code(), "session_expired");
    // The message is never empty: it becomes the JSON `detail`.
    assert!(!PipelineError::NoBottles.message().is_empty());
    assert!(!PipelineError::Aborted.message().is_empty());
}

#[test]
fn the_message_is_the_text_that_an_error_carries() {
    assert_eq!(PipelineError::EscrowClub("x".into()).code(), "escrow_club");
    assert_eq!(PipelineError::EscrowClub("x".into()).message(), "x");
    assert_eq!(PipelineError::BadCredentials("a".into()).message(), "a");
    assert_eq!(PipelineError::BadPasscode("b".into()).message(), "b");
    assert_eq!(PipelineError::TrustCircleSignature("c".into()).message(), "c");
    assert_eq!(PipelineError::BadDeviceIndex("d".into()).message(), "d");
    assert_eq!(PipelineError::Apple("e".into()).message(), "e");
    assert_eq!(
        PipelineError::NoBottles.message(),
        "No escrow bottles found. Make sure you have another trusted device."
    );
    assert_eq!(PipelineError::Aborted.message(), "The connection attempt was cancelled.");
}

#[test]
fn the_account_identifiers_are_read_from_the_login() {
    let mut d = plist::Dictionary::new();
    d.insert("DsPrsId".into(), plist::Value::Integer(10_203_040_506u64.into()));
    d.insert("adsid".into(), plist::Value::String("000123-05-abc".into()));
    let ids = account_ids(&Some(d)).unwrap();
    assert_eq!(ids.dsid, "10203040506");
    assert_eq!(ids.adsid, "000123-05-abc");
}

#[test]
fn a_login_without_identifiers_is_apples_failure() {
    let why = |spd: Option<plist::Dictionary>| match account_ids(&spd) {
        Err(e) => (e.code(), e.message()),
        Ok(_) => panic!("identifiers out of nothing"),
    };
    assert_eq!(why(None), ("apple_error", "No SPD after login".to_string()));
    let mut d = plist::Dictionary::new();
    assert_eq!(why(Some(d.clone())), ("apple_error", "No DsPrsId in SPD".to_string()));
    // A negative number is not one either.
    d.insert("DsPrsId".into(), plist::Value::Integer((-1i64).into()));
    assert_eq!(why(Some(d.clone())).1, "No DsPrsId in SPD");
    d.insert("DsPrsId".into(), plist::Value::Integer(1u64.into()));
    assert_eq!(why(Some(d)), ("apple_error", "No adsid in SPD".to_string()));
}

#[test]
fn a_failed_signature_check_names_the_signature_and_the_way_out() {
    let none: Option<Checkpoint> = None;
    let e = join_error(&join(true, "Bad message"), &none, 2);
    assert_eq!(e.code(), TRUST_CIRCLE_SIGNATURE);
    assert_eq!(
        e.message(),
        "Joining the keychain trust circle failed a signature check on the escrow bottle's own \
         escrowed-key signature. This is not a wrong passcode — the device passcode already \
         worked. Try connecting with a different trusted device."
    );
    // With one device there is nothing to switch to.
    let e = join_error(&join(true, "Bad message"), &Some(checkpoint(2)), 1);
    assert_eq!(
        e.message(),
        "Joining the keychain trust circle failed a signature check on a TLK share's signature, \
         from the peer that sent it. This is not a wrong passcode — the device passcode already \
         worked. There is no other trusted device on this account to connect with."
    );
    // After a checkpoint with no check behind it, naming one would be a guess.
    assert_eq!(failing_signature(&Some(checkpoint(3))), None);
    let e = join_error(&join(true, "Bad message"), &Some(checkpoint(3)), 2);
    assert!(e.message().contains("an unidentified signature"));
}

#[test]
fn a_failure_past_the_passcode_check_does_not_blame_the_passcode() {
    let none: Option<Checkpoint> = None;
    let e = join_error(&join(false, "CLUBH ERROR: status -6015"), &none, 1);
    assert_eq!(e.code(), "escrow_club");
    assert_eq!(
        e.message(),
        "Apple's escrow service failed after it had accepted the passcode: CLUBH ERROR: status \
         -6015. Nothing you entered was wrong — please start the connection again."
    );
    // The label may stand in the Debug form alone.
    let mut f = join(false, "escrow error");
    f.debug = format!("EscrowError({CLUB_LABEL}, -6015)");
    assert_eq!(join_error(&f, &none, 1).code(), "escrow_club");
}

#[test]
fn any_other_failed_join_may_be_the_passcode() {
    let none: Option<Checkpoint> = None;
    let e = join_error(&join(false, "SRP failed"), &none, 1);
    assert_eq!(e.code(), "bad_passcode");
    assert_eq!(
        e.message(),
        "Joining the keychain trust circle failed (wrong passcode?): SRP failed"
    );
    assert_eq!(MAX_JOIN_ATTEMPTS, 3);
}

#[test]
fn device_indices_are_checked() {
    assert_eq!(check_index(1, 2).unwrap(), 1);
    let e = check_index(5, 1).unwrap_err();
    assert_eq!(e.code(), "bad_device_index");
    assert_eq!(e.message(), "Invalid device index 5. Must be 0-0.");
    assert_eq!(check_index(2, 2).unwrap_err().message(), "Invalid device index 2. Must be 0-1.");
    assert_eq!(check_index(0, 0).unwrap_err().message(), "Invalid device index 0. Must be 0-0.");
}
