use export_findmy::ids::{session_id_text, tag};
use export_findmy::pipeline::{BeaconExport, DeviceInfo, PipelineError, TRUST_CIRCLE_SIGNATURE};
use export_findmy::server::{
    attempt_at, beacon_json, bind_host, code_message, device_json, encodable, error_response,
    escrow_message, escrow_outcome, final_step, has_left_2fa, has_settled, has_started, healthz,
    join_failure, rejection_message, server_line, session_opts, start_outcome, status_for,
    step_fits, step_name, tfa_outcome, why_no_input, wrong_step, Fate, NoInput, ServerInteract,
    Step, EXPORT_TIMEOUT, INPUT_TIMEOUT, REAP_PERIOD, SESSION_TTL, START_TIMEOUT,
};
use uuid::Uuid;

fn test_device(serial: &str) -> DeviceInfo {
    DeviceInfo { serial: serial.into(), name: format!("{serial}-name"), model: "TestModel".into() }
}

fn sample_beacon() -> BeaconExport {
    BeaconExport {
        identifier: "2006~#abc".into(),
        name: "Keys".into(),
        emoji: "🔑".into(),
        model: "AirTag".into(),
        private_key: vec![1u8; 4],
        shared_secret: vec![2u8; 4],
        secondary_shared_secret: None,
        secure_locations_shared_secret: Some(vec![3u8; 4]),
        public_key: None,
        pairing_date: Some("2026-01-11T19:57:42Z".into()),
    }
}

fn retry(attempt: usize) -> Step {
    Step::AwaitingRetry {
        devices: vec![test_device("A"), test_device("B")],
        error: TRUST_CIRCLE_SIGNATURE,
        detail: "try another".into(),
        attempt,
    }
}

#[test]
fn log_tag_is_a_prefix_of_the_session_id_the_caller_gets() {
    let id = Uuid::new_v4();
    let t = tag(id.as_u128());
    assert_eq!(t.len(), 8);
    assert!(id.to_string().starts_with(&t), "{} should start with {}", id, t);
    assert_eq!(session_id_text(id.as_u128()), id.to_string());
}

#[test]
fn why_no_input_separates_a_slow_user_from_a_torn_down_session() {
    assert!(why_no_input(NoInput::Timeout).contains("600s"));
    assert!(why_no_input(NoInput::Disconnected).contains("torn down"));
}

#[test]
fn why_no_input_is_exact() {
    assert_eq!(why_no_input(NoInput::Timeout), "nothing submitted within 600s");
    assert_eq!(why_no_input(NoInput::Disconnected), "the session was torn down while waiting");
}

#[test]
fn step_name_uses_the_state_names_the_api_reports() {
    assert_eq!(step_name(&Step::Starting), "starting");
    assert_eq!(step_name(&Step::AwaitingTfa), "awaiting_2fa");
    assert_eq!(step_name(&Step::AwaitingEscrow { devices: vec![] }), "awaiting_passcode");
    assert_eq!(step_name(&Step::Running), "running");
    assert_eq!(step_name(&Step::Done { beacons: vec![] }), "done");
    assert_eq!(
        step_name(&Step::Failed { error: "apple_error", detail: String::new() }),
        "failed"
    );
    assert_eq!(step_name(&retry(2)), "awaiting_passcode");
}

#[test]
fn join_failure_keeps_the_panic_message() {
    let msg = join_failure(false, "task 12 panicked with message \"unexpected CloudKit record\"");
    assert!(msg.starts_with("panicked"), "{msg}");
    assert!(msg.contains("unexpected CloudKit record"), "{msg}");
    assert!(join_failure(true, "task 13 was cancelled").starts_with("cancelled"));
    assert_eq!(join_failure(true, "x"), "cancelled (x)");
    assert_eq!(join_failure(false, "x"), "panicked (x)");
}

#[test]
fn healthz_ok() {
    let reply = healthz();
    assert_eq!(reply.status, 200);
    assert_eq!(reply.body.len(), 1);
    assert_eq!(reply.body["status"], "ok");
}

#[test]
fn start_outcome_maps_each_first_step() {
    let id = Uuid::new_v4().as_u128();

    // Normal: 2FA required.
    let (keep, status, body) = start_outcome(id, Some(Step::AwaitingTfa));
    assert!(keep && status == 201);
    assert_eq!(body["state"], "awaiting_2fa");
    assert!(body.get("devices").is_none());

    // 2FA skipped: device list returned directly so the client skips /2fa.
    let devices = vec![test_device("GYK3003QMY")];
    let (keep, status, body) = start_outcome(id, Some(Step::AwaitingEscrow { devices }));
    assert!(keep && status == 201);
    assert_eq!(body["state"], "awaiting_passcode");
    assert_eq!(body["devices"][0]["serial"], "GYK3003QMY");
    assert_eq!(body["devices"][0]["name"], "GYK3003QMY-name");

    // Bad credentials: don't keep the session, surface the error.
    let (keep, status, body) = start_outcome(
        id,
        Some(Step::Failed { error: "bad_credentials", detail: "nope".into() }),
    );
    assert!(!keep && status == 401);
    assert_eq!(body["error"], "bad_credentials");
}

#[test]
fn start_outcome_hands_out_the_session_id_only_where_the_session_is_kept() {
    let id = Uuid::new_v4();
    let (_, _, body) = start_outcome(id.as_u128(), Some(Step::AwaitingTfa));
    assert_eq!(body["session_id"], id.to_string());
    assert_eq!(body.len(), 2);
    for step in [None, Some(Step::Running), Some(Step::Starting), Some(retry(2))] {
        let (keep, status, body) = start_outcome(id.as_u128(), step);
        assert!(!keep);
        assert_eq!(status, 502);
        assert_eq!(body["error"], "apple_error");
        assert_eq!(body["detail"], "Timed out contacting Apple.");
        assert!(body.get("session_id").is_none());
    }
}

#[test]
fn a_2fa_code_leads_to_the_devices_or_to_the_end() {
    let devices = vec![test_device("GYK3003QMY"), test_device("J9NQHW229W")];
    let o = tfa_outcome(Some(Step::AwaitingEscrow { devices }));
    assert_eq!(o.fate, Fate::Keep);
    assert_eq!(o.reply.status, 200);
    assert_eq!(o.reply.body["state"], "awaiting_passcode");
    assert_eq!(o.reply.body["devices"][1]["serial"], "J9NQHW229W");
    assert_eq!(o.reply.body["devices"][1]["model"], "TestModel");

    let o = tfa_outcome(Some(Step::Failed { error: "no_bottles", detail: "none".into() }));
    assert_eq!((o.fate, o.reply.status), (Fate::Retire, 400));
    assert_eq!(o.reply.body["detail"], "none");

    for step in [None, Some(Step::Running)] {
        let o = tfa_outcome(step);
        assert_eq!((o.fate, o.reply.status), (Fate::Abort, 502));
        assert_eq!(o.reply.body["detail"], "Timed out waiting for Apple.");
    }
}

#[test]
fn an_escrow_post_ends_with_the_beacons() {
    let o = escrow_outcome(Some(Step::Done { beacons: vec![sample_beacon()] }));
    assert_eq!((o.fate, o.reply.status), (Fate::Remove, 200));
    assert_eq!(o.reply.body["state"], "done");
    assert_eq!(o.reply.body["beacons"][0]["identifier"], "2006~#abc");
    assert_eq!(o.reply.body["beacons"][0]["private_key"], "AQEBAQ==");

    let o = escrow_outcome(Some(Step::Failed { error: "bad_passcode", detail: "no".into() }));
    assert_eq!((o.fate, o.reply.status), (Fate::Retire, 400));
    for step in [None, Some(Step::Running), Some(Step::AwaitingTfa)] {
        let o = escrow_outcome(step);
        assert_eq!((o.fate, o.reply.status), (Fate::Abort, 502));
        assert_eq!(o.reply.body["error"], "apple_error");
    }
}

#[test]
fn a_retryable_failure_keeps_the_session_live() {
    let o = escrow_outcome(Some(retry(2)));
    assert_eq!((o.fate, o.reply.status), (Fate::Keep, 409));
    assert_eq!(o.reply.body["error"], "trust_circle_signature");
    assert_eq!(o.reply.body["detail"], "try another");
    assert_eq!(o.reply.body["retryable"], true);
    assert_eq!(o.reply.body["state"], "awaiting_passcode");
    assert_eq!(o.reply.body["devices"][1]["serial"], "B");

    // The last failure comes without it, and ends the session.
    let o = escrow_outcome(Some(Step::Failed {
        error: TRUST_CIRCLE_SIGNATURE,
        detail: "no more".into(),
    }));
    assert_eq!((o.fate, o.reply.status), (Fate::Retire, 409));
    assert!(o.reply.body.get("retryable").is_none());
}

#[test]
fn beacons_carry_their_keys_in_base64() {
    let b = beacon_json(&sample_beacon());
    assert_eq!(b.len(), 10);
    assert_eq!(b["identifier"], "2006~#abc");
    assert_eq!(b["name"], "Keys");
    assert_eq!(b["emoji"], "🔑");
    assert_eq!(b["model"], "AirTag");
    assert_eq!(b["private_key"], "AQEBAQ==");
    assert_eq!(b["shared_secret"], "AgICAg==");
    assert!(b["secondary_shared_secret"].is_null());
    assert_eq!(b["secure_locations_shared_secret"], "AwMDAw==");
    assert!(b["public_key"].is_null());
    assert_eq!(b["pairing_date"], "2026-01-11T19:57:42Z");

    let mut other = sample_beacon();
    other.pairing_date = None;
    other.public_key = Some(vec![0xff, 0xee]);
    other.secondary_shared_secret = Some(vec![]);
    other.private_key = vec![0, 0x10, 0x83];
    let b = beacon_json(&other);
    assert!(b["pairing_date"].is_null());
    assert_eq!(b["public_key"], "/+4=");
    assert_eq!(b["secondary_shared_secret"], "");
    assert_eq!(b["private_key"], "ABCD");
    assert!(encodable(&other));
    assert!(step_fits(&Step::Done { beacons: vec![other] }) && step_fits(&Step::Running));
}

#[test]
fn devices_carry_serial_name_and_model() {
    let d = device_json(&test_device("GYK3003QMY"));
    assert_eq!(d.len(), 3);
    assert_eq!(d["serial"], "GYK3003QMY");
    assert_eq!(d["name"], "GYK3003QMY-name");
    assert_eq!(d["model"], "TestModel");
}

#[test]
fn statuses_follow_the_error_codes() {
    let cases = [
        ("bad_credentials", 401),
        ("bad_passcode", 400),
        ("bad_device_index", 400),
        ("no_bottles", 400),
        ("session_not_found", 404),
        ("session_expired", 410),
        ("trust_circle_signature", 409),
        ("escrow_club", 502),
        ("apple_error", 502),
        ("anything", 502),
        ("", 502),
    ];
    for (code, status) in cases {
        assert_eq!(status_for(code), status, "{code}");
        let reply = error_response(code, "why".to_string());
        assert_eq!(reply.status, status);
        assert_eq!(reply.body["error"], code);
        assert_eq!(reply.body["detail"], "why");
        assert_eq!(reply.body.len(), 2);
    }
    let reply = wrong_step();
    assert_eq!(reply.status, 409);
    assert_eq!(reply.body["error"], "wrong_step");
    assert_eq!(
        reply.body["detail"],
        "This connection isn't ready for that step — start over."
    );
}

#[test]
fn waits_end_where_the_session_has_moved_on() {
    assert!(!has_started(&Step::Starting));
    assert!(has_started(&Step::AwaitingTfa) && has_started(&Step::Running));
    assert!(!has_left_2fa(&Step::AwaitingTfa) && has_left_2fa(&Step::Running));

    assert_eq!(attempt_at(&Step::AwaitingEscrow { devices: vec![] }), 1);
    assert_eq!(attempt_at(&retry(3)), 3);
    // A post is settled by the next request for a device, not by the one that it answers.
    assert!(!has_settled(&Step::AwaitingEscrow { devices: vec![] }, 1));
    assert!(!has_settled(&Step::Running, 1));
    assert!(has_settled(&retry(2), 1));
    assert!(!has_settled(&retry(2), 2));
    assert!(has_settled(&Step::Done { beacons: vec![] }, 2));
    assert!(has_settled(&Step::Failed { error: "apple_error", detail: String::new() }, 2));
}

#[test]
fn a_pipeline_leaves_its_last_step() {
    match final_step(Some(Ok(vec![sample_beacon()]))) {
        Step::Done { beacons } => assert_eq!(beacons.len(), 1),
        _ => panic!("not done"),
    }
    match final_step(Some(Err(PipelineError::Aborted))) {
        Step::Failed { error, detail } => {
            assert_eq!(error, "session_expired");
            assert_eq!(detail, "The connection attempt was cancelled.");
        }
        _ => panic!("not failed"),
    }
    match final_step(None) {
        Step::Failed { error, detail } => {
            assert_eq!(error, "apple_error");
            assert_eq!(detail, "The export failed unexpectedly.");
        }
        _ => panic!("not failed"),
    }
}

#[test]
fn full_scripted_session_reaches_done() {
    let devices = [test_device("GYK3003QMY"), test_device("J9NQHW229W")];
    assert_eq!(ServerInteract::get_2fa_code(Ok("123456".into())), "123456");
    let mut io = ServerInteract::new();
    match io.request(&devices) {
        Step::AwaitingEscrow { devices } => assert_eq!(devices.len(), 2),
        _ => panic!("not at escrow"),
    }
    let (step, idx) = io.choose_bottle(Ok((1, "0000".into())), devices.len());
    assert!(matches!(step, Some(Step::Running)));
    assert_eq!(idx.unwrap(), 1);
    assert_eq!(io.get_passcode().unwrap(), "0000");
    match final_step(Some(Ok(vec![sample_beacon()]))) {
        Step::Done { beacons } => {
            assert_eq!(beacons.len(), 1);
            assert_eq!(beacon_json(&beacons[0])["identifier"], "2006~#abc");
            assert_eq!(beacons[0].secondary_shared_secret, None);
        }
        _ => panic!("not done"),
    }
}

#[test]
fn bad_device_index_fails_the_session() {
    let mut io = ServerInteract::new();
    let (step, idx) = io.choose_bottle(Ok((5, "0000".into())), 1);
    assert!(step.is_none());
    match final_step(Some(Err(idx.unwrap_err()))) {
        Step::Failed { error, .. } => assert_eq!(error, "bad_device_index"),
        _ => panic!("not failed"),
    }
    // The passcode that came with it is not kept.
    assert_eq!(io.get_passcode().unwrap_err().code(), "session_expired");
}

#[test]
fn an_input_that_never_came_aborts_the_attempt() {
    assert_eq!(ServerInteract::get_2fa_code(Err(NoInput::Timeout)), "");
    let mut io = ServerInteract::new();
    for why in [NoInput::Timeout, NoInput::Disconnected] {
        let (step, idx) = io.choose_bottle(Err(why), 2);
        assert!(step.is_none());
        assert_eq!(idx.unwrap_err().code(), "session_expired");
    }
}

#[test]
fn a_passcode_is_handed_out_once() {
    let mut io = ServerInteract::new();
    assert!(io.get_passcode().is_err());
    assert!(io.choose_bottle(Ok((0, "first".into())), 1).1.is_ok());
    assert!(io.choose_bottle(Ok((0, "second".into())), 1).1.is_ok());
    assert_eq!(io.get_passcode().unwrap(), "second");
    assert!(io.get_passcode().is_err());
}

#[test]
fn a_retry_is_requested_with_the_reason() {
    let devices = [test_device("A"), test_device("B")];
    let mut io = ServerInteract::new();
    assert_eq!(attempt_at(&io.request(&devices)), 1);
    assert!(io.choose_bottle(Ok((0, "p".into())), 2).1.is_ok());
    io.join_retryable(TRUST_CIRCLE_SIGNATURE, "try another");
    match io.request(&devices) {
        Step::AwaitingRetry { devices, error, detail, attempt } => {
            assert_eq!(devices[1].serial, "B");
            assert_eq!((error, detail.as_str(), attempt), (TRUST_CIRCLE_SIGNATURE, "try another", 2));
        }
        _ => panic!("not a retry"),
    }
    assert!(io.choose_bottle(Ok((1, "q".into())), 2).1.is_ok());
    io.join_retryable(TRUST_CIRCLE_SIGNATURE, "again");
    assert_eq!(attempt_at(&io.request(&devices)), 3);
}

#[test]
fn create_session_stamps_the_tag_the_caller_can_grep_for() {
    let id = Uuid::new_v4().as_u128();
    let opts = session_opts(id, "me".into(), "pw".into(), "https://example");
    let (_, _, body) = start_outcome(id, Some(Step::AwaitingTfa));
    let session_id = body["session_id"].as_str().expect("session_id returned");
    assert_eq!(opts.session_id.len(), 8);
    assert!(session_id.starts_with(&opts.session_id));
    assert_eq!(opts.apple_id, "me");
    assert_eq!(opts.password, "pw");
    assert_eq!(opts.anisette_url, "https://example");
    assert!(!opts.debug);
}

#[test]
fn submissions_are_logged_by_their_length() {
    let step = Step::AwaitingEscrow { devices: vec![] };
    let id = 0x3f2a1b8c_0000_4000_8000_000000000000;
    assert_eq!(
        server_line(id, &escrow_message(0, "correct horse!", &step)),
        "[sess=3f2a1b8c] POST /escrow: device_index=0 passcode 14 chars, session at awaiting_passcode"
    );
    assert_eq!(
        code_message("123456", &Step::AwaitingTfa),
        "POST /2fa: code 6 chars, session at awaiting_2fa"
    );
    assert_eq!(code_message("", &Step::Running), "POST /2fa: code 0 chars, session at running");
    assert_eq!(
        rejection_message("/2fa", &step, "awaiting_2fa"),
        "POST /2fa rejected: session is at awaiting_passcode, not awaiting_2fa"
    );
}

#[test]
fn limits_and_defaults_are_as_documented() {
    assert_eq!((INPUT_TIMEOUT, SESSION_TTL, START_TIMEOUT, EXPORT_TIMEOUT), (600, 600, 180, 900));
    assert_eq!(REAP_PERIOD, 60);
    assert_eq!(bind_host(None), "127.0.0.1");
    assert_eq!(bind_host(Some("::".into())), "::");
}

#[test]
fn different_keys_have_different_texts() {
    let text = |key: Vec<u8>| {
        let mut b = sample_beacon();
        b.private_key = key;
        beacon_json(&b)["private_key"].clone()
    };
    // Trailing zeros and padding tell lengths apart.
    let keys = [vec![], vec![0], vec![0, 0], vec![0, 0, 0], vec![0, 0, 0, 0], vec![1], vec![0, 1]];
    for (i, a) in keys.iter().enumerate() {
        for b in &keys[..i] {
            assert_ne!(text(a.clone()), text(b.clone()));
        }
    }
    assert_eq!(text(vec![0, 0]), "AAA=");
}
