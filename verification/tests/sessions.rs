use export_findmy::pipeline::{BeaconExport, DeviceInfo, PipelineError, TRUST_CIRCLE_SIGNATURE};
use export_findmy::server::{final_step, step_name, Step};
use export_findmy::sessions::{is_reapable, Session, Sessions};

const SECOND: u128 = 1_000_000_000;

fn devices() -> Vec<DeviceInfo> {
    let device = |serial: &str| DeviceInfo {
        serial: serial.into(),
        name: format!("{serial}-name"),
        model: "TestModel".into(),
    };
    vec![device("GYK3003QMY"), device("J9NQHW229W")]
}

fn beacon() -> BeaconExport {
    BeaconExport {
        identifier: "2006~#abc".into(),
        name: "Keys".into(),
        emoji: "🔑".into(),
        model: "AirTag".into(),
        private_key: vec![1u8; 4],
        shared_secret: vec![2u8; 4],
        secondary_shared_secret: None,
        secure_locations_shared_secret: Some(vec![3u8; 4]),
        public_key: None,
        pairing_date: Some("2026-01-11T19:57:42Z".into()),
    }
}

fn retry(attempt: usize) -> Step {
    Step::AwaitingRetry {
        devices: devices(),
        error: TRUST_CIRCLE_SIGNATURE,
        detail: "try another".into(),
        attempt,
    }
}

#[test]
fn unknown_session_is_not_found() {
    let mut s = Sessions::new();
    let reply = s.admit_2fa(7, 0).unwrap_err();
    assert_eq!(reply.status, 404);
    assert_eq!(reply.body["error"], "session_not_found");
    assert_eq!(reply.body["detail"], "Unknown connection attempt.");
}

#[test]
fn new_identifiers_are_version_four() {
    let mut s = Sessions::new();
    let id = uuid::Uuid::from_u128(s.create(5));
    assert_eq!(id.get_version_num(), 4);
    assert_eq!(id.get_variant(), uuid::Variant::RFC4122);
    assert_ne!(s.create(5), id.as_u128());
    assert_eq!(s.len(), 2);
    assert_eq!(s.step(id.as_u128()).map(step_name), Some("starting"));
}

#[test]
fn skip_2fa_goes_straight_to_escrow() {
    let mut s = Sessions::new();
    let id = s.create(0);
    s.publish(id, Step::AwaitingEscrow { devices: devices() });
    let (stop, reply) = s.finish_start(id, Some(Step::AwaitingEscrow { devices: devices() }));
    assert!(!stop);
    assert_eq!(reply.status, 201);
    assert_eq!(s.admit_escrow(id, 1).unwrap(), 1);
}

#[test]
fn http_full_flow_start_2fa_escrow() {
    let mut s = Sessions::new();
    let id = s.create(0);
    s.publish(id, Step::AwaitingTfa);
    let (stop, reply) = s.finish_start(id, Some(Step::AwaitingTfa));
    assert!(!stop);
    assert_eq!(reply.status, 201);
    assert_eq!(reply.body["state"], "awaiting_2fa");

    assert!(s.admit_2fa(id, 1).is_ok());
    s.publish(id, Step::AwaitingEscrow { devices: devices() });
    let (stop, reply) = s.finish_2fa(id, Some(Step::AwaitingEscrow { devices: devices() }));
    assert!(!stop);
    assert_eq!(reply.status, 200);
    assert_eq!(reply.body["state"], "awaiting_passcode");
    assert_eq!(reply.body["devices"][0]["serial"], "GYK3003QMY");
    assert_eq!(reply.body["devices"][1]["serial"], "J9NQHW229W");

    assert!(s.admit_escrow(id, 2).is_ok());
    s.publish(id, Step::Done { beacons: vec![beacon()] });
    let (stop, reply) = s.finish_escrow(id, Some(Step::Done { beacons: vec![beacon()] }));
    assert!(!stop);
    assert_eq!(reply.status, 200);
    assert_eq!(reply.body["state"], "done");
    assert_eq!(reply.body["beacons"][0]["identifier"], "2006~#abc");
    assert_eq!(reply.body["beacons"][0]["private_key"], "AQEBAQ=="); // base64([1;4])

    // The session is gone after Done.
    assert_eq!(s.admit_2fa(id, 3).unwrap_err().status, 404);
}

#[test]
fn http_skip_2fa_returns_devices_from_post_sessions() {
    let mut s = Sessions::new();
    let id = s.create(0);
    s.publish(id, Step::AwaitingEscrow { devices: devices() });
    let (_, reply) = s.finish_start(id, Some(Step::AwaitingEscrow { devices: devices() }));
    assert_eq!(reply.status, 201);
    assert_eq!(reply.body["state"], "awaiting_passcode");
    assert_eq!(reply.body["devices"][0]["serial"], "GYK3003QMY");

    assert!(s.admit_escrow(id, 1).is_ok());
    let (_, reply) = s.finish_escrow(id, Some(Step::Done { beacons: vec![beacon()] }));
    assert_eq!(reply.status, 200);
    assert_eq!(reply.body["state"], "done");
}

#[test]
fn http_bad_credentials_returns_401_and_retires_session() {
    let mut s = Sessions::new();
    let id = s.create(0);
    let step = final_step(Some(Err(PipelineError::BadCredentials("nope".into()))));
    let (stop, reply) = s.finish_start(id, Some(step));
    assert!(stop);
    assert_eq!(reply.status, 401);
    assert_eq!(reply.body["error"], "bad_credentials");
    assert!(reply.body.get("session_id").is_none());
    assert_eq!(s.len(), 0);
}

#[test]
fn http_escrow_before_2fa_is_rejected_wrong_step() {
    let mut s = Sessions::new();
    let id = s.create(0);
    s.publish(id, Step::AwaitingTfa);
    let reply = s.admit_escrow(id, 1).unwrap_err();
    assert_eq!(reply.status, 409);
    assert_eq!(reply.body["error"], "wrong_step");
    // The proper /2fa still works afterwards.
    assert!(s.admit_2fa(id, 2).is_ok());
    s.publish(id, Step::AwaitingEscrow { devices: devices() });
    let (stop, reply) = s.finish_2fa(id, Some(Step::AwaitingEscrow { devices: devices() }));
    assert!(!stop);
    assert_eq!(reply.status, 200);
    assert_eq!(reply.body["state"], "awaiting_passcode");
}

#[test]
fn a_2fa_code_at_another_step_is_rejected_too() {
    let mut s = Sessions::new();
    let id = s.create(0);
    for step in [
        Step::Starting,
        Step::AwaitingEscrow { devices: devices() },
        retry(2),
        Step::Running,
        Step::Done { beacons: vec![] },
    ] {
        s.publish(id, step);
        assert_eq!(s.admit_2fa(id, 1).unwrap_err().status, 409);
    }
    assert_eq!(s.step(id).map(step_name), Some("done"));
}

#[test]
fn http_unknown_session_404_and_expired_410() {
    let mut s = Sessions::new();
    assert_eq!(s.admit_escrow(99, 0).unwrap_err().status, 404);

    let id = s.create(0);
    let step = final_step(Some(Err(PipelineError::BadCredentials("nope".into()))));
    s.finish_start(id, Some(step));
    let reply = s.admit_2fa(id, 1).unwrap_err();
    assert_eq!(reply.status, 410);
    assert_eq!(reply.body["error"], "session_expired");
    assert_eq!(reply.body["detail"], "This connection attempt expired.");
}

#[test]
fn a_retry_posts_to_the_same_session() {
    let mut s = Sessions::new();
    let id = s.create(0);
    s.publish(id, Step::AwaitingEscrow { devices: devices() });
    assert_eq!(s.admit_escrow(id, 1).unwrap(), 1);
    s.publish(id, retry(2));
    let (stop, reply) = s.finish_escrow(id, Some(retry(2)));
    assert!(!stop);
    assert_eq!(reply.status, 409);
    assert_eq!(reply.body["retryable"], true);
    assert_eq!(s.admit_escrow(id, 2).unwrap(), 2);

    let end = || Some(Step::Failed { error: TRUST_CIRCLE_SIGNATURE, detail: "spent".into() });
    let (stop, reply) = s.finish_escrow(id, end());
    assert!(!stop);
    assert_eq!(reply.status, 409);
    assert!(reply.body.get("retryable").is_none());
    assert_eq!(s.admit_escrow(id, 3).unwrap_err().status, 410);
}

#[test]
fn a_wait_that_runs_out_stops_the_pipeline() {
    let mut s = Sessions::new();
    let (a, b, c) = (s.create(0), s.create(0), s.create(0));
    assert!(s.finish_start(a, None).0);
    assert!(s.finish_2fa(b, None).0);
    assert!(s.finish_escrow(c, None).0);
    for id in [a, b, c] {
        assert_eq!(s.touch(id, 1).unwrap_err().status, 410);
    }
}

#[test]
fn only_idle_sessions_are_reapable() {
    let at = |step: Step, last_touch: u128| Session { step, last_touch };
    assert!(!is_reapable(&at(Step::AwaitingTfa, 0), 600 * SECOND));
    assert!(is_reapable(&at(Step::AwaitingTfa, 0), 600 * SECOND + 1));
    assert!(!is_reapable(&at(Step::Running, 0), 6000 * SECOND));
    assert!(is_reapable(&at(Step::Done { beacons: vec![] }, SECOND), 700 * SECOND));
    // A clock that reads earlier than the last touch is no reason to reap.
    assert!(!is_reapable(&at(Step::Starting, 5), 0));
}

#[test]
fn reaping_lets_go_of_the_idle_ones_alone() {
    let mut s = Sessions::new();
    let idle = s.create(0);
    let busy = s.create(0);
    let fresh = s.create(0);
    s.publish(idle, Step::AwaitingTfa);
    s.publish(busy, Step::Running);
    assert!(s.touch(fresh, 300 * SECOND).is_ok());

    let reaped = s.reap(700 * SECOND);
    assert_eq!(reaped.len(), 1);
    assert_eq!(reaped[0].id, idle);
    assert_eq!(reaped[0].idle, 700 * SECOND);
    assert_eq!(reaped[0].step, "awaiting_2fa");
    assert_eq!(s.len(), 2);
    assert_eq!(s.touch(idle, 701 * SECOND).unwrap_err().status, 410);
    assert!(s.touch(busy, 701 * SECOND).is_ok() && s.touch(fresh, 701 * SECOND).is_ok());
    assert!(s.reap(702 * SECOND).is_empty());
}

#[test]
fn a_session_that_is_gone_stays_gone() {
    let mut s = Sessions::new();
    let id = s.create(0);
    s.remove(id);
    s.publish(id, Step::Running);
    assert!(s.step(id).is_none());
    assert_eq!(s.len(), 0);
    s.insert(id, 1);
    s.retire(id);
    assert_eq!(s.touch(id, 2).unwrap_err().status, 410);
}

#[test]
fn one_session_does_not_touch_another() {
    let mut s = Sessions::new();
    let (a, b) = (s.create(0), s.create(0));
    s.publish(a, Step::AwaitingTfa);
    s.publish(b, Step::Running);
    assert_eq!(s.step(a).map(step_name), Some("awaiting_2fa"));
    assert!(s.admit_escrow(b, 9).is_err());
    s.retire(b);
    assert_eq!(s.step(a).map(step_name), Some("awaiting_2fa"));
    assert!(s.admit_2fa(a, 10).is_ok());
}
