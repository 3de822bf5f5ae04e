use std::sync::Mutex;

use export_findmy::export::{
    Action, Bottle, Event, Export, Stage, DEFAULT_ESCROW_HOST,
};
use export_findmy::logging::checkpoint;
use export_findmy::pipeline::{
    AuthError, AuthFailure, DeviceInfo, ExportOpts, Interact, JoinFailure, PipelineError,
    FAKE_SERIAL, TRUST_CIRCLE_SIGNATURE,
};
use export_findmy::records::{
    collect, ChangeHeader, Decoded, MasterRecord, NamingRecord, RecordNames, Triage,
};

fn names() -> RecordNames {
    RecordNames {
        master: "MasterBeaconRecord".into(),
        naming: "BeaconNamingRecord".into(),
        alignment: "KeyAlignmentRecord".into(),
        shared: "SharedBeaconRecord".into(),
    }
}

fn start() -> (Export, Action) {
    let opts = ExportOpts {
        apple_id: "me@icloud.com".into(),
        password: "abc".into(),
        anisette_url: "https://ani".into(),
        debug: false,
        session_id: "cli".into(),
    };
    Export::start(&opts, names())
}

fn spd() -> Option<plist::Dictionary> {
    let mut d = plist::Dictionary::new();
    d.insert("DsPrsId".into(), plist::Value::Integer(42u64.into()));
    d.insert("adsid".into(), plist::Value::String("ads".into()));
    Some(d)
}

fn bottle(serial: &str) -> Bottle {
    let mut d = plist::Dictionary::new();
    d.insert("device_name".into(), plist::Value::String(format!("{serial}-name")));
    Bottle { serial: serial.into(), metadata: plist::Value::Dictionary(d) }
}

/// A run that waits for the bottles.
fn at_bottles() -> Export {
    let (run, _) = start();
    let (run, _) = run.step(Event::LoggedIn { spd: spd() });
    let (run, _) = run.step(Event::Delegates { mobileme: true });
    let (run, _) = run.step(Event::ClientsSetUp { cloudkit: true, host_named: true });
    run
}

/// A run that waits for the choice of one of these devices.
fn at_choice(serials: &[&str]) -> Export {
    let bottles = serials.iter().map(|s| bottle(s)).collect();
    at_bottles().step(Event::BottlesFetched { bottles }).0
}

/// A run that waits for the outcome of a join with this device.
fn at_join(run: Export, index: usize) -> Export {
    let (run, _) = run.step(Event::DeviceChosen { choice: Ok(index) });
    run.step(Event::PasscodeGiven { passcode: Ok("0000".into()) }).0
}

/// A run that waits for the sync.
fn at_sync() -> Export {
    let (run, _) = at_join(at_choice(&["A"]), 0).step(Event::Joined);
    let (run, _) = run.step(Event::ContainerOpened);
    run.step(Event::ZoneKeysFetched).0
}

fn failure(action: Action) -> (&'static str, String) {
    match action {
        Action::Finish { result: Err(e) } => (e.code(), e.message()),
        _ => panic!("the run goes on"),
    }
}

fn apple(text: &str) -> (&'static str, String) {
    ("apple_error", text.to_string())
}

fn signature() -> Event {
    Event::JoinFailed {
        failure: JoinFailure {
            bad_msg: true,
            text: "Bad message".into(),
            debug: "BadMsg".into(),
        },
        reached: Some(checkpoint(0)),
    }
}

#[test]
fn a_run_starts_with_the_digest_of_the_password() {
    let (run, action) = start();
    assert_eq!(run.stage(), Stage::Login);
    match action {
        Action::Login { apple_id, password_hash, anisette_url } => {
            assert_eq!(apple_id, "me@icloud.com");
            assert_eq!(anisette_url, "https://ani");
            let hex: String = password_hash.iter().map(|b| format!("{b:02x}")).collect();
            assert_eq!(hex, "ba7816bf8f01cfea414140de5dae2223b00361a396177a9cb410ff61f20015ad");
        }
        _ => panic!("no login"),
    }
}

#[test]
fn a_full_run_exports_the_accessories() {
    let (run, _) = start();
    let (run, action) = run.step(Event::LoggedIn { spd: spd() });
    assert!(matches!(action, Action::FetchDelegates));
    let (run, action) = run.step(Event::Delegates { mobileme: true });
    match action {
        Action::SetUp { dsid, adsid, fallback_host } => {
            assert_eq!((dsid.as_str(), adsid.as_str()), ("42", "ads"));
            assert_eq!(fallback_host, DEFAULT_ESCROW_HOST);
            assert_eq!(fallback_host, "https://p97-escrowproxy.icloud.com:443");
        }
        _ => panic!("no set-up"),
    }
    let (run, action) = run.step(Event::ClientsSetUp { cloudkit: true, host_named: true });
    assert!(matches!(action, Action::FetchBottles));
    let bottles = vec![bottle("A"), bottle(FAKE_SERIAL), bottle("B")];
    let (run, action) = run.step(Event::BottlesFetched { bottles });
    match action {
        Action::ChooseDevice { devices } => {
            assert_eq!(devices.len(), 2);
            assert_eq!(devices[0].name, "A-name");
            assert_eq!(devices[1].serial, "B");
        }
        _ => panic!("no choice"),
    }
    assert_eq!(run.devices().len(), 2);
    let (run, action) = run.step(Event::DeviceChosen { choice: Ok(1) });
    assert!(matches!(action, Action::AskPasscode { index: 1 }));
    let (run, action) = run.step(Event::PasscodeGiven { passcode: Ok("0000".into()) });
    match action {
        // The third bottle that was fetched is the second that is usable.
        Action::Join { bottle, passcode } => assert_eq!((bottle, passcode.as_str()), (2, "0000")),
        _ => panic!("no join"),
    }
    let (run, action) = run.step(Event::Joined);
    assert!(matches!(action, Action::OpenContainer));
    let (run, action) = run.step(Event::ContainerOpened);
    assert!(matches!(action, Action::FetchZoneKeys));
    let (run, action) = run.step(Event::ZoneKeysFetched);
    assert!(matches!(action, Action::Sync));
    let change = |record_type: &str| ChangeHeader {
        identifier: Some("id".into()),
        has_record: true,
        record_type: Some(record_type.into()),
    };
    let zones = vec![vec![change("MasterBeaconRecord"), change("SharedBeaconRecord")], vec![]];
    let (run, action) = run.step(Event::Synced { zones });
    match action {
        Action::Decode { plan } => assert_eq!(plan, vec![Triage::Master, Triage::Shared]),
        _ => panic!("nothing to decode"),
    }
    let records = collect(vec![
        Decoded::Naming {
            record: NamingRecord {
                associated_beacon: "id".into(),
                name: "Keys".into(),
                emoji: "🔑".into(),
            },
        },
        Decoded::Master {
            id: "id".into(),
            record: MasterRecord {
                stable_identifier: "stable".into(),
                model: "AirTag".into(),
                private_key: vec![1],
                shared_secret: vec![2],
                shared_secret_2: None,
                secure_locations_shared_secret: None,
                public_key: vec![3],
                pairing_date: Some(1_736_625_462_920_991_898),
            },
        },
    ]);
    let (run, action) = run.step(Event::RecordsDecoded { records });
    assert_eq!(run.stage(), Stage::Finished);
    assert_eq!(run.changes().len(), 2);
    match action {
        Action::Finish { result: Ok(beacons) } => {
            assert_eq!(beacons.len(), 1);
            assert_eq!(beacons[0].name, "Keys");
            assert_eq!(beacons[0].identifier, "stable");
            assert_eq!(beacons[0].pairing_date.as_deref(), Some("2025-01-11T19:57:42Z"));
        }
        _ => panic!("not finished"),
    }
    // Whatever comes now changes nothing.
    let (run, action) = run.step(Event::Joined);
    assert!(matches!(action, Action::Ignore));
    assert_eq!(run.stage(), Stage::Finished);
}

#[test]
fn each_stage_has_its_own_failure() {
    let (_, action) = start().0.step(Event::LoginFailed {
        error: AuthError { kind: AuthFailure::Bad2faCode, text: "bad code".into() },
    });
    assert_eq!(failure(action), ("bad_credentials", "Apple sign-in failed: bad code".to_string()));
    let (_, action) = start().0.step(Event::LoggedIn { spd: None });
    assert_eq!(failure(action), apple("No SPD after login"));

    let login = || start().0.step(Event::LoggedIn { spd: spd() }).0;
    let (_, action) = login().step(Event::Delegates { mobileme: false });
    assert_eq!(failure(action), apple("No MobileMe delegate returned"));
    let (_, action) = login().step(Event::DelegatesFailed { text: "x".into() });
    assert_eq!(failure(action), apple("MobileMe delegate failed: x"));
    let (run, _) = login().step(Event::Delegates { mobileme: true });
    let (_, action) = run.step(Event::ClientsSetUp { cloudkit: false, host_named: true });
    assert_eq!(failure(action), apple("Failed to create CloudKitState"));
    let (_, action) = at_bottles().step(Event::BottlesFailed { text: "x".into() });
    assert_eq!(failure(action), apple("Fetching escrow bottles failed: x"));

    let joined = || at_join(at_choice(&["A"]), 0).step(Event::Joined).0;
    let (_, action) = joined().step(Event::ContainerFailed { text: "x".into() });
    assert_eq!(failure(action), apple("CloudKit container init failed: x"));
    let (run, _) = joined().step(Event::ContainerOpened);
    let (_, action) = run.step(Event::ZoneKeysFailed { text: "x".into() });
    assert_eq!(failure(action), apple("Zone encryption config failed: x"));
    let (_, action) = at_sync().step(Event::Synced { zones: vec![] });
    assert_eq!(failure(action), apple("CloudKit returned no BeaconStore zone"));
    let (run, _) = at_sync().step(Event::Synced { zones: vec![vec![]] });
    let (_, action) = run.step(Event::DecodingFailed { at: 0, text: "x".into() });
    assert_eq!(failure(action), apple("PCS keys failed: x"));
}

#[test]
fn without_a_usable_bottle_there_is_nothing_to_choose() {
    for bottles in [vec![], vec![bottle(FAKE_SERIAL), bottle(FAKE_SERIAL)]] {
        let (_, action) = at_bottles().step(Event::BottlesFetched { bottles });
        assert_eq!(failure(action).0, "no_bottles");
    }
}

#[test]
fn a_choice_out_of_range_or_an_abort_ends_the_run() {
    let (_, action) = at_choice(&["A", "B"]).step(Event::DeviceChosen { choice: Ok(2) });
    assert_eq!(
        failure(action),
        ("bad_device_index", "Invalid device index 2. Must be 0-1.".to_string())
    );
    let aborted = || Err(PipelineError::Aborted);
    let (_, action) = at_choice(&["A"]).step(Event::DeviceChosen { choice: aborted() });
    assert_eq!(failure(action).0, "session_expired");
    let (run, _) = at_choice(&["A"]).step(Event::DeviceChosen { choice: Ok(0) });
    let (_, action) = run.step(Event::PasscodeGiven { passcode: Err(PipelineError::Aborted) });
    assert_eq!(failure(action).0, "session_expired");
}

#[test]
fn a_failed_signature_asks_for_another_device_twice() {
    let mut run = at_choice(&["A", "B"]);
    for _ in 0..2 {
        let (told, action) = at_join(run, 0).step(signature());
        match action {
            Action::Report { error, detail } => {
                assert_eq!(error, TRUST_CIRCLE_SIGNATURE);
                assert!(detail.contains("owning peer"), "{detail}");
                assert!(detail.ends_with("Try connecting with a different trusted device."));
            }
            _ => panic!("not told"),
        }
        assert_eq!(told.stage(), Stage::Report);
        let (next, action) = told.step(Event::Reported);
        match action {
            Action::ChooseDevice { devices } => assert_eq!(devices.len(), 2),
            _ => panic!("not asked again"),
        }
        assert_eq!(next.stage(), Stage::Device);
        run = next;
    }
    // The third device is the last.
    let (_, action) = at_join(run, 1).step(signature());
    assert_eq!(failure(action).0, TRUST_CIRCLE_SIGNATURE);
}

#[test]
fn one_device_is_not_asked_for_twice() {
    let (_, action) = at_join(at_choice(&["A"]), 0).step(signature());
    let (code, detail) = failure(action);
    assert_eq!(code, TRUST_CIRCLE_SIGNATURE);
    assert!(detail.ends_with("There is no other trusted device on this account to connect with."));
}

#[test]
fn other_failed_joins_are_not_retried() {
    let fail = |text: &str| Event::JoinFailed {
        failure: JoinFailure { bad_msg: false, text: text.into(), debug: text.into() },
        reached: None,
    };
    let (_, action) = at_join(at_choice(&["A", "B"]), 0).step(fail("SRP"));
    assert_eq!(failure(action).0, "bad_passcode");
    let (_, action) = at_join(at_choice(&["A", "B"]), 0).step(fail("CLUBH ERROR -6015"));
    assert_eq!(failure(action).0, "escrow_club");
}

#[test]
fn a_sync_that_asks_for_a_reset_is_repeated_once() {
    let reset = || Event::SyncFailed { text: "reset".into(), reset: true };
    let (run, action) = at_sync().step(reset());
    assert!(matches!(action, Action::Sync));
    let (_, action) = run.step(reset());
    assert_eq!(failure(action), apple("CloudKit fetch failed: reset"));
    let (_, action) = at_sync().step(Event::SyncFailed { text: "x".into(), reset: false });
    assert_eq!(failure(action), apple("CloudKit fetch failed: x"));
}

#[test]
fn an_event_that_answers_nothing_is_ignored() {
    let (run, action) = start().0.step(Event::Joined);
    assert!(matches!(action, Action::Ignore));
    assert_eq!(run.stage(), Stage::Login);
    let (run, action) = at_sync().step(Event::DeviceChosen { choice: Ok(0) });
    assert!(matches!(action, Action::Ignore));
    assert_eq!(run.stage(), Stage::Sync);
}

struct Scripted {
    choice: usize,
    seen: Mutex<Vec<String>>,
}

impl Interact for Scripted {
    fn get_2fa_code(&self) -> String {
        "123456".into()
    }

    fn choose_bottle(&self, devices: &[DeviceInfo]) -> Result<usize, PipelineError> {
        let mut seen = self.seen.lock().unwrap();
        seen.extend(devices.iter().map(|d| d.serial.clone()));
        Ok(self.choice)
    }

    fn get_passcode(&self) -> Result<String, PipelineError> {
        Ok("0000".into())
    }

    fn join_retryable(&self, error: &'static str, detail: &str) {
        self.seen.lock().unwrap().push(format!("{error}: {detail}"));
    }
}

#[test]
fn the_user_is_asked_through_the_interaction() {
    let io = Scripted { choice: 1, seen: Mutex::new(vec![]) };
    let asked: &dyn Interact = &io;
    let run = at_choice(&["A", FAKE_SERIAL, "B"]);
    let event = run.choose_device(asked).expect("waits for a device");
    assert_eq!(*io.seen.lock().unwrap(), vec!["A".to_string(), "B".to_string()]);
    let (run, action) = run.step(event);
    assert!(matches!(action, Action::AskPasscode { index: 1 }));
    let event = run.ask_passcode(asked).expect("waits for a passcode");
    match run.step(event).1 {
        Action::Join { bottle, passcode } => assert_eq!((bottle, passcode.as_str()), (2, "0000")),
        _ => panic!("no join"),
    }

    let io = Scripted { choice: 9, seen: Mutex::new(vec![]) };
    let run = at_choice(&["A"]);
    let event = run.choose_device(&io).expect("waits for a device");
    assert_eq!(failure(run.step(event).1).0, "bad_device_index");
}

#[test]
fn the_reason_is_told_before_the_second_question() {
    let io = Scripted { choice: 0, seen: Mutex::new(vec![]) };
    let (run, action) = at_join(at_choice(&["A", "B"]), 0).step(signature());
    let told = match action {
        Action::Report { error, detail } => format!("{error}: {detail}"),
        _ => panic!("not told"),
    };
    // No device is asked for before the user has been told.
    assert!(run.choose_device(&io).is_none());
    let (run, action) = run.step(Event::DeviceChosen { choice: Ok(1) });
    assert!(matches!(action, Action::Ignore));
    let event = run.report_failure(&io).expect("waits for the report");
    assert_eq!(*io.seen.lock().unwrap(), vec![told.clone()]);

    let (run, action) = run.step(event);
    assert!(matches!(action, Action::ChooseDevice { .. }));
    // They are told once.
    assert!(run.report_failure(&io).is_none());
    let event = run.choose_device(&io).expect("waits for a device");
    let seen = io.seen.lock().unwrap().clone();
    assert_eq!(seen, vec![told, "A".to_string(), "B".to_string()]);
    assert!(matches!(run.step(event).1, Action::AskPasscode { index: 0 }));
}

#[test]
fn nobody_is_asked_at_another_stage() {
    let io = Scripted { choice: 0, seen: Mutex::new(vec![]) };
    let run = at_bottles();
    assert!(run.choose_device(&io).is_none());
    assert!(run.report_failure(&io).is_none());
    assert!(run.ask_passcode(&io).is_none());
    assert!(at_choice(&["A"]).ask_passcode(&io).is_none());
    assert!(io.seen.lock().unwrap().is_empty());
}
