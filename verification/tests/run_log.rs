use export_findmy::export::{Bottle, Event, Export};
use export_findmy::logging::{checkpoint, Checkpoint};
use export_findmy::pipeline::{
    AuthError, AuthFailure, ExportOpts, JoinFailure, PipelineError, FAKE_SERIAL,
};
use export_findmy::records::{
    collect, ChangeHeader, Decoded, MasterRecord, NamingRecord, RecordNames,
};
use export_findmy::run_log::{lines_on, opening_lines, Noted};

fn opts(password: &str, debug: bool) -> ExportOpts {
    ExportOpts {
        apple_id: "me@x".into(),
        password: password.into(),
        anisette_url: "https://ani.sidestore.io".into(),
        debug,
        session_id: "cli".into(),
    }
}

fn noted() -> Noted {
    Noted { elapsed: "4.2".into(), spent: "1.1".into(), debug: "Variant".into() }
}

/// A run that writes its log.
struct Logged {
    opts: ExportOpts,
    run: Option<Export>,
    lines: Vec<String>,
}

impl Logged {
    fn start(password: &str, debug: bool) -> Logged {
        let opts = opts(password, debug);
        let names = RecordNames {
            master: "M".into(),
            naming: "N".into(),
            alignment: "A".into(),
            shared: "S".into(),
        };
        let (run, _) = Export::start(&opts, names);
        let lines = opening_lines(&opts);
        Logged { opts, run: Some(run), lines }
    }

    /// The messages on an event, without the account and the tag.
    fn on(&mut self, event: Event) -> Vec<String> {
        let run = self.run.take().unwrap();
        let lines = lines_on(&self.opts, &run, &event, &noted());
        self.run = Some(run.step(event).0);
        self.lines.extend(lines.iter().cloned());
        let start = "[me@x] [sess=cli] ";
        lines.iter().map(|l| l.strip_prefix(start).expect("prefixed").to_string()).collect()
    }

    fn to_bottles(debug: bool) -> Logged {
        let mut log = Logged::start("pw", debug);
        log.on(Event::LoggedIn { spd: spd() });
        log.on(Event::Delegates { mobileme: true });
        log.on(Event::ClientsSetUp { cloudkit: true, host_named: true });
        log
    }

    fn to_choice(serials: &[&str]) -> Logged {
        let mut log = Logged::to_bottles(false);
        log.on(Event::BottlesFetched { bottles: bottles(serials) });
        log
    }

    fn to_join(serials: &[&str]) -> Logged {
        let mut log = Logged::to_choice(serials);
        log.on(Event::DeviceChosen { choice: Ok(0) });
        log.on(Event::PasscodeGiven { passcode: Ok("0000".into()) });
        log
    }

    fn to_sync(debug: bool) -> Logged {
        let mut log = Logged::to_bottles(debug);
        log.on(Event::BottlesFetched { bottles: bottles(&["A"]) });
        log.on(Event::DeviceChosen { choice: Ok(0) });
        log.on(Event::PasscodeGiven { passcode: Ok("0000".into()) });
        log.on(Event::Joined);
        assert!(log.on(Event::ContainerOpened).is_empty());
        assert!(log.on(Event::ZoneKeysFetched).is_empty());
        log
    }
}

fn spd() -> Option<plist::Dictionary> {
    let mut d = plist::Dictionary::new();
    d.insert("DsPrsId".into(), plist::Value::Integer(42u64.into()));
    d.insert("adsid".into(), plist::Value::String("ads".into()));
    Some(d)
}

fn bottles(serials: &[&str]) -> Vec<Bottle> {
    serials
        .iter()
        .map(|s| Bottle { serial: s.to_string(), metadata: plist::Value::Boolean(true) })
        .collect()
}

fn change(identifier: Option<&str>, record_type: Option<&str>) -> ChangeHeader {
    ChangeHeader {
        identifier: identifier.map(str::to_string),
        has_record: true,
        record_type: record_type.map(str::to_string),
    }
}

fn changes() -> Vec<ChangeHeader> {
    vec![
        change(None, Some("M")),
        change(Some("a\nb"), None),
        change(Some("m"), Some("M")),
        change(Some("sh"), Some("S")),
        change(Some("x"), Some("X")),
        ChangeHeader { identifier: Some("gone".into()), has_record: false, record_type: None },
        change(None, None),
    ]
}

fn signature(reached: Option<Checkpoint>) -> Event {
    Event::JoinFailed {
        failure: JoinFailure {
            bad_msg: true,
            text: "Bad message".into(),
            debug: "BadMsg".into(),
        },
        reached,
    }
}

#[test]
fn a_run_is_logged_as_documented() {
    let mut log = Logged::start("pw", false);
    assert_eq!(
        log.lines,
        vec![
            "[me@x] [sess=cli] [1/7] Connecting to anisette server (https://ani.sidestore.io)...",
            "[me@x] [sess=cli] [2/7] Logging in to Apple ID...",
        ]
    );
    assert_eq!(
        log.on(Event::LoggedIn { spd: spd() }),
        vec!["  Logged in (dsid=42) after 4.2s", "[3/7] Fetching MobileMe delegate..."]
    );
    assert_eq!(
        log.on(Event::Delegates { mobileme: true }),
        vec!["[4/7] Setting up CloudKit & Keychain..."]
    );
    assert_eq!(
        log.on(Event::ClientsSetUp { cloudkit: true, host_named: false }),
        vec![
            "  (escrowProxyUrl not in MobileMe config, using default)",
            "[5/7] Joining iCloud Keychain trust circle...",
        ]
    );
    assert_eq!(
        log.on(Event::BottlesFetched { bottles: bottles(&["L2MPKH342P", FAKE_SERIAL]) }),
        vec![
            "  Escrow bottles: 2 returned, 1 usable (dropped 1 of our own)",
            "  Found 1 usable device(s):",
            "    [0] L2MPKH342P () [L2MPKH342P]",
        ]
    );
    assert!(log.on(Event::DeviceChosen { choice: Ok(0) }).is_empty());
    assert_eq!(
        log.on(Event::PasscodeGiven { passcode: Ok("pässwörd".into()) }),
        vec!["  Using device [0]: L2MPKH342P () [L2MPKH342P], passcode 8 chars"]
    );
    assert_eq!(
        log.on(Event::Joined),
        vec![
            "  Joined keychain trust circle in 1.1s!",
            "[6/7] Fetching FindMy accessories from CloudKit...",
        ]
    );
    assert!(log.on(Event::ContainerOpened).is_empty());
    assert!(log.on(Event::ZoneKeysFetched).is_empty());
    assert_eq!(
        log.on(Event::Synced { zones: vec![vec![change(Some("m"), Some("M"))]] }),
        vec!["  CloudKit returned 1 change(s)"]
    );
    let records = collect(vec![
        Decoded::Master {
            id: "m".into(),
            record: MasterRecord {
                stable_identifier: "s".into(),
                model: String::new(),
                private_key: vec![],
                shared_secret: vec![],
                shared_secret_2: None,
                secure_locations_shared_secret: None,
                public_key: vec![],
                pairing_date: None,
            },
        },
        Decoded::Naming {
            record: NamingRecord {
                associated_beacon: "m".into(),
                name: "n".into(),
                emoji: String::new(),
            },
        },
        Decoded::Alignment { beacon: "m".into() },
    ]);
    assert_eq!(
        log.on(Event::RecordsDecoded { records }),
        vec![
            "  Records decrypted: 1 master, 1 naming, 1 alignment",
            "[7/7] Assembling 1 accessory export(s)... (total 4.2s)",
        ]
    );
    // A run that is over writes nothing.
    assert!(log.on(Event::Joined).is_empty());
}

#[test]
fn no_secret_reaches_the_log() {
    let write = |password: &str, passcode: &str| {
        let mut log = Logged::start(password, true);
        log.on(Event::LoggedIn { spd: spd() });
        log.on(Event::Delegates { mobileme: true });
        log.on(Event::ClientsSetUp { cloudkit: true, host_named: true });
        log.on(Event::BottlesFetched { bottles: bottles(&["A", "B"]) });
        log.on(Event::DeviceChosen { choice: Ok(1) });
        log.on(Event::PasscodeGiven { passcode: Ok(passcode.into()) });
        log.on(signature(None));
        log.lines
    };
    // Eight characters each, of different lengths in bytes.
    let lines = write("hunter2", "pässwörd");
    assert_eq!(lines, write("correct horse battery staple", "12345678"));
    assert!(!lines.iter().any(|l| l.contains("hunter2") || l.contains("pässwörd")));
    assert_ne!(lines, write("hunter2", "1234567"));
}

#[test]
fn each_failure_is_logged_with_its_step() {
    let one = |messages: Vec<String>| {
        assert_eq!(messages.len(), 1);
        messages[0].clone()
    };
    let error = AuthError { kind: AuthFailure::AuthSrp, text: "srp".into() };
    assert_eq!(
        one(Logged::start("pw", false).on(Event::LoginFailed { error })),
        "!! FAILED at [2/7] login after 4.2s: srp [Variant]"
    );
    assert_eq!(
        one(Logged::start("pw", false).on(Event::LoggedIn { spd: None })),
        "!! FAILED at [2/7] login after 4.2s: No SPD after login"
    );
    let login = || {
        let mut log = Logged::start("pw", false);
        log.on(Event::LoggedIn { spd: spd() });
        log
    };
    assert_eq!(
        one(login().on(Event::Delegates { mobileme: false })),
        "!! FAILED at [3/7] MobileMe delegate after 4.2s: No MobileMe delegate returned"
    );
    assert_eq!(
        one(login().on(Event::DelegatesFailed { text: "e".into() })),
        "!! FAILED at [3/7] MobileMe delegate after 4.2s: e [Variant]"
    );
    let mut log = login();
    log.on(Event::Delegates { mobileme: true });
    assert_eq!(
        one(log.on(Event::ClientsSetUp { cloudkit: false, host_named: true })),
        "!! FAILED at [4/7] CloudKit setup after 4.2s: Failed to create CloudKitState"
    );
    assert_eq!(
        one(Logged::to_bottles(false).on(Event::BottlesFailed { text: "e".into() })),
        "!! FAILED at [5/7] fetch escrow bottles after 4.2s: e [Variant]"
    );
    let aborted = || Err(PipelineError::Aborted);
    assert_eq!(
        one(Logged::to_choice(&["A"]).on(Event::DeviceChosen { choice: aborted() })),
        "!! FAILED at [5/7] device choice after 4.2s: The connection attempt was cancelled. \
         [Variant]"
    );
    assert_eq!(
        one(Logged::to_choice(&["A", "B"]).on(Event::DeviceChosen { choice: Ok(5) })),
        "!! FAILED at [5/7] device choice: index 5 out of range 0-1"
    );
    let mut log = Logged::to_choice(&["A"]);
    log.on(Event::DeviceChosen { choice: Ok(0) });
    assert_eq!(
        one(log.on(Event::PasscodeGiven { passcode: Err(PipelineError::Aborted) })),
        "!! FAILED at [5/7] passcode input after 4.2s: The connection attempt was cancelled. \
         [Variant]"
    );
    let mut log = Logged::to_join(&["A"]);
    log.on(Event::Joined);
    assert_eq!(
        one(log.on(Event::ContainerFailed { text: "e".into() })),
        "!! FAILED at [6/7] CloudKit container init after 4.2s: e [Variant]"
    );
    let mut log = Logged::to_join(&["A"]);
    log.on(Event::Joined);
    log.on(Event::ContainerOpened);
    assert_eq!(
        one(log.on(Event::ZoneKeysFailed { text: "e".into() })),
        "!! FAILED at [6/7] zone encryption config after 4.2s: e [Variant]"
    );
    assert_eq!(
        one(Logged::to_sync(false).on(Event::Synced { zones: vec![] })),
        "!! FAILED at [6/7] CloudKit fetch after 4.2s: CloudKit returned no BeaconStore zone"
    );
}

#[test]
fn the_bottles_are_counted_where_none_can_be_used() {
    let mut log = Logged::to_bottles(false);
    assert_eq!(
        log.on(Event::BottlesFetched { bottles: bottles(&[FAKE_SERIAL, FAKE_SERIAL]) }),
        vec![
            "  Escrow bottles: 2 returned, 0 usable (dropped 2 of our own)",
            "!! FAILED at [5/7] escrow bottles after 4.2s: no usable bottles",
        ]
    );
}

#[test]
fn a_repeated_sync_is_not_logged_as_failed() {
    let reset = || Event::SyncFailed { text: "reset".into(), reset: true };
    let mut log = Logged::to_sync(false);
    assert_eq!(log.on(reset()), vec!["  CloudKit sync asked for a reset; retrying once"]);
    assert_eq!(
        log.on(reset()),
        vec!["!! FAILED at [6/7] CloudKit fetch after 4.2s: reset [Variant]"]
    );
}

#[test]
fn a_failed_join_is_logged_with_the_signature() {
    let first = "!! FAILED at [5/7] join trust circle after 4.2s (1.1s in the join): \
                 Bad message [BadMsg]";
    let passcode = " — NOT a rejected passcode (the bottle had already decrypted)";
    assert_eq!(
        Logged::to_join(&["A", "B"]).on(signature(Some(checkpoint(2)))),
        vec![
            first.to_string(),
            "   last keychain checkpoint: \"Entering on key \"".to_string(),
            format!(
                "   => signature check failed on a TLK share's signature, from the peer that \
                 sent it{passcode}"
            ),
            "   => asking for another device (attempt 2/3)".to_string(),
        ]
    );
    assert_eq!(
        Logged::to_join(&["A"]).on(signature(None)),
        vec![
            first.to_string(),
            format!(
                "   => signature check failed on the escrow bottle's own escrowed-key \
                 signature{passcode}"
            ),
            "   => no retry (only one trusted device); ending the attempt".to_string(),
        ]
    );
    let mut log = Logged::to_join(&["A", "B"]);
    for _ in 0..2 {
        log.on(signature(None));
        assert!(log.on(Event::Reported).is_empty());
        log.on(Event::DeviceChosen { choice: Ok(0) });
        log.on(Event::PasscodeGiven { passcode: Ok("0000".into()) });
    }
    assert_eq!(
        log.on(signature(Some(checkpoint(3)))),
        vec![
            first,
            "   last keychain checkpoint: \"Joining with \"",
            "   => BadMsg at a point with no expected signature check; not one of the known join \
             sites",
            "   => no retry (attempts spent); ending the attempt",
        ]
    );
    // Any other failure has one line.
    let failure = JoinFailure { bad_msg: false, text: "SRP".into(), debug: "Srp(1)".into() };
    assert_eq!(
        Logged::to_join(&["A", "B"]).on(Event::JoinFailed { failure, reached: None }),
        vec![
            "!! FAILED at [5/7] join trust circle after 4.2s (1.1s in the join): SRP [Srp(1)]"
        ]
    );
}

#[test]
fn malformed_changes_say_what_they_lack() {
    let none = "  skipping a change with no record identifier";
    let lacks_type = "  skipping change a\u{fffd}b: record has no type";
    let nothing = [
        "  Records decrypted: 0 master, 0 naming, 0 alignment",
        "[7/7] Assembling 0 accessory export(s)... (total 4.2s)",
        "!! WARNING: export succeeded with zero accessories — the caller will report a connected \
         account with no tags",
    ];
    let mut log = Logged::to_sync(false);
    log.on(Event::Synced { zones: vec![changes()] });
    let mut expected = vec![none, lacks_type, none];
    expected.push("  Skipped 3 malformed change(s) from CloudKit");
    expected.extend(nothing);
    assert_eq!(log.on(Event::RecordsDecoded { records: collect(vec![]) }), expected);

    let mut log = Logged::to_sync(true);
    log.on(Event::Synced { zones: vec![changes()] });
    let shared = "  [debug] Shared beacon id=sh (not exported)";
    let messages = log.on(Event::RecordsDecoded { records: collect(vec![]) });
    assert_eq!(messages[..4], [none, lacks_type, shared, none]);

    // Where the decoding fails, only the changes before that one have been seen.
    let mut log = Logged::to_sync(false);
    log.on(Event::Synced { zones: vec![changes()] });
    assert_eq!(
        log.on(Event::DecodingFailed { at: 2, text: "pcs".into() }),
        vec![
            none,
            lacks_type,
            "!! FAILED at [6/7] PCS record keys after 4.2s: pcs [Variant]",
        ]
    );
}
