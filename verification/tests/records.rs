use export_findmy::accessory::beacon_to_plist;
use export_findmy::pipeline::BeaconExport;
use export_findmy::records::{
    assemble, beacon_export, collect, datable, triage, triage_all, ChangeHeader, Decoded,
    MasterRecord, NamingRecord, RecordNames, Records, Triage,
};
use export_findmy::server::beacon_json;

fn names() -> RecordNames {
    RecordNames { master: "M".into(), naming: "N".into(), alignment: "A".into(), shared: "S".into() }
}

fn change(identifier: Option<&str>, has_record: bool, record_type: Option<&str>) -> ChangeHeader {
    ChangeHeader {
        identifier: identifier.map(str::to_string),
        has_record,
        record_type: record_type.map(str::to_string),
    }
}

fn master(stable: &str) -> MasterRecord {
    MasterRecord {
        stable_identifier: stable.into(),
        model: "AirTag".into(),
        private_key: vec![1, 2],
        shared_secret: vec![3],
        shared_secret_2: Some(vec![4]),
        secure_locations_shared_secret: None,
        public_key: vec![5],
        pairing_date: None,
    }
}

fn filed(id: &str, stable: &str) -> Decoded {
    Decoded::Master { id: id.into(), record: master(stable) }
}

fn naming(beacon: &str, name: &str) -> Decoded {
    Decoded::Naming {
        record: NamingRecord {
            associated_beacon: beacon.into(),
            name: name.into(),
            emoji: "🎧".into(),
        },
    }
}

#[test]
fn changes_are_told_apart_by_their_type() {
    let n = names();
    assert_eq!(triage(&change(Some("i"), true, Some("M")), &n), Triage::Master);
    assert_eq!(triage(&change(Some("i"), true, Some("N")), &n), Triage::Naming);
    assert_eq!(triage(&change(Some("i"), true, Some("A")), &n), Triage::Alignment);
    assert_eq!(triage(&change(Some("i"), true, Some("S")), &n), Triage::Shared);
    assert_eq!(triage(&change(Some("i"), true, Some("X")), &n), Triage::Ignored);
    assert_eq!(triage(&change(Some("i"), false, None), &n), Triage::Ignored);
    assert_eq!(triage(&change(Some("i"), true, None), &n), Triage::Malformed);
    assert_eq!(triage(&change(None, true, Some("M")), &n), Triage::Malformed);
}

#[test]
fn one_malformed_change_does_not_end_an_export() {
    let changes =
        vec![change(None, false, None), change(Some("i"), true, Some("M")), change(None, true, None)];
    assert_eq!(
        triage_all(&changes, &names()),
        vec![Triage::Malformed, Triage::Master, Triage::Malformed]
    );
}

#[test]
fn names_are_found_by_the_record_and_not_by_the_stable_identifier() {
    let beacons = assemble(collect(vec![
        filed("uuid-1", "stable-1"),
        naming("uuid-1", "Keys"),
        filed("uuid-2", "stable-2"),
        naming("stable-2", "Not this one"),
    ]));
    assert_eq!(beacons.len(), 2);
    assert_eq!((beacons[0].name.as_str(), beacons[0].emoji.as_str()), ("Keys", "🎧"));
    assert_eq!((beacons[1].name.as_str(), beacons[1].emoji.as_str()), ("Unknown-stable-2", ""));
}

#[test]
fn a_later_record_takes_the_place_of_an_earlier_one() {
    let records = collect(vec![
        naming("u", "Old"),
        filed("u", "old"),
        Decoded::Alignment { beacon: "u".into() },
        filed("u", "new"),
        naming("u", "New"),
        Decoded::Alignment { beacon: "u".into() },
    ]);
    assert_eq!(
        (records.masters.len(), records.namings.len(), records.alignments.len()),
        (1, 1, 1)
    );
    let beacons = assemble(records);
    assert_eq!(beacons[0].identifier, "new");
    assert_eq!(beacons[0].name, "New");
}

#[test]
fn each_accessory_keeps_one_name() {
    let records = collect(vec![
        naming("u", "First"),
        naming("v", "Other"),
        naming("u", "Second"),
        naming("w", "Third"),
        naming("u", "Last"),
    ]);
    let kept: Vec<_> =
        records.namings.iter().map(|n| (n.associated_beacon.as_str(), n.name.as_str())).collect();
    assert_eq!(kept, vec![("u", "Last"), ("v", "Other"), ("w", "Third")]);
}

#[test]
fn the_order_of_the_kinds_does_not_matter() {
    let mut a = Records::new();
    a.absorb(filed("u", "s"));
    a.absorb(naming("u", "Keys"));
    let mut b = Records::new();
    b.absorb(naming("u", "Keys"));
    b.absorb(filed("u", "s"));
    let (a, b) = (assemble(a), assemble(b));
    assert_eq!((&a[0].name, &a[0].identifier), (&b[0].name, &b[0].identifier));
}

#[test]
fn an_export_carries_the_key_material_of_its_record() {
    let mut m = master("stable");
    m.secure_locations_shared_secret = Some(vec![9]);
    m.pairing_date = Some(1_500_000_000);
    assert!(datable(&m));
    let b = beacon_export(m, None);
    assert_eq!(b.private_key, vec![1, 2]);
    assert_eq!(b.shared_secret, vec![3]);
    assert_eq!(b.secondary_shared_secret, Some(vec![4]));
    assert_eq!(b.secure_locations_shared_secret, Some(vec![9]));
    assert_eq!(b.public_key, Some(vec![5]));
    assert_eq!(b.model, "AirTag");
    assert_eq!(b.pairing_date.as_deref(), Some("1970-01-01T00:00:01Z"));
}

#[test]
fn dates_past_the_calendar_cannot_be_written() {
    let mut m = master("s");
    assert!(datable(&m));
    m.pairing_date = Some(8_210_266_876_799_999_999_999);
    assert!(datable(&m));
    m.pairing_date = Some(8_210_266_876_800_000_000_000);
    assert!(!datable(&m));
    m.pairing_date = Some(-1);
    assert!(datable(&m));
}

fn sample() -> BeaconExport {
    BeaconExport {
        identifier: "id".into(),
        name: "Keys".into(),
        emoji: "🔑".into(),
        model: "AirTag".into(),
        private_key: vec![1u8; 4],
        shared_secret: vec![2u8; 4],
        secondary_shared_secret: Some(vec![7]),
        secure_locations_shared_secret: None,
        public_key: Some(vec![8]),
        pairing_date: Some("2026-01-11T19:57:42Z".into()),
    }
}

#[test]
fn the_property_list_holds_every_key() {
    let value = beacon_to_plist(&sample());
    let d = value.as_dictionary().unwrap();
    assert_eq!(d.len(), 9);
    assert_eq!(d["privateKey"].as_data(), Some(&[1u8, 1, 1, 1][..]));
    assert_eq!(d["sharedSecret"].as_data(), Some(&[2u8, 2, 2, 2][..]));
    assert_eq!(d["secondarySharedSecret"].as_data(), Some(&[7u8][..]));
    assert!(!d.contains_key("secureLocationsSharedSecret"));
    assert_eq!(d["publicKey"].as_data(), Some(&[8u8][..]));
    assert_eq!(d["identifier"].as_string(), Some("id"));
    assert_eq!(d["name"].as_string(), Some("Keys"));
    assert_eq!(d["emoji"].as_string(), Some("🔑"));
    assert_eq!(d["model"].as_string(), Some("AirTag"));
    let date = d["pairingDate"].as_date().unwrap();
    assert_eq!(date.to_xml_format(), "2026-01-11T19:57:42Z");

    let mut b = sample();
    b.secure_locations_shared_secret = Some(vec![6]);
    let value = beacon_to_plist(&b);
    let d = value.as_dictionary().unwrap();
    assert_eq!(d["secureLocationsSharedSecret"].as_data(), Some(&[6u8][..]));
}

#[test]
fn a_pairing_date_is_read_back_or_left_out() {
    let date = |text: &str| {
        let mut b = sample();
        b.pairing_date = Some(text.to_string());
        let value = beacon_to_plist(&b);
        value.as_dictionary().unwrap().get("pairingDate").map(|v| v.as_date().unwrap())
    };
    assert_eq!(date("2026-01-11T21:57:42+02:00").unwrap().to_xml_format(), "2026-01-11T19:57:42Z");
    let fraction = std::time::SystemTime::from(date("2026-01-11T19:57:42.5Z").unwrap());
    let since = fraction.duration_since(std::time::UNIX_EPOCH).unwrap();
    assert_eq!((since.as_secs(), since.subsec_millis()), (1_768_161_462, 500));
    let before = std::time::SystemTime::from(date("1969-12-31T23:59:59Z").unwrap());
    let ahead = std::time::UNIX_EPOCH.duration_since(before).unwrap();
    assert_eq!(ahead.as_secs(), 1);
    assert!(date("yesterday").is_none());
    assert!(date("").is_none());
}

#[test]
fn a_leap_second_is_carried() {
    let moment = |text: &str| {
        let mut b = sample();
        b.pairing_date = Some(text.to_string());
        let value = beacon_to_plist(&b);
        let date = value.as_dictionary().unwrap()["pairingDate"].as_date().unwrap();
        let since = std::time::SystemTime::from(date);
        let since = since.duration_since(std::time::UNIX_EPOCH).unwrap();
        (since.as_secs(), since.subsec_nanos())
    };
    assert_eq!(moment("2016-12-31T23:59:60Z"), (1_483_228_800, 0));
    assert_eq!(moment("2016-12-31T23:59:60Z"), moment("2017-01-01T00:00:00Z"));
    assert_eq!(moment("2016-12-31T23:59:60.25Z"), (1_483_228_800, 250_000_000));
    assert_eq!(moment("2016-12-31T23:59:59.75Z"), (1_483_228_799, 750_000_000));
}

#[test]
fn the_api_returns_what_the_property_list_holds() {
    let b = sample();
    let json = beacon_json(&b);
    let value = beacon_to_plist(&b);
    let d = value.as_dictionary().unwrap();
    assert_eq!(d["privateKey"].as_data().unwrap(), &b.private_key[..]);
    assert_eq!(json["private_key"], "AQEBAQ==");
    assert_eq!(json["secondary_shared_secret"], "Bw==");
    assert!(json["secure_locations_shared_secret"].is_null());
    assert_eq!(json["public_key"], "CA==");
}

#[test]
fn a_pairing_date_survives_the_whole_way() {
    let mut m = master("s");
    m.pairing_date = Some(1_736_625_462_920_991_898);
    let value = beacon_to_plist(&beacon_export(m, None));
    let date = value.as_dictionary().unwrap()["pairingDate"].as_date().unwrap();
    assert_eq!(date.to_xml_format(), "2025-01-11T19:57:42Z");
    let moment = std::time::SystemTime::from(date);
    let since = moment.duration_since(std::time::UNIX_EPOCH).unwrap();
    assert_eq!((since.as_secs(), since.subsec_nanos()), (1_736_625_462, 0));
}
