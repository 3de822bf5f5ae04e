use export_findmy::cli::{
    file_name, only_device, parse_args, parse_port, typed_device, Command, Options, CLI_TAG,
    DEFAULT_PORT,
};
use export_findmy::device::FakeIOSConfig;
use export_findmy::ids::{tag, upper_hex, upper_uuid};
use export_findmy::pipeline::FAKE_SERIAL;
use export_findmy::text::{contains, parse_unsigned, same_text, starts_with, trim};

fn parse(args: &[&str]) -> Command {
    let mut all = vec!["export_findmy".to_string()];
    all.extend(args.iter().map(|a| a.to_string()));
    parse_args(&all)
}

fn options(args: &[&str]) -> Options {
    match parse(args) {
        Command::Run(o) => o,
        _ => panic!("not run"),
    }
}

#[test]
fn the_options_have_the_documented_defaults() {
    for o in [options(&[]), match parse_args(&vec![]) {
        Command::Run(o) => o,
        _ => panic!("not run"),
    }] {
        assert_eq!(o.apple_id, "");
        assert_eq!(o.anisette_url, "https://ani.sidestore.io");
        assert_eq!(o.output_dir, ".");
        assert!(!o.debug && !o.serve);
        assert_eq!(o.port, 5301);
    }
    assert_eq!(DEFAULT_PORT, 5301);
    assert_eq!(CLI_TAG, "cli");
}

#[test]
fn every_option_is_read() {
    let o = options(&[
        "--apple-id", "me@x", "--anisette-url", "http://a", "--output-dir", "./keys", "--debug",
        "--serve", "--port", "80",
    ]);
    assert_eq!((o.apple_id.as_str(), o.anisette_url.as_str()), ("me@x", "http://a"));
    assert_eq!(o.output_dir, "./keys");
    assert!(o.debug && o.serve);
    assert_eq!(o.port, 80);
    // A value is taken as it is, even where it looks like an option; the last one counts.
    let o = options(&["--apple-id", "--serve", "--apple-id", "b"]);
    assert_eq!(o.apple_id, "b");
    assert!(!o.serve);
}

#[test]
fn help_and_unknown_arguments_end_the_reading() {
    assert!(matches!(parse(&["--debug", "--help", "--nonsense"]), Command::Help));
    assert!(matches!(parse(&["-h"]), Command::Help));
    match parse(&["--nonsense", "--help"]) {
        Command::Unknown(arg) => assert_eq!(arg, "--nonsense"),
        _ => panic!("not unknown"),
    }
    for flag in ["--apple-id", "--anisette-url", "--output-dir", "--port"] {
        match parse(&["--debug", flag]) {
            Command::MissingValue(arg) => assert_eq!(arg, flag),
            _ => panic!("not missing"),
        }
    }
}

#[test]
fn a_port_that_is_none_is_the_default() {
    assert_eq!(parse_port("65535"), 65535);
    assert_eq!(parse_port("0"), 0);
    assert_eq!(parse_port("+81"), 81);
    for text in ["65536", "-1", "", "+", "80 ", "http", "99999999999999999999999"] {
        assert_eq!(parse_port(text), 5301, "{text}");
        assert!(text.parse::<u16>().is_err());
    }
}

#[test]
fn a_typed_answer_picks_a_device() {
    assert_eq!(only_device(1), Some(0));
    assert_eq!(only_device(2), None);
    assert_eq!(only_device(0), None);
    assert_eq!(typed_device(" 2\n"), 2);
    assert_eq!(typed_device("\n"), 0);
    assert_eq!(typed_device("first"), 0);
    assert_eq!(typed_device("18446744073709551615"), usize::MAX);
    assert_eq!(typed_device("18446744073709551616"), 0);
}

#[test]
fn file_names_stay_in_their_directory() {
    assert_eq!(file_name("Wilbur's AirTag"), "Wilbur_s_AirTag.plist");
    assert_eq!(file_name("../../etc/passwd"), "______etc_passwd.plist");
    assert_eq!(file_name("a-b_C9"), "a-b_C9.plist");
    assert_eq!(file_name("José 鍵 🔑"), "José_鍵__.plist");
    assert_eq!(file_name(""), ".plist");
}

#[test]
fn the_device_has_an_identity_of_its_own() {
    let c = FakeIOSConfig::new();
    let uuid = uuid::Uuid::parse_str(&c.get_device_uuid()).unwrap();
    assert_eq!(uuid.get_version_num(), 4);
    assert_eq!(c.get_device_uuid(), uuid.to_string().to_uppercase());
    assert_eq!(c.get_udid().len(), 32);
    assert_eq!(c.get_serial_number(), FAKE_SERIAL);
    assert_eq!(FAKE_SERIAL, "F2LZN0FAKE00");
    assert_ne!(FakeIOSConfig::new().get_udid(), c.get_udid());
}

#[test]
fn the_device_presents_as_an_iphone() {
    let c = FakeIOSConfig::with_identity(0x67e55044_10b1_426f_9247_bb680e5fe0c8, 0xab);
    assert_eq!(c.get_device_uuid(), "67E55044-10B1-426F-9247-BB680E5FE0C8");
    assert_eq!(c.get_udid(), "000000000000000000000000000000AB");
    assert_eq!(c.get_activation_device(), "iPhone");
    assert_eq!(c.get_device_name(), "iPhone");
    assert!(c.validation_data().is_empty());
    assert_eq!(c.get_protocol_version(), 1640);
    let meta = c.get_register_meta();
    assert_eq!(meta.hardware_version, "iPhone15,2");
    assert_eq!(meta.os_version, "iPhone OS,17.4,21E219");
    assert_eq!(meta.software_version, "21E219");
    assert_eq!(c.get_normal_ua("x/1"), "x/1 CFNetwork/1494.0.7 Darwin/23.4.0");
    assert_eq!(c.get_mme_clientinfo("x"), "<iPhone15,2> <iPhone OS;17.4;21E219> <x>");
    assert_eq!(c.get_version_ua(), "[iPhone OS,17.4,21E219,iPhone15,2]");
    assert!(c.get_private_data().is_empty());
    let meta = c.get_debug_meta();
    assert_eq!((meta.user_version, meta.hardware_version), ("17.4", "iPhone15,2"));
    assert_eq!(meta.serial_number, FAKE_SERIAL);
    assert_eq!(c.get_login_url(), "https://setup.icloud.com/setup/iosbuddy/loginDelegates");
    assert_eq!(c.get_aoskit_version(), "com.apple.AuthKit/1 (com.apple.akd/1.0)");
}

#[test]
fn identifiers_are_written_in_hexadecimal() {
    let id = 0x3f2a1b8c_9d0e_4f10_a123_456789abcdef;
    assert_eq!(tag(id), "3f2a1b8c");
    assert_eq!(upper_hex(id), format!("{id:032X}"));
    assert_eq!(upper_uuid(id), uuid::Uuid::from_u128(id).to_string().to_uppercase());
    assert_eq!(upper_hex(u128::MAX), "F".repeat(32));
}

#[test]
fn text_is_searched_by_characters() {
    assert!(starts_with("älpha", "äl") && !starts_with("ä", "äl") && starts_with("x", ""));
    assert!(contains("a CLUBH ERROR b", "CLUBH ERROR") && !contains("CLUBH", "CLUBH ERROR"));
    assert!(contains("", "") && contains("abc", "c") && !contains("abc", "d"));
    assert!(same_text("é", "é") && !same_text("a", "b") && !same_text("a", "ab"));
    assert_eq!(trim("\u{2003}\t a b \n"), "a b");
    assert_eq!(trim(" \n"), "");
    for n in 0..0x3100u32 {
        if let Some(c) = char::from_u32(n) {
            assert_eq!(trim(&c.to_string()), c.to_string().trim());
        }
    }
    assert_eq!(parse_unsigned("007", 7), Some(7));
    assert_eq!(parse_unsigned("8", 7), None);
    assert_eq!(parse_unsigned("18446744073709551615", u64::MAX), Some(u64::MAX));
}
