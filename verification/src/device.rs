//! The device that this tool signs in as: an iPhone, which Apple asks for no validation data.

use vstd::prelude::*;

use crate::ids::{
    hex32, hex_number, hyphenated, law_identifiers_can_be_read_back, nibble, random_number,
    random_uuid, upper_hex, upper_uuid,
};
use crate::pipeline::{joined, FAKE_SERIAL};
use crate::property_list::{dictionary_entries, empty_dictionary, Entries};

verus! {

/// The version of the push protocol that the device speaks.
pub const PROTOCOL_VERSION: u32 = 1640;

/// The endpoint that hands out the delegates of an iOS device.
pub const LOGIN_URL: &'static str = "https://setup.icloud.com/setup/iosbuddy/loginDelegates";

/// The device that this tool signs in as.
pub struct FakeIOSConfig {
    device_uuid: String,
    serial: String,
    udid: String,
}

/// The identifiers of the device.
pub struct FakeIOSView {
    pub device_uuid: Seq<char>,
    pub serial: Seq<char>,
    pub udid: Seq<char>,
}

impl View for FakeIOSConfig {
    type V = FakeIOSView;

    closed spec fn view(&self) -> FakeIOSView {
        FakeIOSView { device_uuid: self.device_uuid@, serial: self.serial@, udid: self.udid@ }
    }
}

/// What the device says of itself when it registers.
pub struct RegisterMeta {
    pub hardware_version: &'static str,
    pub os_version: &'static str,
    pub software_version: &'static str,
}

/// What the device says of itself for diagnosis.
pub struct DebugMeta {
    pub user_version: &'static str,
    pub hardware_version: &'static str,
    pub serial_number: String,
}

/// The identifiers that follow from two numbers: a UUID and 32 digits, both in upper case, beside
/// the serial by which this tool knows its own escrow bottles again.
pub open spec fn identity(uuid: u128, udid: u128) -> FakeIOSView {
    FakeIOSView {
        device_uuid: hyphenated(uuid, true),
        serial: FAKE_SERIAL@,
        udid: hex32(udid, true),
    }
}

impl FakeIOSConfig {
    /// A device with a random identity.
    pub fn new() -> (r: Self)
        ensures
            exists|uuid: u128, udid: u128| #[trigger]
                identity(uuid, udid) == r@ && nibble(uuid, 12) == 4 && 8 <= nibble(uuid, 16) <= 11,
    {
        let uuid = random_uuid();
        let udid = random_number();
        let config = Self::with_identity(uuid, udid);
        assert(identity(uuid, udid) == config@);
        config
    }

    /// The device whose identity follows from these numbers.
    pub fn with_identity(uuid: u128, udid: u128) -> (r: Self)
        ensures
            r@ == identity(uuid, udid),
    {
        FakeIOSConfig {
            device_uuid: upper_uuid(uuid),
            serial: FAKE_SERIAL.to_string(),
            udid: upper_hex(udid),
        }
    }

    /// The kind of device.
    pub fn get_activation_device(&self) -> (r: String)
        ensures
            r@ == "iPhone"@,
    {
        "iPhone".to_string()
    }

    /// The validation data, of which such a device needs none.
    pub fn validation_data(&self) -> (r: Vec<u8>)
        ensures
            r@ == Seq::<u8>::empty(),
    {
        Vec::new()
    }

    /// The version of the push protocol.
    pub fn get_protocol_version(&self) -> (r: u32)
        ensures
            r == PROTOCOL_VERSION,
    {
        PROTOCOL_VERSION
    }

    /// What the device says of itself when it registers.
    pub fn get_register_meta(&self) -> (r: RegisterMeta)
        ensures
            r.hardware_version@ == "iPhone15,2"@,
            r.os_version@ == "iPhone OS,17.4,21E219"@,
            r.software_version@ == "21E219"@,
    {
        RegisterMeta {
            hardware_version: "iPhone15,2",
            os_version: "iPhone OS,17.4,21E219",
            software_version: "21E219",
        }
    }

    /// The user agent of a client on the device.
    pub fn get_normal_ua(&self, item: &str) -> (r: String)
        ensures
            r@ == item@ + " CFNetwork/1494.0.7 Darwin/23.4.0"@,
    {
        joined(item, " CFNetwork/1494.0.7 Darwin/23.4.0")
    }

    /// The client information of a client on the device.
    pub fn get_mme_clientinfo(&self, for_item: &str) -> (r: String)
        ensures
            r@ == "<iPhone15,2> <iPhone OS;17.4;21E219> <"@ + for_item@ + ">"@,
    {
        let mut out = joined("<iPhone15,2> <iPhone OS;17.4;21E219> <", for_item);
        out.append(">");
        out
    }

    /// The user agent that names the version of the system.
    pub fn get_version_ua(&self) -> (r: String)
        ensures
            r@ == "[iPhone OS,17.4,21E219,iPhone15,2]"@,
    {
        "[iPhone OS,17.4,21E219,iPhone15,2]".to_string()
    }

    /// The name of the device.
    pub fn get_device_name(&self) -> (r: String)
        ensures
            r@ == "iPhone"@,
    {
        "iPhone".to_string()
    }

    /// The UUID of the device.
    pub fn get_device_uuid(&self) -> (r: String)
        ensures
            r@ == self@.device_uuid,
    {
        self.device_uuid.clone()
    }

    /// The private data of the device, of which there are none.
    pub fn get_private_data(&self) -> (r: plist::Dictionary)
        ensures
            dictionary_entries(r) == Entries::empty(),
    {
        empty_dictionary()
    }

    /// What the device says of itself for diagnosis.
    pub fn get_debug_meta(&self) -> (r: DebugMeta)
        ensures
            r.user_version@ == "17.4"@,
            r.hardware_version@ == "iPhone15,2"@,
            r.serial_number@ == self@.serial,
    {
        DebugMeta {
            user_version: "17.4",
            hardware_version: "iPhone15,2",
            serial_number: self.serial.clone(),
        }
    }

    /// The endpoint that hands out the delegates.
    pub fn get_login_url(&self) -> (r: &'static str)
        ensures
            r@ == LOGIN_URL@,
    {
        LOGIN_URL
    }

    /// The serial of the device.
    pub fn get_serial_number(&self) -> (r: String)
        ensures
            r@ == self@.serial,
    {
        self.serial.clone()
    }

    /// The version of the authentication kit.
    pub fn get_aoskit_version(&self) -> (r: String)
        ensures
            r@ == "com.apple.AuthKit/1 (com.apple.akd/1.0)"@,
    {
        "com.apple.AuthKit/1 (com.apple.akd/1.0)".to_string()
    }

    /// The unique device identifier.
    pub fn get_udid(&self) -> (r: String)
        ensures
            r@ == self@.udid,
    {
        self.udid.clone()
    }
}

/// The device has the serial of this tool, and identifiers that the two numbers can be read back
/// from: the UUID in the upper-case groups of its 32 digits, and the other number in 32 digits.
pub proof fn law_the_identity_follows_from_its_numbers(uuid: u128, udid: u128)
    ensures
        ({
            let d = identity(uuid, udid);
            &&& d.serial == "F2LZN0FAKE00"@
            &&& d.device_uuid == hyphenated(uuid, true)
            &&& d.device_uuid.len() == 36
            &&& d.udid.len() == 32
            &&& hex_number(d.udid) == udid
            &&& forall|i: int| 0 <= i < 32 ==> !(0x61 <= (#[trigger] d.udid[i]) as u32 <= 0x7a)
        }),
        PROTOCOL_VERSION == 1640,
        LOGIN_URL@ == "https://setup.icloud.com/setup/iosbuddy/loginDelegates"@,
{
    law_identifiers_can_be_read_back(udid, true);
    law_identifiers_can_be_read_back(uuid, true);
}

} // verus!
