//! The values that the export pipeline works on, its errors, and the rules that decide what a
//! failure means for the user.

use vstd::prelude::*;

use crate::logging::{text_of, Checkpoint};
use crate::property_list::{
    as_dictionary, dictionary_entries, get_text, get_unsigned, text_at, unsigned_at, value_entries,
    Entries, Entry,
};
use crate::text::{
    chars_of, contains, decimal, digit, digits_value, law_decimal_writes_the_number, occurs,
    push_decimal,
};

verus! {

/// The serial that this tool registers for its own device. Every run leaves one such escrow bottle
/// behind; none of them can be used to join, so they are kept out of the device picker.
pub const FAKE_SERIAL: &'static str = "F2LZN0FAKE00";

/// The code of a failed signature check in the trust circle. The retry path reports it before any
/// error value exists: the join failed for this device, not yet for the attempt.
pub const TRUST_CIRCLE_SIGNATURE: &'static str = "trust_circle_signature";

/// How many devices the user may try before the attempt is spent.
pub const MAX_JOIN_ATTEMPTS: usize = 3;

/// Shown where the sign-in failed before Apple ever judged the credentials.
pub const LOGIN_UPSTREAM: &'static str =
    "Could not reach Apple's sign-in service. This is not a problem with your Apple ID or password — please wait a minute and try again.";

/// A trusted device that the user can pick to unlock the escrow, by its passcode.
#[derive(Debug)]
pub struct DeviceInfo {
    pub serial: String,
    pub name: String,
    pub model: String,
}

/// The texts of a device.
pub struct DeviceView {
    pub serial: Seq<char>,
    pub name: Seq<char>,
    pub model: Seq<char>,
}

impl View for DeviceInfo {
    type V = DeviceView;

    open spec fn view(&self) -> DeviceView {
        DeviceView { serial: self.serial@, name: self.name@, model: self.model@ }
    }
}

/// The texts of each device of a list.
pub open spec fn device_views(devices: Seq<DeviceInfo>) -> Seq<DeviceView> {
    devices.map_values(|d: DeviceInfo| d@)
}

impl Clone for DeviceInfo {
    fn clone(&self) -> (r: Self)
        ensures
            r == *self,
    {
        DeviceInfo {
            serial: self.serial.clone(),
            name: self.name.clone(),
            model: self.model.clone(),
        }
    }
}

/// A copy of a list of devices.
pub fn clone_devices(devices: &[DeviceInfo]) -> (r: Vec<DeviceInfo>)
    ensures
        r@ == devices@,
{
    let mut out: Vec<DeviceInfo> = Vec::new();
    for i in 0..devices.len()
        invariant
            out@ == devices@.take(i as int),
    {
        out.push(devices[i].clone());
        assert(out@ =~= devices@.take(i + 1));
    }
    assert(devices@.take(devices@.len() as int) =~= devices@);
    out
}

/// The device that Apple's metadata describe: the serial stands in for a name that was not
/// recorded, the model class is preferred to the model, and a model may be missing altogether.
pub open spec fn device_of(serial: Seq<char>, entries: Entries) -> DeviceView {
    DeviceView {
        serial,
        name: match text_at(entries, "device_name"@) {
            Some(name) => name,
            None => serial,
        },
        model: match text_at(entries, "device_model_class"@) {
            Some(class) => class,
            None => match text_at(entries, "device_model"@) {
                Some(model) => model,
                None => Seq::empty(),
            },
        },
    }
}

/// The string under `key`, where there is a dictionary and it holds one.
fn metadata_text(md: Option<&plist::Dictionary>, key: &str) -> (r: Option<String>)
    ensures
        match md {
            Some(d) => match r {
                Some(t) => text_at(dictionary_entries(*d), key@) == Some(t@),
                None => text_at(dictionary_entries(*d), key@) is None,
            },
            None => r is None,
        },
{
    match md {
        Some(d) => get_text(d, key),
        None => None,
    }
}

impl DeviceInfo {
    /// The friendly name and model that the client metadata of an escrow bottle hold.
    pub fn from_metadata(serial: &str, md: &plist::Value) -> (r: Self)
        ensures
            r@ == device_of(serial@, value_entries(*md)),
    {
        let dictionary = as_dictionary(md);
        let name = match metadata_text(dictionary, "device_name") {
            Some(name) => name,
            None => serial.to_string(),
        };
        let model = match metadata_text(dictionary, "device_model_class") {
            Some(class) => class,
            None => match metadata_text(dictionary, "device_model") {
                Some(model) => model,
                None => String::new(),
            },
        };
        DeviceInfo { serial: serial.to_string(), name, model }
    }
}

/// One exported accessory's key material, as raw bytes.
#[derive(Debug, Clone)]
pub struct BeaconExport {
    pub identifier: String,
    pub name: String,
    pub emoji: String,
    pub model: String,
    pub private_key: Vec<u8>,
    pub shared_secret: Vec<u8>,
    pub secondary_shared_secret: Option<Vec<u8>>,
    pub secure_locations_shared_secret: Option<Vec<u8>>,
    pub public_key: Option<Vec<u8>>,
    /// RFC 3339 with whole seconds: Apple's plist reader rejects fractions.
    pub pairing_date: Option<String>,
}

/// The texts and bytes of an exported accessory.
pub struct BeaconView {
    pub identifier: Seq<char>,
    pub name: Seq<char>,
    pub emoji: Seq<char>,
    pub model: Seq<char>,
    pub private_key: Seq<u8>,
    pub shared_secret: Seq<u8>,
    pub secondary_shared_secret: Option<Seq<u8>>,
    pub secure_locations_shared_secret: Option<Seq<u8>>,
    pub public_key: Option<Seq<u8>>,
    pub pairing_date: Option<Seq<char>>,
}

/// The bytes of an optional vector.
pub open spec fn bytes_of(v: Option<Vec<u8>>) -> Option<Seq<u8>> {
    match v {
        Some(bytes) => Some(bytes@),
        None => None,
    }
}

/// The characters of an optional string.
pub open spec fn string_of(s: Option<String>) -> Option<Seq<char>> {
    match s {
        Some(t) => Some(t@),
        None => None,
    }
}

impl View for BeaconExport {
    type V = BeaconView;

    open spec fn view(&self) -> BeaconView {
        BeaconView {
            identifier: self.identifier@,
            name: self.name@,
            emoji: self.emoji@,
            model: self.model@,
            private_key: self.private_key@,
            shared_secret: self.shared_secret@,
            secondary_shared_secret: bytes_of(self.secondary_shared_secret),
            secure_locations_shared_secret: bytes_of(self.secure_locations_shared_secret),
            public_key: bytes_of(self.public_key),
            pairing_date: string_of(self.pairing_date),
        }
    }
}

/// The texts and bytes of each accessory of a list.
pub open spec fn beacon_views(beacons: Seq<BeaconExport>) -> Seq<BeaconView> {
    beacons.map_values(|b: BeaconExport| b@)
}

/// What one run of the pipeline is asked to do.
pub struct ExportOpts {
    pub apple_id: String,
    pub password: String,
    pub anisette_url: String,
    pub debug: bool,
    /// Short tag that names this run in the log: that of the HTTP session, or `cli`.
    pub session_id: String,
}

/// What one run of the pipeline is asked to do.
pub struct OptsView {
    pub apple_id: Seq<char>,
    pub password: Seq<char>,
    pub anisette_url: Seq<char>,
    pub debug: bool,
    pub session_id: Seq<char>,
}

impl View for ExportOpts {
    type V = OptsView;

    open spec fn view(&self) -> OptsView {
        OptsView {
            apple_id: self.apple_id@,
            password: self.password@,
            anisette_url: self.anisette_url@,
            debug: self.debug,
            session_id: self.session_id@,
        }
    }
}

/// A failure at some stage of the pipeline.
#[derive(Debug)]
pub enum PipelineError {
    /// Apple judged the password or the 2FA code, and rejected it.
    BadCredentials(String),
    /// The device passcode was rejected.
    BadPasscode(String),
    /// The join failed a signature check, after the passcode had opened the escrow bottle.
    TrustCircleSignature(String),
    /// Depositing the new escrow record failed, past the passcode check.
    EscrowClub(String),
    /// The device index is not one of the list.
    BadDeviceIndex(String),
    /// The account has no usable escrow bottle.
    NoBottles,
    /// Apple, or the way there, failed.
    Apple(String),
    /// An input never arrived, or the attempt was cancelled.
    Aborted,
}

/// A failure, with the text that it carries.
pub enum ErrorView {
    BadCredentials(Seq<char>),
    BadPasscode(Seq<char>),
    TrustCircleSignature(Seq<char>),
    EscrowClub(Seq<char>),
    BadDeviceIndex(Seq<char>),
    NoBottles,
    Apple(Seq<char>),
    Aborted,
}

impl View for PipelineError {
    type V = ErrorView;

    open spec fn view(&self) -> ErrorView {
        match self {
            PipelineError::BadCredentials(m) => ErrorView::BadCredentials(m@),
            PipelineError::BadPasscode(m) => ErrorView::BadPasscode(m@),
            PipelineError::TrustCircleSignature(m) => ErrorView::TrustCircleSignature(m@),
            PipelineError::EscrowClub(m) => ErrorView::EscrowClub(m@),
            PipelineError::BadDeviceIndex(m) => ErrorView::BadDeviceIndex(m@),
            PipelineError::NoBottles => ErrorView::NoBottles,
            PipelineError::Apple(m) => ErrorView::Apple(m@),
            PipelineError::Aborted => ErrorView::Aborted,
        }
    }
}

impl ErrorView {
    /// The machine-readable code of the failure.
    pub open spec fn code(self) -> Seq<char> {
        match self {
            ErrorView::BadCredentials(_) => "bad_credentials"@,
            ErrorView::BadPasscode(_) => "bad_passcode"@,
            ErrorView::TrustCircleSignature(_) => TRUST_CIRCLE_SIGNATURE@,
            ErrorView::EscrowClub(_) => "escrow_club"@,
            ErrorView::BadDeviceIndex(_) => "bad_device_index"@,
            ErrorView::NoBottles => "no_bottles"@,
            ErrorView::Apple(_) => "apple_error"@,
            ErrorView::Aborted => "session_expired"@,
        }
    }

    /// The sentence for the user.
    pub open spec fn message(self) -> Seq<char> {
        match self {
            ErrorView::BadCredentials(m) => m,
            ErrorView::BadPasscode(m) => m,
            ErrorView::TrustCircleSignature(m) => m,
            ErrorView::EscrowClub(m) => m,
            ErrorView::BadDeviceIndex(m) => m,
            ErrorView::NoBottles =>
                "No escrow bottles found. Make sure you have another trusted device."@,
            ErrorView::Apple(m) => m,
            ErrorView::Aborted => "The connection attempt was cancelled."@,
        }
    }
}

impl PipelineError {
    /// The machine-readable code that the JSON error body carries. An input that never arrived is
    /// no fault of Apple's: the attempt lapsed, so it counts as an expired session.
    pub fn code(&self) -> (r: &'static str)
        ensures
            r@ == self@.code(),
    {
        match self {
            PipelineError::BadCredentials(_) => "bad_credentials",
            PipelineError::BadPasscode(_) => "bad_passcode",
            PipelineError::TrustCircleSignature(_) => TRUST_CIRCLE_SIGNATURE,
            PipelineError::EscrowClub(_) => "escrow_club",
            PipelineError::BadDeviceIndex(_) => "bad_device_index",
            PipelineError::NoBottles => "no_bottles",
            PipelineError::Apple(_) => "apple_error",
            PipelineError::Aborted => "session_expired",
        }
    }

    /// The sentence for the user, which becomes the `detail` of the JSON error body.
    pub fn message(&self) -> (r: String)
        ensures
            r@ == self@.message(),
    {
        match self {
            PipelineError::BadCredentials(m) => m.clone(),
            PipelineError::BadPasscode(m) => m.clone(),
            PipelineError::TrustCircleSignature(m) => m.clone(),
            PipelineError::EscrowClub(m) => m.clone(),
            PipelineError::BadDeviceIndex(m) => m.clone(),
            PipelineError::NoBottles =>
                "No escrow bottles found. Make sure you have another trusted device.".to_string(),
            PipelineError::Apple(m) => m.clone(),
            PipelineError::Aborted => "The connection attempt was cancelled.".to_string(),
        }
    }
}

/// What made a login fail: the kinds that `icloud_auth` tells apart and that decide what the user
/// is told.
#[derive(Clone, Copy, Debug, PartialEq, Eq, Structural)]
pub enum AuthFailure {
    /// Apple answered the sign-in, and rejected what was typed.
    AuthSrpWithMessage,
    /// Apple rejected the 2FA code.
    Bad2faCode,
    /// The account needs another step before it can sign in.
    ExtraStep,
    /// The 2FA methods of the account could not be had.
    FailedGetting2FAConfig,
    /// The account wants a hardware key.
    HardwareKeyError,
    /// A sign-in endpoint answered with an HTTP error. Reads like a rejected password; is not one.
    AuthSrp,
    /// A response could not be parsed.
    Parse,
    /// A response was no property list, such as an HTML error page.
    PlistError,
    /// The provisioning data were refused.
    HappyBirthdayError,
    /// Any other failure of the transport or of the provisioning.
    Other,
}

/// A failed login: its kind, and the error's own words.
pub struct AuthError {
    pub kind: AuthFailure,
    pub text: String,
}

/// Whether Apple looked at the credentials and said no.
pub open spec fn credentials_judged(kind: AuthFailure) -> bool {
    kind == AuthFailure::AuthSrpWithMessage || kind == AuthFailure::Bad2faCode
}

/// Whether the credentials are fine but the state of the account blocks the login.
pub open spec fn account_blocks(kind: AuthFailure) -> bool {
    ||| kind == AuthFailure::ExtraStep
    ||| kind == AuthFailure::FailedGetting2FAConfig
    ||| kind == AuthFailure::HardwareKeyError
}

/// What a failed login means for the user: only a judged credential is a bad one, a blocked
/// account carries Apple's own words, and everything else is a failure upstream.
pub open spec fn login_verdict(kind: AuthFailure, text: Seq<char>) -> ErrorView {
    if credentials_judged(kind) {
        ErrorView::BadCredentials("Apple sign-in failed: "@ + text)
    } else if account_blocks(kind) {
        ErrorView::Apple("Apple sign-in failed: "@ + text)
    } else {
        ErrorView::Apple(LOGIN_UPSTREAM@)
    }
}

/// The pipeline error that a failed login becomes.
pub fn login_error(e: &AuthError) -> (r: PipelineError)
    ensures
        r@ == login_verdict(e.kind, e.text@),
{
    match e.kind {
        AuthFailure::AuthSrpWithMessage | AuthFailure::Bad2faCode => {
            PipelineError::BadCredentials(joined("Apple sign-in failed: ", e.text.as_str()))
        },
        AuthFailure::ExtraStep
        | AuthFailure::FailedGetting2FAConfig
        | AuthFailure::HardwareKeyError => {
            PipelineError::Apple(joined("Apple sign-in failed: ", e.text.as_str()))
        },
        AuthFailure::AuthSrp
        | AuthFailure::Parse
        | AuthFailure::PlistError
        | AuthFailure::HappyBirthdayError
        | AuthFailure::Other => PipelineError::Apple(LOGIN_UPSTREAM.to_string()),
    }
}

/// `a` followed by `b`.
pub fn joined(a: &str, b: &str) -> (r: String)
    ensures
        r@ == a@ + b@,
{
    let mut out = a.to_string();
    out.append(b);
    out
}

/// Supplies the inputs that arrive in the middle of a run. An empty 2FA code makes the login fail.
pub trait Interact: Send + Sync {
    /// The 2FA code.
    fn get_2fa_code(&self) -> String;

    /// The position of the device that the user picks.
    fn choose_bottle(&self, devices: &[DeviceInfo]) -> Result<usize, PipelineError>;

    /// The passcode of the device that was picked.
    fn get_passcode(&self) -> Result<String, PipelineError>;

    /// A join failed in a way that another device can get past, and the pipeline is about to ask
    /// again: the next `choose_bottle` is the retry.
    fn join_retryable(&self, _error: &'static str, _detail: &str) {
    }
}

/// The control characters.
pub open spec fn is_control(c: char) -> bool {
    let n = c as u32;
    n <= 0x1f || 0x7f <= n <= 0x9f
}

/// `s` with every control character replaced.
pub open spec fn sanitized(s: Seq<char>) -> Seq<char> {
    s.map_values(|c: char| if is_control(c) { '\u{fffd}' } else { c })
}

/// Replaces the control characters of anything that goes into a log line: a newline would end the
/// record, and start one that whoever wrote the text makes up.
pub fn sanitize(s: &str) -> (r: String)
    ensures
        r@ == sanitized(s@),
{
    let chars = chars_of(s);
    let mut out = String::new();
    for i in 0..chars.len()
        invariant
            chars@ == s@,
            out@ == sanitized(s@).take(i as int),
    {
        let c = chars[i];
        let n: u32 = c as u32;
        if n <= 0x1f || (0x7f <= n && n <= 0x9f) {
            out.push('\u{fffd}');
        } else {
            out.push(c);
        }
        assert(out@ =~= sanitized(s@).take(i + 1));
    }
    assert(sanitized(s@).take(s@.len() as int) =~= sanitized(s@));
    out
}

/// Whether a text stays on one line: it holds no control character.
pub open spec fn one_line(s: Seq<char>) -> bool {
    forall|i: int| 0 <= i < s.len() ==> !is_control(#[trigger] s[i])
}

/// Whatever goes through `sanitize` stays on one line, keeps its length, and keeps every character
/// that is no control character; a second pass changes nothing.
pub proof fn law_sanitized(s: Seq<char>)
    ensures
        one_line(sanitized(s)),
        sanitized(s).len() == s.len(),
        forall|i: int| 0 <= i < s.len() && !is_control(s[i]) ==> #[trigger] sanitized(s)[i] == s[i],
        one_line(s) ==> sanitized(s) == s,
        sanitized(sanitized(s)) == sanitized(s),
{
    assert(one_line(s) ==> sanitized(s) =~= s);
    assert(sanitized(sanitized(s)) =~= sanitized(s));
}

/// A line of the pipeline's log: whose run it is, and which attempt.
pub open spec fn log_line_text(
    apple_id: Seq<char>,
    session: Seq<char>,
    message: Seq<char>,
) -> Seq<char> {
    "["@ + sanitized(apple_id) + "] [sess="@ + session + "] "@ + message
}

/// A line of the pipeline's log. The Apple ID is the caller's, so it is sanitized.
pub fn log_line(apple_id: &str, session: &str, message: &str) -> (r: String)
    ensures
        r@ == log_line_text(apple_id@, session@, message@),
{
    let mut line = "[".to_string();
    line.append(sanitize(apple_id).as_str());
    line.append("] [sess=");
    line.append(session);
    line.append("] ");
    line.append(message);
    line
}

/// No caller can forge a log record: whatever the Apple ID holds, the line stays one line where
/// the tag and the message do.
pub proof fn law_log_line_cannot_be_forged(
    apple_id: Seq<char>,
    session: Seq<char>,
    message: Seq<char>,
)
    requires
        one_line(session),
        one_line(message),
    ensures
        one_line(log_line_text(apple_id, session, message)),
{
    law_sanitized(apple_id);
    reveal_strlit("[");
    reveal_strlit("] [sess=");
    reveal_strlit("] ");
    lemma_one_line_add("["@, sanitized(apple_id));
    lemma_one_line_add("["@ + sanitized(apple_id), "] [sess="@);
    lemma_one_line_add("["@ + sanitized(apple_id) + "] [sess="@, session);
    lemma_one_line_add("["@ + sanitized(apple_id) + "] [sess="@ + session, "] "@);
    lemma_one_line_add("["@ + sanitized(apple_id) + "] [sess="@ + session + "] "@, message);
}

proof fn lemma_one_line_add(a: Seq<char>, b: Seq<char>)
    requires
        one_line(a),
        one_line(b),
    ensures
        one_line(a + b),
{
    assert forall|i: int| 0 <= i < (a + b).len() implies !is_control(#[trigger] (a + b)[i]) by {
        if i < a.len() {
            assert((a + b)[i] == a[i]);
        } else {
            assert((a + b)[i] == b[i - a.len()]);
        }
    }
}

/// A device in a log line: its name, model and serial.
pub open spec fn device_text(d: DeviceView) -> Seq<char> {
    sanitized(d.name) + " ("@ + sanitized(d.model) + ") ["@ + sanitized(d.serial) + "]"@
}

fn push_device(out: &mut String, d: &DeviceInfo)
    ensures
        final(out)@ == old(out)@ + device_text(d@),
{
    out.append(sanitize(d.name.as_str()).as_str());
    out.append(" (");
    out.append(sanitize(d.model.as_str()).as_str());
    out.append(") [");
    out.append(sanitize(d.serial.as_str()).as_str());
    out.append("]");
    assert(out@ =~= old(out)@ + device_text(d@));
}

/// The line that lists one usable device.
pub open spec fn device_line_text(index: nat, d: DeviceView) -> Seq<char> {
    "    ["@ + decimal(index) + "] "@ + device_text(d)
}

/// The line that lists one usable device.
pub fn device_line(index: usize, d: &DeviceInfo) -> (r: String)
    ensures
        r@ == device_line_text(index as nat, d@),
{
    let mut line = "    [".to_string();
    push_decimal(&mut line, index as u64);
    line.append("] ");
    push_device(&mut line, d);
    line
}

/// The line that says which device is used, and how many characters its passcode has: a Mac wants
/// its login password where a phone wants a few digits. The passcode itself is never logged.
pub open spec fn choice_text(index: nat, d: DeviceView, passcode_chars: nat) -> Seq<char> {
    "  Using device ["@ + decimal(index) + "]: "@ + device_text(d) + ", passcode "@ + decimal(
        passcode_chars,
    ) + " chars"@
}

/// The line that says which device is used, with the length of its passcode in characters.
pub fn choice_line(index: usize, d: &DeviceInfo, passcode: &str) -> (r: String)
    ensures
        r@ == choice_text(index as nat, d@, passcode@.len()),
{
    let mut line = "  Using device [".to_string();
    push_decimal(&mut line, index as u64);
    line.append("]: ");
    push_device(&mut line, d);
    line.append(", passcode ");
    push_decimal(&mut line, passcode.unicode_len() as u64);
    line.append(" chars");
    line
}

proof fn lemma_decimal_one_line(n: nat)
    ensures
        one_line(decimal(n)),
    decreases n,
{
    if n >= 10 {
        lemma_decimal_one_line(n / 10);
        lemma_one_line_add(decimal(n / 10), seq![digit((n % 10) as int)]);
        assert(decimal(n) =~= decimal(n / 10) + seq![digit((n % 10) as int)]);
    }
}

proof fn lemma_device_one_line(d: DeviceView)
    ensures
        one_line(device_text(d)),
{
    law_sanitized(d.name);
    law_sanitized(d.model);
    law_sanitized(d.serial);
    reveal_strlit(" (");
    reveal_strlit(") [");
    reveal_strlit("]");
    let a = sanitized(d.name) + " ("@;
    let b = a + sanitized(d.model);
    let c = b + ") ["@;
    let e = c + sanitized(d.serial);
    lemma_one_line_add(sanitized(d.name), " ("@);
    lemma_one_line_add(a, sanitized(d.model));
    lemma_one_line_add(b, ") ["@);
    lemma_one_line_add(c, sanitized(d.serial));
    lemma_one_line_add(e, "]"@);
}

/// No device can forge a log record: whatever its name, its model and its serial hold, the lines
/// that speak of it stay one line each.
pub proof fn law_device_lines_cannot_be_forged(index: nat, d: DeviceView, passcode_chars: nat)
    ensures
        one_line(device_line_text(index, d)),
        one_line(choice_text(index, d, passcode_chars)),
{
    lemma_decimal_one_line(index);
    lemma_decimal_one_line(passcode_chars);
    lemma_device_one_line(d);
    reveal_strlit("    [");
    reveal_strlit("] ");
    let a = "    ["@ + decimal(index);
    let b = a + "] "@;
    lemma_one_line_add("    ["@, decimal(index));
    lemma_one_line_add(a, "] "@);
    lemma_one_line_add(b, device_text(d));
    reveal_strlit("  Using device [");
    reveal_strlit("]: ");
    reveal_strlit(", passcode ");
    reveal_strlit(" chars");
    let p = "  Using device ["@ + decimal(index);
    let q = p + "]: "@;
    let r = q + device_text(d);
    let s = r + ", passcode "@;
    let t = s + decimal(passcode_chars);
    lemma_one_line_add("  Using device ["@, decimal(index));
    lemma_one_line_add(p, "]: "@);
    lemma_one_line_add(q, device_text(d));
    lemma_one_line_add(r, ", passcode "@);
    lemma_one_line_add(s, decimal(passcode_chars));
    lemma_one_line_add(t, " chars"@);
}

/// The two identifiers of an account that the later stages need.
pub struct AccountIds {
    pub dsid: String,
    pub adsid: String,
}

/// The identifiers of an account.
pub struct AccountView {
    pub dsid: Seq<char>,
    pub adsid: Seq<char>,
}

impl View for AccountIds {
    type V = AccountView;

    open spec fn view(&self) -> AccountView {
        AccountView { dsid: self.dsid@, adsid: self.adsid@ }
    }
}

/// What an optional dictionary holds.
pub open spec fn spd_entries(spd: Option<plist::Dictionary>) -> Option<Entries> {
    match spd {
        Some(d) => Some(dictionary_entries(d)),
        None => None,
    }
}

/// What a login leaves behind: the identifiers, or which of them is missing.
pub open spec fn account_of(spd: Option<Entries>) -> Result<AccountView, ErrorView> {
    match spd {
        None => Err(ErrorView::Apple("No SPD after login"@)),
        Some(entries) => match unsigned_at(entries, "DsPrsId"@) {
            None => Err(ErrorView::Apple("No DsPrsId in SPD"@)),
            Some(dsid) => match text_at(entries, "adsid"@) {
                None => Err(ErrorView::Apple("No adsid in SPD"@)),
                Some(adsid) => Ok(AccountView { dsid: decimal(dsid), adsid }),
            },
        },
    }
}

/// Reads the identifiers of the account from the server-provided data of a login.
pub fn account_ids(spd: &Option<plist::Dictionary>) -> (r: Result<AccountIds, PipelineError>)
    ensures
        match r {
            Ok(ids) => account_of(spd_entries(*spd)) == Ok::<AccountView, ErrorView>(ids@),
            Err(e) => account_of(spd_entries(*spd)) == Err::<AccountView, ErrorView>(e@),
        },
{
    match spd {
        None => Err(PipelineError::Apple("No SPD after login".to_string())),
        Some(d) => match get_unsigned(d, "DsPrsId") {
            None => Err(PipelineError::Apple("No DsPrsId in SPD".to_string())),
            Some(n) => match get_text(d, "adsid") {
                None => Err(PipelineError::Apple("No adsid in SPD".to_string())),
                Some(adsid) => {
                    let mut dsid = String::new();
                    push_decimal(&mut dsid, n);
                    assert(dsid@ =~= decimal(n as nat));
                    Ok(AccountIds { dsid, adsid })
                },
            },
        },
    }
}

/// A failed trust-circle join: whether it was a signature check, and the error's own words.
pub struct JoinFailure {
    /// A signature did not verify. That is reached only after the passcode opened the bottle.
    pub bad_msg: bool,
    /// The error as it displays itself.
    pub text: String,
    /// The error with the name of its variant.
    pub debug: String,
}

/// A failed join, with the beginning of the last checkpoint that it reached, and the signature
/// check that it stood before.
pub struct JoinFailureView {
    pub bad_msg: bool,
    pub text: Seq<char>,
    pub debug: Seq<char>,
    pub reached: Option<Seq<char>>,
    pub check: Option<Seq<char>>,
}

/// How Apple labels a failure to deposit the new escrow record.
pub const CLUB_LABEL: &'static str = "CLUBH ERROR";

impl JoinFailureView {
    /// Whether Apple labelled the failure as one of the second escrow stage, which deposits the
    /// new record once the passcode has been accepted.
    pub open spec fn is_club(self) -> bool {
        occurs(CLUB_LABEL@, self.text) || occurs(CLUB_LABEL@, self.debug)
    }
}

/// The signature that a join checks next, given the last checkpoint. Before the first checkpoint
/// that is the bottle's own.
pub open spec fn check_after(reached: Option<Checkpoint>) -> Option<Seq<char>> {
    match reached {
        Some(c) => c.check(),
        None => Some("the escrow bottle's own escrowed-key signature"@),
    }
}

impl JoinFailure {
    /// The failure, seen from the last checkpoint that the join reached.
    pub open spec fn at(self, reached: Option<Checkpoint>) -> JoinFailureView {
        JoinFailureView {
            bad_msg: self.bad_msg,
            text: self.text@,
            debug: self.debug@,
            reached: match reached {
                Some(c) => Some(c.start()),
                None => None,
            },
            check: check_after(reached),
        }
    }
}

/// The name of the signature that failed, or `None` where the join checks none after the
/// checkpoint: naming one would be a guess.
pub fn failing_signature(reached: &Option<Checkpoint>) -> (r: Option<&'static str>)
    ensures
        text_of(r) == check_after(*reached),
{
    match reached {
        Some(c) => c.verifies(),
        None => Some("the escrow bottle's own escrowed-key signature"),
    }
}

/// What the user is told of a failed signature check: which one, that the passcode was right, and
/// the way out, which depends on whether there is another device to switch to.
pub open spec fn signature_detail(check: Option<Seq<char>>, devices: nat) -> Seq<char> {
    "Joining the keychain trust circle failed a signature check on "@ + (match check {
        Some(what) => what,
        None => "an unidentified signature"@,
    }) + ". This is not a wrong passcode — the device passcode already worked. "@ + (if devices
        >= 2 {
        "Try connecting with a different trusted device."@
    } else {
        "There is no other trusted device on this account to connect with."@
    })
}

fn signature_message(check: Option<&'static str>, devices: usize) -> (r: String)
    ensures
        r@ == signature_detail(text_of(check), devices as nat),
{
    let mut out = "Joining the keychain trust circle failed a signature check on ".to_string();
    match check {
        Some(what) => {
            out.append(what);
        },
        None => {
            out.append("an unidentified signature");
        },
    }
    out.append(". This is not a wrong passcode — the device passcode already worked. ");
    if devices >= 2 {
        out.append("Try connecting with a different trusted device.");
    } else {
        out.append("There is no other trusted device on this account to connect with.");
    }
    out
}

/// What a failed join means: a signature check that failed, a failure past the passcode check, or
/// else, most likely, a wrong passcode.
pub open spec fn join_verdict(failure: JoinFailureView, devices: nat) -> ErrorView {
    if failure.bad_msg {
        ErrorView::TrustCircleSignature(signature_detail(failure.check, devices))
    } else if failure.is_club() {
        ErrorView::EscrowClub(
            "Apple's escrow service failed after it had accepted the passcode: "@ + failure.text
                + ". Nothing you entered was wrong — please start the connection again."@,
        )
    } else {
        ErrorView::BadPasscode(
            "Joining the keychain trust circle failed (wrong passcode?): "@ + failure.text,
        )
    }
}

/// The pipeline error that a failed join becomes, if it ends the attempt.
pub fn join_error(
    failure: &JoinFailure,
    reached: &Option<Checkpoint>,
    devices: usize,
) -> (r: PipelineError)
    ensures
        r@ == join_verdict(failure.at(*reached), devices as nat),
{
    if failure.bad_msg {
        return PipelineError::TrustCircleSignature(
            signature_message(failing_signature(reached), devices),
        );
    }
    if contains(failure.text.as_str(), CLUB_LABEL) || contains(failure.debug.as_str(), CLUB_LABEL) {
        let mut out =
            "Apple's escrow service failed after it had accepted the passcode: ".to_string();
        out.append(failure.text.as_str());
        out.append(". Nothing you entered was wrong — please start the connection again.");
        return PipelineError::EscrowClub(out);
    }
    PipelineError::BadPasscode(
        joined(
            "Joining the keychain trust circle failed (wrong passcode?): ",
            failure.text.as_str(),
        ),
    )
}

/// Whether a failed join is answered by asking for another device: only a failed signature check
/// is, and only while attempts are left and there is another device to ask for.
pub open spec fn join_retries(failure: JoinFailureView, attempt: nat, devices: nat) -> bool {
    failure.bad_msg && attempt < MAX_JOIN_ATTEMPTS && devices >= 2
}

/// The error for a device index that is not one of the list.
pub open spec fn bad_index(index: nat, devices: nat) -> ErrorView {
    ErrorView::BadDeviceIndex(
        "Invalid device index "@ + decimal(index) + ". Must be 0-"@ + decimal(
            if devices == 0 {
                0
            } else {
                (devices - 1) as nat
            },
        ) + "."@,
    )
}

/// Checks the device index that an input gave.
pub fn check_index(index: usize, devices: usize) -> (r: Result<usize, PipelineError>)
    ensures
        match r {
            Ok(i) => i == index && index < devices,
            Err(e) => index >= devices && e@ == bad_index(index as nat, devices as nat),
        },
{
    if index < devices {
        return Ok(index);
    }
    let last: usize = if devices == 0 {
        0
    } else {
        devices - 1
    };
    let mut out = "Invalid device index ".to_string();
    push_decimal(&mut out, index as u64);
    out.append(". Must be 0-");
    push_decimal(&mut out, last as u64);
    out.append(".");
    Err(PipelineError::BadDeviceIndex(out))
}

/// A login that failed before Apple judged the credentials never blames them, and a judged one
/// always does, in Apple's own words.
pub proof fn law_only_a_judged_credential_is_blamed(kind: AuthFailure, text: Seq<char>)
    ensures
        login_verdict(kind, text) is BadCredentials <==> credentials_judged(kind),
        !credentials_judged(kind) ==> login_verdict(kind, text).code() == "apple_error"@,
        credentials_judged(kind) || account_blocks(kind) ==> occurs(
            text,
            login_verdict(kind, text).message(),
        ),
        !credentials_judged(kind) && !account_blocks(kind) ==> login_verdict(kind, text).message()
            == LOGIN_UPSTREAM@,
{
    if credentials_judged(kind) || account_blocks(kind) {
        let start = "Apple sign-in failed: "@;
        let at = start.len() as int;
        assert((start + text).subrange(at, at + text.len()) =~= text);
    }
}

/// A join that failed past the passcode check never blames the passcode: neither a failed
/// signature check, nor a failure that Apple labels as one of the second escrow stage.
pub proof fn law_accepted_passcode_is_not_blamed(failure: JoinFailureView, devices: nat)
    requires
        failure.bad_msg || failure.is_club(),
    ensures
        !(join_verdict(failure, devices) is BadPasscode),
        failure.bad_msg ==> join_verdict(failure, devices).code() == TRUST_CIRCLE_SIGNATURE@,
        !failure.bad_msg ==> join_verdict(failure, devices).code() == "escrow_club"@,
{
}

/// A failed signature check tells the user to try another device exactly where the account has one.
pub proof fn law_advice_fits_the_account(check: Option<Seq<char>>, devices: nat)
    ensures
        "Try connecting with a different trusted device."@.is_suffix_of(
            signature_detail(check, devices),
        ) <==> devices >= 2,
        "There is no other trusted device on this account to connect with."@.is_suffix_of(
            signature_detail(check, devices),
        ) <==> devices < 2,
{
    let other = "Try connecting with a different trusted device."@;
    let none = "There is no other trusted device on this account to connect with."@;
    reveal_strlit("Try connecting with a different trusted device.");
    reveal_strlit("There is no other trusted device on this account to connect with.");
    let detail = signature_detail(check, devices);
    let n = detail.len() as int;
    let head = detail.take(n - (if devices >= 2 { other.len() } else { none.len() }));
    assert(devices >= 2 ==> detail =~= head + other);
    assert(devices < 2 ==> detail =~= head + none);
    if other.is_suffix_of(detail) {
        assert(detail.subrange(n - other.len(), n)[45] == other[45]);
    }
    if none.is_suffix_of(detail) {
        assert(detail.subrange(n - none.len(), n)[63] == none[63]);
    }
}

/// Lists are seen as they are: nothing is added, left out or moved.
pub proof fn law_devices_and_beacons_are_seen_in_full(
    devices: Seq<DeviceInfo>,
    beacons: Seq<BeaconExport>,
)
    ensures
        device_views(devices).len() == devices.len(),
        forall|i: int|
            0 <= i < devices.len() ==> {
                let d = #[trigger] device_views(devices)[i];
                &&& d.serial == devices[i].serial@
                &&& d.name == devices[i].name@
                &&& d.model == devices[i].model@
            },
        beacon_views(beacons).len() == beacons.len(),
        forall|i: int| 0 <= i < beacons.len() ==> #[trigger] beacon_views(beacons)[i]
            == beacons[i]@,
{
}

/// An accessory is seen with every one of its fields.
pub proof fn law_a_beacon_is_seen_in_full(b: BeaconExport)
    ensures
        b@.identifier == b.identifier@,
        b@.name == b.name@,
        b@.emoji == b.emoji@,
        b@.model == b.model@,
        b@.private_key == b.private_key@,
        b@.shared_secret == b.shared_secret@,
        b@.secondary_shared_secret == match b.secondary_shared_secret {
            Some(v) => Some(v@),
            None => None,
        },
        b@.secure_locations_shared_secret == match b.secure_locations_shared_secret {
            Some(v) => Some(v@),
            None => None,
        },
        b@.public_key == match b.public_key {
            Some(v) => Some(v@),
            None => None,
        },
        b@.pairing_date == match b.pairing_date {
            Some(t) => Some(t@),
            None => None,
        },
{
}

/// An error is seen as what it is, with the text that it carries.
pub proof fn law_an_error_is_seen_in_full(e: PipelineError)
    ensures
        match e {
            PipelineError::BadCredentials(m) => e@ == ErrorView::BadCredentials(m@),
            PipelineError::BadPasscode(m) => e@ == ErrorView::BadPasscode(m@),
            PipelineError::TrustCircleSignature(m) => e@ == ErrorView::TrustCircleSignature(m@),
            PipelineError::EscrowClub(m) => e@ == ErrorView::EscrowClub(m@),
            PipelineError::BadDeviceIndex(m) => e@ == ErrorView::BadDeviceIndex(m@),
            PipelineError::NoBottles => e@ == ErrorView::NoBottles,
            PipelineError::Apple(m) => e@ == ErrorView::Apple(m@),
            PipelineError::Aborted => e@ == ErrorView::Aborted,
        },
{
}

/// The device that metadata describe: its serial is the bottle's; its name is the one recorded, or
/// the serial; its model is the class where one was recorded, or else the model, or nothing.
pub proof fn law_a_device_is_what_its_metadata_say(serial: Seq<char>, entries: Entries)
    ensures
        ({
            let d = device_of(serial, entries);
            let text = |k: Seq<char>| entries.contains_key(k) && entries[k] is Text;
            &&& d.serial == serial
            &&& text("device_name"@) ==> entries["device_name"@] == Entry::Text(d.name)
            &&& !text("device_name"@) ==> d.name == serial
            &&& text("device_model_class"@) ==> entries["device_model_class"@] == Entry::Text(
                d.model,
            )
            &&& !text("device_model_class"@) && text("device_model"@) ==> entries["device_model"@]
                == Entry::Text(d.model)
            &&& !text("device_model_class"@) && !text("device_model"@) ==> d.model.len() == 0
        }),
{
}

/// The identifiers of an account are those that the login left: the number under `DsPrsId` in
/// decimal, and the text under `adsid`. Where one is missing the failure says which.
pub proof fn law_account_identifiers_come_from_the_login(spd: Option<Entries>)
    ensures
        match spd {
            None => account_of(spd) == Err::<AccountView, ErrorView>(
                ErrorView::Apple("No SPD after login"@),
            ),
            Some(entries) => {
                let number = entries.contains_key("DsPrsId"@) && entries["DsPrsId"@] is Unsigned;
                let text = entries.contains_key("adsid"@) && entries["adsid"@] is Text;
                &&& account_of(spd) is Ok <==> number && text
                &&& account_of(spd) matches Ok(ids) ==> {
                    &&& entries["DsPrsId"@] == Entry::Unsigned(digits_value(ids.dsid))
                    &&& ids.dsid == decimal(digits_value(ids.dsid))
                    &&& entries["adsid"@] == Entry::Text(ids.adsid)
                }
                &&& !number ==> account_of(spd) == Err::<AccountView, ErrorView>(
                    ErrorView::Apple("No DsPrsId in SPD"@),
                )
                &&& number && !text ==> account_of(spd) == Err::<AccountView, ErrorView>(
                    ErrorView::Apple("No adsid in SPD"@),
                )
            },
        },
{
    if let Some(entries) = spd {
        if let Some(n) = unsigned_at(entries, "DsPrsId"@) {
            law_decimal_writes_the_number(n);
        }
    }
}

/// An error says what it carries, whole, and its code goes by its kind alone.
pub proof fn law_an_error_says_what_it_carries(m: Seq<char>)
    ensures
        ErrorView::BadCredentials(m).message() == m,
        ErrorView::BadPasscode(m).message() == m,
        ErrorView::TrustCircleSignature(m).message() == m,
        ErrorView::EscrowClub(m).message() == m,
        ErrorView::BadDeviceIndex(m).message() == m,
        ErrorView::Apple(m).message() == m,
        ErrorView::BadCredentials(m).code() == "bad_credentials"@,
        ErrorView::BadPasscode(m).code() == "bad_passcode"@,
        ErrorView::TrustCircleSignature(m).code() == "trust_circle_signature"@,
        ErrorView::EscrowClub(m).code() == "escrow_club"@,
        ErrorView::BadDeviceIndex(m).code() == "bad_device_index"@,
        ErrorView::NoBottles.code() == "no_bottles"@,
        ErrorView::Apple(m).code() == "apple_error"@,
        ErrorView::Aborted.code() == "session_expired"@,
        ErrorView::NoBottles.message().len() > 0,
        ErrorView::Aborted.message().len() > 0,
{
    reveal_strlit("No escrow bottles found. Make sure you have another trusted device.");
    reveal_strlit("The connection attempt was cancelled.");
}

/// What a failed login comes to: only a rejected password or code is a bad credential; it and a
/// blocked account are told in Apple's own words, to the end; all else is a failure upstream.
pub proof fn law_a_failed_login_is_told_in_apples_words(kind: AuthFailure, text: Seq<char>)
    ensures
        kind == AuthFailure::AuthSrpWithMessage || kind == AuthFailure::Bad2faCode
            ==> login_verdict(kind, text) == ErrorView::BadCredentials(
            "Apple sign-in failed: "@ + text,
        ),
        kind == AuthFailure::ExtraStep || kind == AuthFailure::FailedGetting2FAConfig || kind
            == AuthFailure::HardwareKeyError ==> login_verdict(kind, text) == ErrorView::Apple(
            "Apple sign-in failed: "@ + text,
        ),
        kind == AuthFailure::AuthSrp || kind == AuthFailure::Parse || kind
            == AuthFailure::PlistError || kind == AuthFailure::HappyBirthdayError || kind
            == AuthFailure::Other ==> login_verdict(kind, text) == ErrorView::Apple(
            LOGIN_UPSTREAM@,
        ),
        credentials_judged(kind) <==> kind == AuthFailure::AuthSrpWithMessage || kind
            == AuthFailure::Bad2faCode,
{
}

/// The control characters are those of the two control blocks of Unicode and the delete character,
/// and no others; sanitizing replaces each of them and keeps every other character in its place.
pub proof fn law_sanitizing_replaces_control_characters_alone(s: Seq<char>, i: int)
    requires
        0 <= i < s.len(),
    ensures
        sanitized(s).len() == s.len(),
        ({
            let n = s[i] as int;
            let control = n < 0x20 || n == 0x7f || 0x80 <= n < 0xa0;
            &&& is_control(s[i]) <==> control
            &&& control ==> sanitized(s)[i] == '\u{fffd}'
            &&& !control ==> sanitized(s)[i] == s[i]
        }),
        one_line(s) ==> !is_control(s[i]),
{
    lemma_control(s[i]);
}

proof fn lemma_control(c: char)
    ensures
        ({
            let n = c as int;
            is_control(c) <==> n < 0x20 || n == 0x7f || 0x80 <= n < 0xa0
        }),
{
}

/// A log line holds the account, the tag and the message, in that order, each of them whole, and
/// no more than the brackets around them.
pub proof fn law_a_log_line_holds_its_parts(
    apple_id: Seq<char>,
    session: Seq<char>,
    message: Seq<char>,
)
    ensures
        ({
            let line = log_line_text(apple_id, session, message);
            let to = 1 + sanitized(apple_id).len() as int;
            let end = to + 8 + session.len();
            &&& line.len() == end + 2 + message.len()
            &&& line[0] == '['
            &&& line.subrange(1, to) == sanitized(apple_id)
            &&& line.subrange(to, to + 8) == "] [sess="@
            &&& line.subrange(to + 8, end) == session
            &&& line.subrange(end, end + 2) == "] "@
            &&& line.skip(end + 2) == message
        }),
{
    reveal_strlit("[");
    reveal_strlit("] [sess=");
    reveal_strlit("] ");
    let line = log_line_text(apple_id, session, message);
    let to = 1 + sanitized(apple_id).len() as int;
    let end = to + 8 + session.len();
    assert(line.subrange(1, to) =~= sanitized(apple_id));
    assert(line.subrange(to, to + 8) =~= "] [sess="@);
    assert(line.subrange(to + 8, end) =~= session);
    assert(line.subrange(end, end + 2) =~= "] "@);
    assert(line.skip(end + 2) =~= message);
}

/// A line about a device names its position, its name, its model and its serial, each of them
/// whole; the line about the device in use ends with the length of the passcode.
pub proof fn law_device_lines_name_the_device(index: nat, d: DeviceView, passcode_chars: nat)
    ensures
        ({
            let device = sanitized(d.name) + " ("@ + sanitized(d.model) + ") ["@ + sanitized(
                d.serial,
            ) + "]"@;
            &&& device_line_text(index, d) == "    ["@ + decimal(index) + "] "@ + device
            &&& choice_text(index, d, passcode_chars) == "  Using device ["@ + decimal(index)
                + "]: "@ + device + ", passcode "@ + decimal(passcode_chars) + " chars"@
        }),
{
}

/// The signature that failed is the one that the join checks after the last checkpoint that it
/// reached, and before the first one the bottle's own.
pub proof fn law_the_failing_signature_goes_by_the_checkpoint(
    failure: JoinFailure,
    reached: Option<Checkpoint>,
)
    ensures
        ({
            let seen = failure.at(reached);
            &&& seen.bad_msg == failure.bad_msg
            &&& seen.text == failure.text@
            &&& seen.debug == failure.debug@
            &&& reached matches Some(c) ==> seen.reached == Some(c.start()) && seen.check
                == c.check()
            &&& reached is None ==> seen.reached is None && seen.check == Some(
                "the escrow bottle's own escrowed-key signature"@,
            )
        }),
{
}

/// What a failed join comes to. A failed signature check is told with the signature's own name,
/// says that the passcode was right, and names the way out that the account has. A failure that
/// Apple labels as one of the second escrow stage is told in Apple's words. Any other may be the
/// passcode.
pub proof fn law_a_failed_join_is_told_by_its_cause(failure: JoinFailureView, devices: nat)
    ensures
        ({
            let verdict = join_verdict(failure, devices);
            let club = occurs("CLUBH ERROR"@, failure.text) || occurs(
                "CLUBH ERROR"@,
                failure.debug,
            );
            let way_out = if devices >= 2 {
                "Try connecting with a different trusted device."@
            } else {
                "There is no other trusted device on this account to connect with."@
            };
            let told = |what: Seq<char>|
                "Joining the keychain trust circle failed a signature check on "@ + what
                    + ". This is not a wrong passcode — the device passcode already worked. "@
                    + way_out;
            &&& verdict is TrustCircleSignature <==> failure.bad_msg
            &&& failure.bad_msg ==> verdict.message() == told(
                match failure.check {
                    Some(what) => what,
                    None => "an unidentified signature"@,
                },
            )
            &&& verdict is EscrowClub <==> !failure.bad_msg && club
            &&& verdict is EscrowClub ==> verdict.message()
                == "Apple's escrow service failed after it had accepted the passcode: "@
                + failure.text
                + ". Nothing you entered was wrong — please start the connection again."@
            &&& verdict is BadPasscode <==> !failure.bad_msg && !club
            &&& verdict is BadPasscode ==> verdict.message()
                == "Joining the keychain trust circle failed (wrong passcode?): "@ + failure.text
        }),
{
}

/// Another device is asked for exactly where a signature check failed, fewer than three devices
/// have been tried, and the account has more than one.
pub proof fn law_when_a_join_is_retried(failure: JoinFailureView, attempt: nat, devices: nat)
    ensures
        join_retries(failure, attempt, devices) <==> failure.bad_msg && attempt < 3 && devices > 1,
{
}

/// A device index that is not one of the list is refused by its number, with the last one of the
/// list.
pub proof fn law_a_bad_index_is_named(index: nat, devices: nat)
    requires
        devices > 0,
    ensures
        bad_index(index, devices) == ErrorView::BadDeviceIndex(
            "Invalid device index "@ + decimal(index) + ". Must be 0-"@ + decimal(
                (devices - 1) as nat,
            ) + "."@,
        ),
        bad_index(index, 0) == bad_index(index, 1),
{
}

/// What a run is asked to do, and the account that it runs for, are seen with every one of their
/// fields, and so are the data that a login left, where it left any.
pub proof fn law_options_and_accounts_are_seen_in_full(
    opts: ExportOpts,
    ids: AccountIds,
    d: plist::Dictionary,
)
    ensures
        opts@.apple_id == opts.apple_id@,
        opts@.password == opts.password@,
        opts@.anisette_url == opts.anisette_url@,
        opts@.debug == opts.debug,
        opts@.session_id == opts.session_id@,
        ids@.dsid == ids.dsid@,
        ids@.adsid == ids.adsid@,
        spd_entries(Some(d)) == Some(dictionary_entries(d)),
        spd_entries(None) is None,
{
}

/// The names and the limits that the account sees: the serial of this tool's own device, the code
/// of a failed signature check, and the number of devices that may be tried.
pub proof fn law_names_and_limits()
    ensures
        FAKE_SERIAL@ == "F2LZN0FAKE00"@,
        TRUST_CIRCLE_SIGNATURE@ == "trust_circle_signature"@,
        CLUB_LABEL@ == "CLUBH ERROR"@,
        MAX_JOIN_ATTEMPTS == 3,
{
}

} // verus!
