//! The REST API around the pipeline: the steps of a session, what each request is answered, and
//! what becomes of the session.

use vstd::prelude::*;

use crate::encoding::{base64_encode, base64_fits, base64_text};
use crate::ids::{
    hex32, hyphenated, law_tag_is_a_prefix_of_the_session_id, session_id_text, tag,
};
use crate::json::{empty_object, members, put, Field, Member, Members};
use crate::pipeline::{
    bad_index, beacon_views, bytes_of, check_index, clone_devices, credentials_judged,
    device_views, join_verdict, login_verdict, string_of, AuthFailure, BeaconExport, BeaconView,
    DeviceInfo, DeviceView, ErrorView, ExportOpts, JoinFailureView, PipelineError,
    TRUST_CIRCLE_SIGNATURE,
};
use crate::text::{decimal, push_decimal, same_text};

verus! {

/// How long the pipeline waits on the user, in seconds.
pub const INPUT_TIMEOUT: u64 = 600;

/// How long a session may idle, in seconds.
pub const SESSION_TTL: u64 = 600;

/// How long a handler waits on Apple for the next step of the login, in seconds.
pub const START_TIMEOUT: u64 = 180;

/// How long a handler waits for the escrow join and the CloudKit sync, in seconds.
pub const EXPORT_TIMEOUT: u64 = 900;

/// How often idle sessions are looked for, in seconds.
pub const REAP_PERIOD: u64 = 60;

/// Why an input that the pipeline waited for never arrived.
#[derive(Clone, Copy, Debug, PartialEq, Eq, Structural)]
pub enum NoInput {
    /// The user wandered off.
    Timeout,
    /// The session was torn down: by the reaper, an abort or a restart.
    Disconnected,
}

/// Why an input never arrived, for the log: both cases look the same to the user.
pub open spec fn no_input_text(e: NoInput) -> Seq<char> {
    match e {
        NoInput::Timeout => "nothing submitted within "@ + decimal(INPUT_TIMEOUT as nat) + "s"@,
        NoInput::Disconnected => "the session was torn down while waiting"@,
    }
}

/// Why an input never arrived, for the log.
pub fn why_no_input(e: NoInput) -> (r: String)
    ensures
        r@ == no_input_text(e),
{
    match e {
        NoInput::Timeout => {
            let mut out = "nothing submitted within ".to_string();
            push_decimal(&mut out, INPUT_TIMEOUT);
            out.append("s");
            out
        },
        NoInput::Disconnected => "the session was torn down while waiting".to_string(),
    }
}

/// What became of a pipeline task that did not come to its end.
pub open spec fn join_failure_text(cancelled: bool, text: Seq<char>) -> Seq<char> {
    (if cancelled {
        "cancelled ("@
    } else {
        "panicked ("@
    }) + text + ")"@
}

/// What became of a pipeline task that did not come to its end. The error's own words carry the
/// panic's message, which is the only description of the failure that can be tied to its session.
pub fn join_failure(cancelled: bool, text: &str) -> (r: String)
    ensures
        r@ == join_failure_text(cancelled, text@),
{
    let mut out = if cancelled {
        "cancelled (".to_string()
    } else {
        "panicked (".to_string()
    };
    out.append(text);
    out.append(")");
    out
}

/// Where the pipeline of a session is.
#[derive(Debug, Clone)]
pub enum Step {
    /// Login has not yet decided whether 2FA is required.
    Starting,
    /// Waiting for the 2FA code.
    AwaitingTfa,
    /// Waiting for a device and its passcode.
    AwaitingEscrow { devices: Vec<DeviceInfo> },
    /// Waiting for another device, after the join failed for the one before it.
    AwaitingRetry { devices: Vec<DeviceInfo>, error: &'static str, detail: String, attempt: usize },
    /// At work on the escrow join or the CloudKit sync.
    Running,
    /// Finished, with these accessories.
    Done { beacons: Vec<BeaconExport> },
    /// Finished, with this failure.
    Failed { error: &'static str, detail: String },
}

/// Where the pipeline of a session is.
pub enum StepView {
    Starting,
    AwaitingTfa,
    AwaitingEscrow { devices: Seq<DeviceView> },
    AwaitingRetry { devices: Seq<DeviceView>, error: Seq<char>, detail: Seq<char>, attempt: nat },
    Running,
    Done { beacons: Seq<BeaconView> },
    Failed { error: Seq<char>, detail: Seq<char> },
}

impl View for Step {
    type V = StepView;

    open spec fn view(&self) -> StepView {
        match self {
            Step::Starting => StepView::Starting,
            Step::AwaitingTfa => StepView::AwaitingTfa,
            Step::AwaitingEscrow { devices } => StepView::AwaitingEscrow {
                devices: device_views(devices@),
            },
            Step::AwaitingRetry { devices, error, detail, attempt } => StepView::AwaitingRetry {
                devices: device_views(devices@),
                error: error@,
                detail: detail@,
                attempt: *attempt as nat,
            },
            Step::Running => StepView::Running,
            Step::Done { beacons } => StepView::Done { beacons: beacon_views(beacons@) },
            Step::Failed { error, detail } => StepView::Failed { error: error@, detail: detail@ },
        }
    }
}

impl StepView {
    /// The name of the step, as the API reports it.
    pub open spec fn name(self) -> Seq<char> {
        match self {
            StepView::Starting => "starting"@,
            StepView::AwaitingTfa => "awaiting_2fa"@,
            StepView::AwaitingEscrow { .. } => "awaiting_passcode"@,
            StepView::AwaitingRetry { .. } => "awaiting_passcode"@,
            StepView::Running => "running"@,
            StepView::Done { .. } => "done"@,
            StepView::Failed { .. } => "failed"@,
        }
    }

    /// Whether a device and its passcode can be posted.
    pub open spec fn takes_escrow(self) -> bool {
        self is AwaitingEscrow || self is AwaitingRetry
    }

    /// Which attempt at a device a post at this step is.
    pub open spec fn attempt(self) -> nat {
        match self {
            StepView::AwaitingRetry { attempt, .. } => attempt,
            _ => 1,
        }
    }

    /// Whether the JSON text of what is handed out can be written.
    pub open spec fn fits(self) -> bool {
        match self {
            StepView::Done { beacons } => all_fit(beacons),
            _ => true,
        }
    }
}

/// The name of a step, for logs: the one that the API reports.
pub fn step_name(s: &Step) -> (r: &'static str)
    ensures
        r@ == s@.name(),
{
    match s {
        Step::Starting => "starting",
        Step::AwaitingTfa => "awaiting_2fa",
        Step::AwaitingEscrow { .. } => "awaiting_passcode",
        Step::AwaitingRetry { .. } => "awaiting_passcode",
        Step::Running => "running",
        Step::Done { .. } => "done",
        Step::Failed { .. } => "failed",
    }
}

/// Whether the Base64 text of some optional bytes fits in a string.
pub open spec fn bytes_fit(bytes: Option<Seq<u8>>) -> bool {
    match bytes {
        Some(b) => base64_fits(b.len()),
        None => true,
    }
}

/// Whether the Base64 texts of an accessory's key material fit in strings.
pub open spec fn beacon_fits(b: BeaconView) -> bool {
    &&& base64_fits(b.private_key.len())
    &&& base64_fits(b.shared_secret.len())
    &&& bytes_fit(b.secondary_shared_secret)
    &&& bytes_fit(b.secure_locations_shared_secret)
    &&& bytes_fit(b.public_key)
}

/// Whether that holds of every accessory of a list.
pub open spec fn all_fit(beacons: Seq<BeaconView>) -> bool {
    forall|i: int| 0 <= i < beacons.len() ==> beacon_fits(#[trigger] beacons[i])
}

/// Whether the Base64 text of so many bytes fits in a string.
fn length_fits(n: usize) -> (r: bool)
    ensures
        r == base64_fits(n as nat),
{
    n as u128 <= isize::MAX as u128 / 4 * 3
}

fn optional_fits(bytes: &Option<Vec<u8>>) -> (r: bool)
    ensures
        r == bytes_fit(bytes_of(*bytes)),
{
    match bytes {
        Some(b) => length_fits(b.len()),
        None => true,
    }
}

/// Whether the Base64 texts of an accessory's key material fit in strings.
pub fn encodable(b: &BeaconExport) -> (r: bool)
    ensures
        r == beacon_fits(b@),
{
    length_fits(b.private_key.len()) && length_fits(b.shared_secret.len()) && optional_fits(
        &b.secondary_shared_secret,
    ) && optional_fits(&b.secure_locations_shared_secret) && optional_fits(&b.public_key)
}

/// Whether the JSON text of what a step hands out can be written.
pub fn step_fits(s: &Step) -> (r: bool)
    ensures
        r == s@.fits(),
{
    match s {
        Step::Done { beacons } => {
            for i in 0..beacons.len()
                invariant
                    s@ == (StepView::Done { beacons: beacon_views(beacons@) }),
                    forall|k: int|
                        0 <= k < i ==> beacon_fits(#[trigger] beacon_views(beacons@)[k]),
            {
                assert(beacon_views(beacons@)[i as int] == beacons@[i as int]@);
                if !encodable(&beacons[i]) {
                    return false;
                }
            }
            true
        },
        _ => true,
    }
}

/// The members of a device in the API's answers.
pub open spec fn device_members(d: DeviceView) -> Members {
    Members::empty().insert("serial"@, Member::Text(d.serial)).insert(
        "name"@,
        Member::Text(d.name),
    ).insert("model"@, Member::Text(d.model))
}

/// The JSON object of a device.
pub fn device_json(d: &DeviceInfo) -> (r: serde_json::Map<String, serde_json::Value>)
    ensures
        members(r) == device_members(d@),
{
    let mut object = empty_object();
    put(&mut object, "serial", Field::Text(d.serial.clone()));
    put(&mut object, "name", Field::Text(d.name.clone()));
    put(&mut object, "model", Field::Text(d.model.clone()));
    object
}

/// The devices of a list in the API's answers.
pub open spec fn devices_member(devices: Seq<DeviceView>) -> Member {
    Member::Objects(devices.map_values(|d: DeviceView| device_members(d)))
}

fn devices_field(devices: &Vec<DeviceInfo>) -> (r: Field)
    ensures
        r.member() == devices_member(device_views(devices@)),
{
    let mut objects: Vec<serde_json::Map<String, serde_json::Value>> = Vec::new();
    for i in 0..devices.len()
        invariant
            objects@.len() == i,
            forall|k: int|
                0 <= k < i ==> members(#[trigger] objects@[k]) == device_members(devices@[k]@),
    {
        objects.push(device_json(&devices[i]));
    }
    let field = Field::Objects(objects);
    assert(field.member()->Objects_0 =~= devices_member(device_views(devices@))->Objects_0);
    field
}

/// Key material in the API's answers: Base64, or `null` where there is none.
pub open spec fn key_member(bytes: Option<Seq<u8>>) -> Member {
    match bytes {
        Some(b) => Member::Text(base64_text(b)),
        None => Member::Null,
    }
}

fn key_field(bytes: &Option<Vec<u8>>) -> (r: Field)
    requires
        bytes_fit(bytes_of(*bytes)),
    ensures
        r.member() == key_member(bytes_of(*bytes)),
{
    match bytes {
        Some(b) => Field::Text(base64_encode(b)),
        None => Field::Null,
    }
}

/// An optional text in the API's answers.
pub open spec fn text_member(text: Option<Seq<char>>) -> Member {
    match text {
        Some(t) => Member::Text(t),
        None => Member::Null,
    }
}

/// The members of an accessory in the API's answers: its key material in Base64.
pub open spec fn beacon_members(b: BeaconView) -> Members {
    Members::empty().insert("identifier"@, Member::Text(b.identifier)).insert(
        "name"@,
        Member::Text(b.name),
    ).insert("emoji"@, Member::Text(b.emoji)).insert("model"@, Member::Text(b.model)).insert(
        "private_key"@,
        Member::Text(base64_text(b.private_key)),
    ).insert("shared_secret"@, Member::Text(base64_text(b.shared_secret))).insert(
        "secondary_shared_secret"@,
        key_member(b.secondary_shared_secret),
    ).insert(
        "secure_locations_shared_secret"@,
        key_member(b.secure_locations_shared_secret),
    ).insert("public_key"@, key_member(b.public_key)).insert(
        "pairing_date"@,
        text_member(b.pairing_date),
    )
}

/// The JSON object of an accessory.
pub fn beacon_json(b: &BeaconExport) -> (r: serde_json::Map<String, serde_json::Value>)
    requires
        beacon_fits(b@),
    ensures
        members(r) == beacon_members(b@),
{
    let mut object = empty_object();
    put(&mut object, "identifier", Field::Text(b.identifier.clone()));
    put(&mut object, "name", Field::Text(b.name.clone()));
    put(&mut object, "emoji", Field::Text(b.emoji.clone()));
    put(&mut object, "model", Field::Text(b.model.clone()));
    put(&mut object, "private_key", Field::Text(base64_encode(&b.private_key)));
    put(&mut object, "shared_secret", Field::Text(base64_encode(&b.shared_secret)));
    put(&mut object, "secondary_shared_secret", key_field(&b.secondary_shared_secret));
    put(
        &mut object,
        "secure_locations_shared_secret",
        key_field(&b.secure_locations_shared_secret),
    );
    put(&mut object, "public_key", key_field(&b.public_key));
    let date = match &b.pairing_date {
        Some(d) => Field::Text(d.clone()),
        None => Field::Null,
    };
    put(&mut object, "pairing_date", date);
    object
}

/// The accessories of a list in the API's answers.
pub open spec fn beacons_member(beacons: Seq<BeaconView>) -> Member {
    Member::Objects(beacons.map_values(|b: BeaconView| beacon_members(b)))
}

fn beacons_field(beacons: &Vec<BeaconExport>) -> (r: Field)
    requires
        all_fit(beacon_views(beacons@)),
    ensures
        r.member() == beacons_member(beacon_views(beacons@)),
{
    let mut objects: Vec<serde_json::Map<String, serde_json::Value>> = Vec::new();
    for i in 0..beacons.len()
        invariant
            all_fit(beacon_views(beacons@)),
            objects@.len() == i,
            forall|k: int|
                0 <= k < i ==> members(#[trigger] objects@[k]) == beacon_members(beacons@[k]@),
    {
        assert(beacon_views(beacons@)[i as int] == beacons@[i as int]@);
        objects.push(beacon_json(&beacons[i]));
    }
    let field = Field::Objects(objects);
    assert(field.member()->Objects_0 =~= beacons_member(beacon_views(beacons@))->Objects_0);
    field
}

/// The HTTP status of an error code.
pub open spec fn status_of(code: Seq<char>) -> u16 {
    if code == "bad_credentials"@ {
        401
    } else if code == "bad_passcode"@ || code == "bad_device_index"@ || code == "no_bottles"@ {
        400
    } else if code == "session_not_found"@ {
        404
    } else if code == "session_expired"@ {
        410
    } else if code == TRUST_CIRCLE_SIGNATURE@ {
        409
    } else {
        502
    }
}

/// The HTTP status of an error code.
pub fn status_for(code: &str) -> (r: u16)
    ensures
        r == status_of(code@),
{
    if same_text(code, "bad_credentials") {
        401
    } else if same_text(code, "bad_passcode") || same_text(code, "bad_device_index") || same_text(
        code,
        "no_bottles",
    ) {
        400
    } else if same_text(code, "session_not_found") {
        404
    } else if same_text(code, "session_expired") {
        410
    } else if same_text(code, TRUST_CIRCLE_SIGNATURE) {
        409
    } else {
        502
    }
}

/// An answer: its HTTP status and its JSON body.
#[derive(Debug)]
pub struct Reply {
    pub status: u16,
    pub body: serde_json::Map<String, serde_json::Value>,
}

/// An answer.
pub struct ReplyView {
    pub status: u16,
    pub body: Members,
}

impl View for Reply {
    type V = ReplyView;

    open spec fn view(&self) -> ReplyView {
        ReplyView { status: self.status, body: members(self.body) }
    }
}

/// The body of an error.
pub open spec fn error_members(code: Seq<char>, detail: Seq<char>) -> Members {
    Members::empty().insert("error"@, Member::Text(code)).insert("detail"@, Member::Text(detail))
}

/// The answer to a request that failed.
pub open spec fn error_reply(code: Seq<char>, detail: Seq<char>) -> ReplyView {
    ReplyView { status: status_of(code), body: error_members(code, detail) }
}

/// The answer to a request that failed.
pub fn error_response(code: &str, detail: String) -> (r: Reply)
    ensures
        r@ == error_reply(code@, detail@),
{
    let status = status_for(code);
    let mut body = empty_object();
    put(&mut body, "error", Field::Text(code.to_string()));
    put(&mut body, "detail", Field::Text(detail));
    Reply { status, body }
}

/// The answer to a request that arrives at the wrong point of the flow.
pub open spec fn wrong_step_reply() -> ReplyView {
    ReplyView {
        status: 409,
        body: error_members(
            "wrong_step"@,
            "This connection isn't ready for that step — start over."@,
        ),
    }
}

/// The answer to a request that arrives at the wrong point of the flow.
pub fn wrong_step() -> (r: Reply)
    ensures
        r@ == wrong_step_reply(),
{
    let detail = "This connection isn't ready for that step — start over.";
    let reply = error_response("wrong_step", detail.to_string());
    Reply { status: 409, body: reply.body }
}

/// Each error code has the status that the API promises: only a judged credential is a 401, only
/// what the user can mend is a 400, and a failure upstream is a 502.
pub proof fn law_status_of_each_error(e: ErrorView)
    ensures
        status_of(e.code()) == (match e {
            ErrorView::BadCredentials(_) => 401u16,
            ErrorView::BadPasscode(_) => 400,
            ErrorView::TrustCircleSignature(_) => 409,
            ErrorView::EscrowClub(_) => 502,
            ErrorView::BadDeviceIndex(_) => 400,
            ErrorView::NoBottles => 400,
            ErrorView::Apple(_) => 502,
            ErrorView::Aborted => 410,
        }),
        status_of("session_not_found"@) == 404,
        status_of("session_expired"@) == 410,
{
    reveal_strlit("bad_credentials");
    reveal_strlit("bad_passcode");
    reveal_strlit("bad_device_index");
    reveal_strlit("no_bottles");
    reveal_strlit("session_not_found");
    reveal_strlit("session_expired");
    reveal_strlit("trust_circle_signature");
    reveal_strlit("apple_error");
    reveal_strlit("escrow_club");
    // Lengths tell all but one pair apart.
    assert("bad_credentials"@.len() == 15 && "bad_credentials"@[0] == 'b');
    assert("session_expired"@.len() == 15 && "session_expired"@[0] == 's');
    assert("bad_passcode"@.len() == 12);
    assert("bad_device_index"@.len() == 16);
    assert("no_bottles"@.len() == 10);
    assert("session_not_found"@.len() == 17);
    assert("trust_circle_signature"@.len() == 22);
    assert("apple_error"@.len() == 11);
    assert("escrow_club"@.len() == 11);
}

/// The answer to the health check.
pub fn healthz() -> (r: Reply)
    ensures
        r.status == 200,
        r@.body == Members::empty().insert("status"@, Member::Text("ok"@)),
{
    let mut body = empty_object();
    put(&mut body, "status", Field::Text("ok".to_string()));
    Reply { status: 200, body }
}

/// The step of an optional step.
pub open spec fn step_view(s: Option<Step>) -> Option<StepView> {
    match s {
        Some(step) => Some(step@),
        None => None,
    }
}

/// What a new session is answered once login has decided on its first step: a 2FA challenge, the
/// devices where Apple skips 2FA, or a failure. The flag says whether the session is kept.
pub open spec fn start_reply(id: u128, first: Option<StepView>) -> (bool, ReplyView) {
    match first {
        Some(StepView::AwaitingTfa) => (
            true,
            ReplyView {
                status: 201,
                body: Members::empty().insert(
                    "session_id"@,
                    Member::Text(hyphenated(id, false)),
                ).insert("state"@, Member::Text("awaiting_2fa"@)),
            },
        ),
        Some(StepView::AwaitingEscrow { devices }) => (
            true,
            ReplyView {
                status: 201,
                body: Members::empty().insert(
                    "session_id"@,
                    Member::Text(hyphenated(id, false)),
                ).insert("state"@, Member::Text("awaiting_passcode"@)).insert(
                    "devices"@,
                    devices_member(devices),
                ),
            },
        ),
        Some(StepView::Failed { error, detail }) => (false, error_reply(error, detail)),
        _ => (false, error_reply("apple_error"@, "Timed out contacting Apple."@)),
    }
}

/// Decides the answer to a new session from login's first real step, or from none where the wait
/// for it ran out: whether the session is kept, the status and the body.
pub fn start_outcome(id: u128, outcome: Option<Step>) -> (r: (
    bool,
    u16,
    serde_json::Map<String, serde_json::Value>,
))
    ensures
        (r.0, ReplyView { status: r.1, body: members(r.2) }) == start_reply(id, step_view(outcome)),
{
    match outcome {
        Some(Step::AwaitingTfa) => {
            let mut body = empty_object();
            put(&mut body, "session_id", Field::Text(session_id_text(id)));
            put(&mut body, "state", Field::Text("awaiting_2fa".to_string()));
            (true, 201, body)
        },
        Some(Step::AwaitingEscrow { devices }) => {
            let mut body = empty_object();
            put(&mut body, "session_id", Field::Text(session_id_text(id)));
            put(&mut body, "state", Field::Text("awaiting_passcode".to_string()));
            put(&mut body, "devices", devices_field(&devices));
            (true, 201, body)
        },
        Some(Step::Failed { error, detail }) => {
            let reply = error_response(error, detail);
            (false, reply.status, reply.body)
        },
        _ => {
            let reply = error_response("apple_error", "Timed out contacting Apple.".to_string());
            (false, reply.status, reply.body)
        },
    }
}

/// What becomes of a session once a request has been answered.
#[derive(Clone, Copy, Debug, PartialEq, Eq, Structural)]
pub enum Fate {
    /// It goes on.
    Keep,
    /// It is over, and forgotten.
    Remove,
    /// It is over, and remembered as expired.
    Retire,
    /// Its pipeline is stopped, and it is remembered as expired.
    Abort,
}

/// An answer, and what becomes of the session.
pub struct Outcome {
    pub reply: Reply,
    pub fate: Fate,
}

/// An answer, and what becomes of the session.
pub struct OutcomeView {
    pub reply: ReplyView,
    pub fate: Fate,
}

impl View for Outcome {
    type V = OutcomeView;

    open spec fn view(&self) -> OutcomeView {
        OutcomeView { reply: self.reply@, fate: self.fate }
    }
}

/// What is answered where Apple let the wait run out.
pub open spec fn timed_out() -> OutcomeView {
    OutcomeView {
        reply: error_reply("apple_error"@, "Timed out waiting for Apple."@),
        fate: Fate::Abort,
    }
}

fn time_out() -> (r: Outcome)
    ensures
        r@ == timed_out(),
{
    let reply = error_response("apple_error", "Timed out waiting for Apple.".to_string());
    Outcome { reply, fate: Fate::Abort }
}

/// What a 2FA code is answered, from the step that the session then left it for.
pub open spec fn after_2fa(next: Option<StepView>) -> OutcomeView {
    match next {
        Some(StepView::AwaitingEscrow { devices }) => OutcomeView {
            reply: ReplyView {
                status: 200,
                body: Members::empty().insert(
                    "state"@,
                    Member::Text("awaiting_passcode"@),
                ).insert("devices"@, devices_member(devices)),
            },
            fate: Fate::Keep,
        },
        Some(StepView::Failed { error, detail }) => OutcomeView {
            reply: error_reply(error, detail),
            fate: Fate::Retire,
        },
        _ => timed_out(),
    }
}

/// Decides the answer to a 2FA code, from the step that came next, or from none where the wait for
/// it ran out.
pub fn tfa_outcome(next: Option<Step>) -> (r: Outcome)
    ensures
        r@ == after_2fa(step_view(next)),
{
    match next {
        Some(Step::AwaitingEscrow { devices }) => {
            let mut body = empty_object();
            put(&mut body, "state", Field::Text("awaiting_passcode".to_string()));
            put(&mut body, "devices", devices_field(&devices));
            Outcome { reply: Reply { status: 200, body }, fate: Fate::Keep }
        },
        Some(Step::Failed { error, detail }) => Outcome {
            reply: error_response(error, detail),
            fate: Fate::Retire,
        },
        _ => time_out(),
    }
}

/// The body that asks for another device: the session is still live.
pub open spec fn retry_members(
    devices: Seq<DeviceView>,
    error: Seq<char>,
    detail: Seq<char>,
) -> Members {
    error_members(error, detail).insert("retryable"@, Member::Flag(true)).insert(
        "state"@,
        Member::Text("awaiting_passcode"@),
    ).insert("devices"@, devices_member(devices))
}

/// What a device and its passcode are answered, from the step that came of them.
pub open spec fn after_escrow(next: Option<StepView>) -> OutcomeView {
    match next {
        Some(StepView::Done { beacons }) => OutcomeView {
            reply: ReplyView {
                status: 200,
                body: Members::empty().insert("state"@, Member::Text("done"@)).insert(
                    "beacons"@,
                    beacons_member(beacons),
                ),
            },
            fate: Fate::Remove,
        },
        Some(StepView::Failed { error, detail }) => OutcomeView {
            reply: error_reply(error, detail),
            fate: Fate::Retire,
        },
        Some(StepView::AwaitingRetry { devices, error, detail, attempt: _ }) => OutcomeView {
            reply: ReplyView {
                status: status_of(error),
                body: retry_members(devices, error, detail),
            },
            fate: Fate::Keep,
        },
        _ => timed_out(),
    }
}

/// Decides the answer to a device and its passcode, from the step that came of them, or from none
/// where the wait for it ran out.
pub fn escrow_outcome(next: Option<Step>) -> (r: Outcome)
    requires
        step_view(next) matches Some(s) ==> s.fits(),
    ensures
        r@ == after_escrow(step_view(next)),
{
    match next {
        Some(Step::Done { beacons }) => {
            let mut body = empty_object();
            put(&mut body, "state", Field::Text("done".to_string()));
            put(&mut body, "beacons", beacons_field(&beacons));
            Outcome { reply: Reply { status: 200, body }, fate: Fate::Remove }
        },
        Some(Step::Failed { error, detail }) => Outcome {
            reply: error_response(error, detail),
            fate: Fate::Retire,
        },
        Some(Step::AwaitingRetry { devices, error, detail, attempt: _ }) => {
            let reply = error_response(error, detail);
            let mut body = reply.body;
            put(&mut body, "retryable", Field::Flag(true));
            put(&mut body, "state", Field::Text("awaiting_passcode".to_string()));
            put(&mut body, "devices", devices_field(&devices));
            Outcome { reply: Reply { status: reply.status, body }, fate: Fate::Keep }
        },
        _ => time_out(),
    }
}

/// Whether login has decided on a first step.
pub fn has_started(s: &Step) -> (r: bool)
    ensures
        r == !(s@ is Starting),
{
    !matches!(s, Step::Starting)
}

/// Whether a session has moved on from the 2FA challenge.
pub fn has_left_2fa(s: &Step) -> (r: bool)
    ensures
        r == !(s@ is AwaitingTfa),
{
    !matches!(s, Step::AwaitingTfa)
}

/// Which attempt at a device a post at this step is.
pub fn attempt_at(s: &Step) -> (r: usize)
    ensures
        r == s@.attempt(),
{
    match s {
        Step::AwaitingRetry { attempt, .. } => *attempt,
        _ => 1,
    }
}

/// Whether a post that was attempt number `posted` has come to something: the end, or another
/// request for a device. The request that the post answers does not count.
pub open spec fn settled(s: StepView, posted: nat) -> bool {
    match s {
        StepView::Done { .. } => true,
        StepView::Failed { .. } => true,
        StepView::AwaitingRetry { attempt, .. } => attempt > posted,
        _ => false,
    }
}

/// Whether a post that was attempt number `posted` has come to something.
pub fn has_settled(s: &Step, posted: usize) -> (r: bool)
    ensures
        r == settled(s@, posted as nat),
{
    match s {
        Step::Done { .. } => true,
        Step::Failed { .. } => true,
        Step::AwaitingRetry { attempt, .. } => *attempt > posted,
        _ => false,
    }
}

/// The step that a pipeline which came to its end leaves behind, or one that was lost to a panic
/// or an abort. The user is told no more of a lost one than that it failed.
pub open spec fn last_step(result: Option<Result<Seq<BeaconView>, ErrorView>>) -> StepView {
    match result {
        Some(Ok(beacons)) => StepView::Done { beacons },
        Some(Err(e)) => StepView::Failed { error: e.code(), detail: e.message() },
        None => StepView::Failed {
            error: "apple_error"@,
            detail: "The export failed unexpectedly."@,
        },
    }
}

/// What a pipeline came to.
pub open spec fn result_view(
    result: Option<Result<Vec<BeaconExport>, PipelineError>>,
) -> Option<Result<Seq<BeaconView>, ErrorView>> {
    match result {
        Some(Ok(beacons)) => Some(Ok(beacon_views(beacons@))),
        Some(Err(e)) => Some(Err(e@)),
        None => None,
    }
}

/// The step that a pipeline leaves behind once its task is over.
pub fn final_step(result: Option<Result<Vec<BeaconExport>, PipelineError>>) -> (r: Step)
    ensures
        r@ == last_step(result_view(result)),
{
    match result {
        Some(Ok(beacons)) => Step::Done { beacons },
        Some(Err(e)) => Step::Failed { error: e.code(), detail: e.message() },
        None => Step::Failed {
            error: "apple_error",
            detail: "The export failed unexpectedly.".to_string(),
        },
    }
}

/// What a session hands the pipeline: the passcode that came with the last choice of a device, and
/// the failed join that the next choice is to make good.
pub struct ServerInteract {
    passcode: Option<String>,
    retry: Option<(&'static str, String)>,
    attempt: usize,
}

/// What a session hands the pipeline.
pub struct InteractView {
    pub passcode: Option<Seq<char>>,
    pub retry: Option<(Seq<char>, Seq<char>)>,
    pub attempt: nat,
}

impl View for ServerInteract {
    type V = InteractView;

    closed spec fn view(&self) -> InteractView {
        InteractView {
            passcode: string_of(self.passcode),
            retry: match self.retry {
                Some((error, detail)) => Some((error@, detail@)),
                None => None,
            },
            attempt: self.attempt as nat,
        }
    }
}

/// The 2FA code that the pipeline gets: an empty one, which makes the login fail, where none came.
pub open spec fn code_or_empty(received: Result<Seq<char>, NoInput>) -> Seq<char> {
    match received {
        Ok(code) => code,
        Err(_) => Seq::empty(),
    }
}

/// The step that asks for a device, a first time or again.
pub open spec fn request_for_device(v: InteractView, devices: Seq<DeviceView>) -> StepView {
    match v.retry {
        Some((error, detail)) => StepView::AwaitingRetry {
            devices,
            error,
            detail,
            attempt: v.attempt,
        },
        None => StepView::AwaitingEscrow { devices },
    }
}

/// What a choice leads to: the state after it, and what the pipeline gets. An input that never came
/// aborts the attempt, and an index that is not one of the list is an error; neither leaves a
/// passcode behind.
pub open spec fn chosen(
    v: InteractView,
    received: Result<(nat, Seq<char>), NoInput>,
    devices: nat,
) -> (InteractView, Result<nat, ErrorView>) {
    match received {
        Err(_) => (v, Err(ErrorView::Aborted)),
        Ok((index, passcode)) => if index < devices {
            (InteractView { passcode: Some(passcode), retry: None, ..v }, Ok(index))
        } else {
            (v, Err(bad_index(index, devices)))
        },
    }
}

/// The attempt after this one.
pub open spec fn next_attempt(attempt: nat) -> nat {
    if attempt < usize::MAX {
        attempt + 1
    } else {
        attempt
    }
}

impl ServerInteract {
    /// A session to which nothing has been posted.
    pub fn new() -> (r: ServerInteract)
        ensures
            r@ == (InteractView { passcode: None, retry: None, attempt: 1 }),
    {
        ServerInteract { passcode: None, retry: None, attempt: 1 }
    }

    /// The 2FA code that the pipeline gets, from what came of waiting for it.
    pub fn get_2fa_code(received: Result<String, NoInput>) -> (r: String)
        ensures
            r@ == code_or_empty(
                match received {
                    Ok(code) => Ok(code@),
                    Err(e) => Err(e),
                },
            ),
    {
        match received {
            Ok(code) => code,
            Err(_) => String::new(),
        }
    }

    /// The step to publish before waiting for a device and its passcode.
    pub fn request(&self, devices: &[DeviceInfo]) -> (r: Step)
        ensures
            r@ == request_for_device(self@, device_views(devices@)),
    {
        let devices = clone_devices(devices);
        match &self.retry {
            Some((error, detail)) => Step::AwaitingRetry {
                devices,
                error: *error,
                detail: detail.clone(),
                attempt: self.attempt,
            },
            None => Step::AwaitingEscrow { devices },
        }
    }

    /// Takes in what came of waiting for a device and its passcode: the step to publish, if any,
    /// and the position of the device.
    pub fn choose_bottle(
        &mut self,
        received: Result<(usize, String), NoInput>,
        devices: usize,
    ) -> (r: (Option<Step>, Result<usize, PipelineError>))
        ensures
            ({
                let came = match received {
                    Ok((index, passcode)) => Ok((index as nat, passcode@)),
                    Err(e) => Err(e),
                };
                let result = match r.1 {
                    Ok(index) => Ok(index as nat),
                    Err(e) => Err(e@),
                };
                (final(self)@, result) == chosen(old(self)@, came, devices as nat)
            }),
            match r.0 {
                Some(step) => r.1 is Ok && step@ == StepView::Running,
                None => r.1 is Err,
            },
    {
        match received {
            Err(_) => (None, Err(PipelineError::Aborted)),
            Ok((index, passcode)) => match check_index(index, devices) {
                Ok(i) => {
                    self.passcode = Some(passcode);
                    self.retry = None;
                    (Some(Step::Running), Ok(i))
                },
                Err(e) => (None, Err(e)),
            },
        }
    }

    /// The passcode that came with the last choice. It is handed out once.
    pub fn get_passcode(&mut self) -> (r: Result<String, PipelineError>)
        ensures
            final(self)@ == (InteractView { passcode: None, ..old(self)@ }),
            match r {
                Ok(passcode) => old(self)@.passcode == Some(passcode@),
                Err(e) => old(self)@.passcode is None && e@ == ErrorView::Aborted,
            },
    {
        match self.passcode.take() {
            Some(passcode) => Ok(passcode),
            None => Err(PipelineError::Aborted),
        }
    }

    /// Notes that the join failed for the device that was picked: the next request says so.
    pub fn join_retryable(&mut self, error: &'static str, detail: &str)
        ensures
            final(self)@ == (InteractView {
                retry: Some((error@, detail@)),
                attempt: next_attempt(old(self)@.attempt),
                ..old(self)@
            }),
    {
        self.retry = Some((error, detail.to_string()));
        self.attempt = self.attempt.saturating_add(1);
    }
}

/// What one new session is asked to do. The tag that the pipeline logs is cut from the identifier
/// that the client is handed, so nothing can make the two differ.
pub fn session_opts(
    id: u128,
    apple_id: String,
    password: String,
    anisette_url: &str,
) -> (r: ExportOpts)
    ensures
        r.apple_id == apple_id,
        r.password == password,
        r.anisette_url@ == anisette_url@,
        !r.debug,
        r.session_id@ == hex32(id, false).take(8),
{
    ExportOpts {
        apple_id,
        password,
        anisette_url: anisette_url.to_string(),
        debug: false,
        session_id: tag(id),
    }
}

/// A line of the server's log.
pub open spec fn server_line_text(id: u128, message: Seq<char>) -> Seq<char> {
    "[sess="@ + hex32(id, false).take(8) + "] "@ + message
}

/// A line of the server's log: which session it is about.
pub fn server_line(id: u128, message: &str) -> (r: String)
    ensures
        r@ == server_line_text(id, message@),
{
    let mut line = "[sess=".to_string();
    line.append(tag(id).as_str());
    line.append("] ");
    line.append(message);
    line
}

/// What is logged of a posted 2FA code: its length, never the code itself.
pub open spec fn code_message_text(chars: nat, step: StepView) -> Seq<char> {
    "POST /2fa: code "@ + decimal(chars) + " chars, session at "@ + step.name()
}

/// What is logged of a posted 2FA code.
pub fn code_message(code: &str, step: &Step) -> (r: String)
    ensures
        r@ == code_message_text(code@.len(), step@),
{
    let mut out = "POST /2fa: code ".to_string();
    push_decimal(&mut out, code.unicode_len() as u64);
    out.append(" chars, session at ");
    out.append(step_name(step));
    out
}

/// What is logged of a posted device and passcode: the passcode's length, never the passcode.
pub open spec fn escrow_message_text(index: nat, chars: nat, step: StepView) -> Seq<char> {
    "POST /escrow: device_index="@ + decimal(index) + " passcode "@ + decimal(chars)
        + " chars, session at "@ + step.name()
}

/// What is logged of a posted device and passcode.
pub fn escrow_message(index: usize, passcode: &str, step: &Step) -> (r: String)
    ensures
        r@ == escrow_message_text(index as nat, passcode@.len(), step@),
{
    let mut out = "POST /escrow: device_index=".to_string();
    push_decimal(&mut out, index as u64);
    out.append(" passcode ");
    push_decimal(&mut out, passcode.unicode_len() as u64);
    out.append(" chars, session at ");
    out.append(step_name(step));
    out
}

/// Two posts whose code or passcode differs in its text but not in its number of characters are
/// logged by the same line.
pub proof fn law_submissions_are_logged_by_length(
    id: u128,
    index: nat,
    step: StepView,
    secret: Seq<char>,
    other: Seq<char>,
)
    requires
        secret.len() == other.len(),
    ensures
        server_line_text(id, code_message_text(secret.len(), step)) == server_line_text(
            id,
            code_message_text(other.len(), step),
        ),
        server_line_text(id, escrow_message_text(index, secret.len(), step)) == server_line_text(
            id,
            escrow_message_text(index, other.len(), step),
        ),
{
}

/// What is logged of a post that came at the wrong step.
pub fn rejection_message(path: &str, step: &Step, wanted: &str) -> (r: String)
    ensures
        r@ == "POST "@ + path@ + " rejected: session is at "@ + step@.name() + ", not "@ + wanted@,
{
    let mut out = "POST ".to_string();
    out.append(path);
    out.append(" rejected: session is at ");
    out.append(step_name(step));
    out.append(", not ");
    out.append(wanted);
    out
}

/// The address that the server binds to: loopback, where the environment names none.
pub fn bind_host(from_env: Option<String>) -> (r: String)
    ensures
        r@ == (match from_env {
            Some(host) => host@,
            None => "127.0.0.1"@,
        }),
{
    match from_env {
        Some(host) => host,
        None => "127.0.0.1".to_string(),
    }
}

/// The members of an answer are told apart by their names.
proof fn lemma_member_names()
    ensures
        "error"@.len() == 5 && "error"@[0] == 'e',
        "detail"@.len() == 6,
        "retryable"@.len() == 9,
        "state"@.len() == 5 && "state"@[0] == 's',
        "devices"@.len() == 7 && "devices"@[0] == 'd',
        "session_id"@.len() == 10,
        "beacons"@.len() == 7 && "beacons"@[0] == 'b',
{
    reveal_strlit("error");
    reveal_strlit("detail");
    reveal_strlit("retryable");
    reveal_strlit("state");
    reveal_strlit("devices");
    reveal_strlit("session_id");
    reveal_strlit("beacons");
}

/// The tag that the log lines of a session carry is a prefix of the identifier that its client is
/// handed; a failed start hands out no identifier, and its session is not kept.
pub proof fn law_the_client_can_find_its_lines(id: u128, first: Option<StepView>)
    ensures
        ({
            let (keep, reply) = start_reply(id, first);
            &&& keep <==> reply.status == 201
            &&& keep <==> reply.body.contains_key("session_id"@)
            &&& keep ==> match reply.body["session_id"@] {
                Member::Text(text) => hex32(id, false).take(8).is_prefix_of(text),
                _ => false,
            }
        }),
{
    lemma_member_names();
    law_tag_is_a_prefix_of_the_session_id(id);
}

/// A login is answered with 401 exactly where Apple judged the credentials, and with 502 where it
/// never did; what the user is told is the verdict on the failure.
pub proof fn law_failed_login_is_answered_by_its_cause(id: u128, kind: AuthFailure, text: Seq<char>)
    ensures
        ({
            let verdict = login_verdict(kind, text);
            let (keep, reply) = start_reply(id, Some(last_step(Some(Err(verdict)))));
            &&& !keep
            &&& reply.status == (if credentials_judged(kind) {
                401u16
            } else {
                502
            })
            &&& reply.body["error"@] == Member::Text(verdict.code())
            &&& reply.body["detail"@] == Member::Text(verdict.message())
        }),
{
    lemma_member_names();
    law_status_of_each_error(login_verdict(kind, text));
}

/// A join that failed for good is answered by its cause, and the session is retired: 409 for a
/// failed signature check, 502 for a failure past the passcode check, 400 for a wrong passcode.
/// None of these answers asks for another device.
pub proof fn law_failed_join_is_answered_by_its_cause(failure: JoinFailureView, devices: nat)
    ensures
        ({
            let verdict = join_verdict(failure, devices);
            let outcome = after_escrow(Some(last_step(Some(Err(verdict)))));
            &&& outcome.fate == Fate::Retire
            &&& outcome.reply.status == (if failure.bad_msg {
                409u16
            } else if failure.is_club() {
                502
            } else {
                400
            })
            &&& outcome.reply.body["error"@] == Member::Text(verdict.code())
            &&& outcome.reply.body["detail"@] == Member::Text(verdict.message())
            &&& !outcome.reply.body.contains_key("retryable"@)
        }),
{
    lemma_member_names();
    law_status_of_each_error(join_verdict(failure, devices));
}

/// A failed signature check that another device can get past is answered with 409 as well, but the
/// session stays live: the answer says so, and offers the devices again.
pub proof fn law_retryable_join_keeps_the_session(
    devices: Seq<DeviceView>,
    detail: Seq<char>,
    attempt: nat,
)
    ensures
        ({
            let step = StepView::AwaitingRetry {
                devices,
                error: TRUST_CIRCLE_SIGNATURE@,
                detail,
                attempt,
            };
            let outcome = after_escrow(Some(step));
            let body = outcome.reply.body;
            &&& outcome.fate == Fate::Keep
            &&& outcome.reply.status == 409
            &&& body["error"@] == Member::Text(TRUST_CIRCLE_SIGNATURE@)
            &&& body["detail"@] == Member::Text(detail)
            &&& body["retryable"@] == Member::Flag(true)
            &&& body["state"@] == Member::Text("awaiting_passcode"@)
            &&& body["devices"@] == devices_member(devices)
            &&& step.takes_escrow()
        }),
{
    lemma_member_names();
    law_status_of_each_error(ErrorView::TrustCircleSignature(detail));
}

/// The passcode that was posted with a device is the one that the pipeline gets for it, and a
/// choice that was refused leaves none behind.
pub proof fn law_the_posted_passcode_is_used(
    v: InteractView,
    received: Result<(nat, Seq<char>), NoInput>,
    devices: nat,
)
    ensures
        ({
            let (after, result) = chosen(v, received, devices);
            &&& result is Ok <==> received is Ok && received->Ok_0.0 < devices
            &&& result is Ok ==> after.passcode == Some(received->Ok_0.1) && result->Ok_0
                == received->Ok_0.0
            &&& result is Err ==> after == v
            &&& received is Err ==> result == Err::<nat, ErrorView>(ErrorView::Aborted)
        }),
{
}

/// A post is settled by the next request for a device, and not by the one that it answers: so each
/// post gets an answer of its own. The request is the first one, or one that follows on a failed
/// join.
pub proof fn law_each_post_is_answered_once(
    v: InteractView,
    devices: Seq<DeviceView>,
    index: nat,
    passcode: Seq<char>,
    error: Seq<char>,
    detail: Seq<char>,
)
    requires
        index < devices.len(),
        1 <= v.attempt < usize::MAX,
        v.retry is None ==> v.attempt == 1,
    ensures
        ({
            let posted = request_for_device(v, devices).attempt();
            let taken = chosen(v, Ok((index, passcode)), devices.len()).0;
            let noted = InteractView {
                retry: Some((error, detail)),
                attempt: next_attempt(taken.attempt),
                ..taken
            };
            &&& !settled(request_for_device(v, devices), posted)
            &&& !settled(StepView::Running, posted)
            &&& settled(request_for_device(noted, devices), posted)
            &&& request_for_device(noted, devices).attempt() == posted + 1
        }),
{
}

/// The members of a device and of an accessory are told apart by their names.
proof fn lemma_object_names()
    ensures
        "serial"@.len() == 6,
        "name"@.len() == 4,
        "model"@.len() == 5 && "model"@[0] == 'm',
        "identifier"@.len() == 10 && "identifier"@[0] == 'i',
        "emoji"@.len() == 5 && "emoji"@[0] == 'e',
        "private_key"@.len() == 11,
        "shared_secret"@.len() == 13,
        "secondary_shared_secret"@.len() == 23,
        "secure_locations_shared_secret"@.len() == 30,
        "public_key"@.len() == 10 && "public_key"@[0] == 'p',
        "pairing_date"@.len() == 12,
{
    reveal_strlit("serial");
    reveal_strlit("name");
    reveal_strlit("model");
    reveal_strlit("identifier");
    reveal_strlit("emoji");
    reveal_strlit("private_key");
    reveal_strlit("shared_secret");
    reveal_strlit("secondary_shared_secret");
    reveal_strlit("secure_locations_shared_secret");
    reveal_strlit("public_key");
    reveal_strlit("pairing_date");
}

/// A step is seen as what it is, with all that it carries.
pub proof fn law_a_step_is_seen_in_full(step: Step)
    ensures
        match step {
            Step::Starting => step@ is Starting,
            Step::AwaitingTfa => step@ is AwaitingTfa,
            Step::AwaitingEscrow { devices } => step@ == (StepView::AwaitingEscrow {
                devices: device_views(devices@),
            }),
            Step::AwaitingRetry { devices, error, detail, attempt } => step@ == (
            StepView::AwaitingRetry {
                devices: device_views(devices@),
                error: error@,
                detail: detail@,
                attempt: attempt as nat,
            }),
            Step::Running => step@ is Running,
            Step::Done { beacons } => step@ == (StepView::Done { beacons: beacon_views(beacons@) }),
            Step::Failed { error, detail } => step@ == (StepView::Failed {
                error: error@,
                detail: detail@,
            }),
        },
        step_view(Some(step)) == Some(step@),
        step_view(None) is None,
{
}

/// Whether an array of an answer holds the devices: as many as there are, each at its own place
/// with its own serial, name and model, and nothing more.
pub open spec fn lists_devices(member: Member, devices: Seq<DeviceView>) -> bool {
    match member {
        Member::Objects(objects) => {
            &&& objects.len() == devices.len()
            &&& forall|i: int|
                0 <= i < devices.len() ==> {
                    let o = #[trigger] objects[i];
                    &&& o.contains_key("serial"@) && o["serial"@] == Member::Text(devices[i].serial)
                    &&& o.contains_key("name"@) && o["name"@] == Member::Text(devices[i].name)
                    &&& o.contains_key("model"@) && o["model"@] == Member::Text(devices[i].model)
                    &&& o.dom() == set!["serial"@, "name"@, "model"@]
                }
        },
        _ => false,
    }
}

/// Whether a member is the Base64 text of some bytes, or `null` where there are none.
pub open spec fn shows_key(object: Members, name: Seq<char>, bytes: Option<Seq<u8>>) -> bool {
    &&& object.contains_key(name)
    &&& match bytes {
        Some(b) => object[name] == Member::Text(base64_text(b)),
        None => object[name] == Member::Null,
    }
}

/// Whether a member is a text.
pub open spec fn shows_text(object: Members, name: Seq<char>, text: Seq<char>) -> bool {
    object.contains_key(name) && object[name] == Member::Text(text)
}

/// Whether an array of an answer holds the accessories: as many as there are, each at its own place
/// with its own names and its own key material in Base64.
pub open spec fn lists_beacons(member: Member, beacons: Seq<BeaconView>) -> bool {
    match member {
        Member::Objects(objects) => {
            &&& objects.len() == beacons.len()
            &&& forall|i: int|
                0 <= i < beacons.len() ==> {
                    let o = #[trigger] objects[i];
                    let b = beacons[i];
                    &&& shows_text(o, "identifier"@, b.identifier)
                    &&& shows_text(o, "name"@, b.name)
                    &&& shows_text(o, "emoji"@, b.emoji)
                    &&& shows_text(o, "model"@, b.model)
                    &&& shows_key(o, "private_key"@, Some(b.private_key))
                    &&& shows_key(o, "shared_secret"@, Some(b.shared_secret))
                    &&& shows_key(o, "secondary_shared_secret"@, b.secondary_shared_secret)
                    &&& shows_key(
                        o,
                        "secure_locations_shared_secret"@,
                        b.secure_locations_shared_secret,
                    )
                    &&& shows_key(o, "public_key"@, b.public_key)
                    &&& o.contains_key("pairing_date"@) && o["pairing_date"@] == (
                    match b.pairing_date {
                        Some(text) => Member::Text(text),
                        None => Member::Null,
                    })
                    &&& o.dom() == set![
                        "identifier"@,
                        "name"@,
                        "emoji"@,
                        "model"@,
                        "private_key"@,
                        "shared_secret"@,
                        "secondary_shared_secret"@,
                        "secure_locations_shared_secret"@,
                        "public_key"@,
                        "pairing_date"@,
                    ]
                }
        },
        _ => false,
    }
}

proof fn lemma_lists_devices(devices: Seq<DeviceView>)
    ensures
        lists_devices(devices_member(devices), devices),
{
    lemma_object_names();
    let objects = devices_member(devices)->Objects_0;
    assert forall|i: int| 0 <= i < devices.len() implies (#[trigger] objects[i]).dom()
        == set!["serial"@, "name"@, "model"@] by {
        assert(objects[i] == device_members(devices[i]));
        assert(objects[i].dom() =~= set!["serial"@, "name"@, "model"@]);
    }
}

proof fn lemma_lists_beacons(beacons: Seq<BeaconView>)
    ensures
        lists_beacons(beacons_member(beacons), beacons),
{
    lemma_object_names();
    let objects = beacons_member(beacons)->Objects_0;
    assert forall|i: int| 0 <= i < beacons.len() implies {
        let o = #[trigger] objects[i];
        let b = beacons[i];
        &&& shows_text(o, "identifier"@, b.identifier)
        &&& shows_text(o, "name"@, b.name)
        &&& shows_text(o, "emoji"@, b.emoji)
        &&& shows_text(o, "model"@, b.model)
        &&& shows_key(o, "private_key"@, Some(b.private_key))
        &&& shows_key(o, "shared_secret"@, Some(b.shared_secret))
        &&& shows_key(o, "secondary_shared_secret"@, b.secondary_shared_secret)
        &&& shows_key(o, "secure_locations_shared_secret"@, b.secure_locations_shared_secret)
        &&& shows_key(o, "public_key"@, b.public_key)
    } by {
        assert(objects[i] == beacon_members(beacons[i]));
    }
    assert forall|i: int| 0 <= i < beacons.len() implies (#[trigger] objects[i]).dom() == set![
        "identifier"@,
        "name"@,
        "emoji"@,
        "model"@,
        "private_key"@,
        "shared_secret"@,
        "secondary_shared_secret"@,
        "secure_locations_shared_secret"@,
        "public_key"@,
        "pairing_date"@,
    ] by {
        assert(objects[i] == beacon_members(beacons[i]));
        assert(objects[i].dom() =~= set![
            "identifier"@,
            "name"@,
            "emoji"@,
            "model"@,
            "private_key"@,
            "shared_secret"@,
            "secondary_shared_secret"@,
            "secure_locations_shared_secret"@,
            "public_key"@,
            "pairing_date"@,
        ]);
    }
}

/// A finished export is answered with every accessory: the array has one object for each, and the
/// object at each place holds the identifier, the names and the key material of that accessory.
pub proof fn law_every_beacon_is_returned(beacons: Seq<BeaconView>)
    ensures
        ({
            let outcome = after_escrow(Some(StepView::Done { beacons }));
            let body = outcome.reply.body;
            &&& outcome.reply.status == 200
            &&& outcome.fate == Fate::Remove
            &&& body.dom() == set!["state"@, "beacons"@]
            &&& shows_text(body, "state"@, "done"@)
            &&& lists_beacons(body["beacons"@], beacons)
        }),
{
    lemma_member_names();
    lemma_lists_beacons(beacons);
    let body = after_escrow(Some(StepView::Done { beacons })).reply.body;
    assert(body.dom() =~= set!["state"@, "beacons"@]);
}

/// Wherever the user is to pick a device the answer lists every one of them, at the place by which
/// it is picked: after a login without 2FA, after a 2FA code, and after a failed signature check.
pub proof fn law_every_device_is_listed(
    id: u128,
    devices: Seq<DeviceView>,
    error: Seq<char>,
    detail: Seq<char>,
    attempt: nat,
)
    ensures
        ({
            let (keep, reply) = start_reply(id, Some(StepView::AwaitingEscrow { devices }));
            &&& keep && reply.status == 201
            &&& reply.body.dom() == set!["session_id"@, "state"@, "devices"@]
            &&& shows_text(reply.body, "session_id"@, hyphenated(id, false))
            &&& shows_text(reply.body, "state"@, "awaiting_passcode"@)
            &&& lists_devices(reply.body["devices"@], devices)
        }),
        ({
            let (keep, reply) = start_reply(id, Some(StepView::AwaitingTfa));
            &&& keep && reply.status == 201
            &&& reply.body.dom() == set!["session_id"@, "state"@]
            &&& shows_text(reply.body, "session_id"@, hyphenated(id, false))
            &&& shows_text(reply.body, "state"@, "awaiting_2fa"@)
        }),
        ({
            let outcome = after_2fa(Some(StepView::AwaitingEscrow { devices }));
            let body = outcome.reply.body;
            &&& outcome.fate == Fate::Keep && outcome.reply.status == 200
            &&& body.dom() == set!["state"@, "devices"@]
            &&& shows_text(body, "state"@, "awaiting_passcode"@)
            &&& lists_devices(body["devices"@], devices)
        }),
        ({
            let step = StepView::AwaitingRetry { devices, error, detail, attempt };
            let outcome = after_escrow(Some(step));
            let body = outcome.reply.body;
            &&& outcome.fate == Fate::Keep && outcome.reply.status == status_of(error)
            &&& body.dom() == set!["error"@, "detail"@, "retryable"@, "state"@, "devices"@]
            &&& shows_text(body, "error"@, error)
            &&& shows_text(body, "detail"@, detail)
            &&& body["retryable"@] == Member::Flag(true)
            &&& shows_text(body, "state"@, "awaiting_passcode"@)
            &&& lists_devices(body["devices"@], devices)
        }),
{
    lemma_member_names();
    lemma_lists_devices(devices);
    let a = start_reply(id, Some(StepView::AwaitingEscrow { devices })).1.body;
    assert(a.dom() =~= set!["session_id"@, "state"@, "devices"@]);
    let b = start_reply(id, Some(StepView::AwaitingTfa)).1.body;
    assert(b.dom() =~= set!["session_id"@, "state"@]);
    let c = after_2fa(Some(StepView::AwaitingEscrow { devices })).reply.body;
    assert(c.dom() =~= set!["state"@, "devices"@]);
    let step = StepView::AwaitingRetry { devices, error, detail, attempt };
    let d = after_escrow(Some(step)).reply.body;
    assert(d.dom() =~= set!["error"@, "detail"@, "retryable"@, "state"@, "devices"@]);
}

/// Whether an answer is that of an error: its code and its detail, both whole, and nothing more.
pub open spec fn tells_error(reply: ReplyView, code: Seq<char>, detail: Seq<char>) -> bool {
    &&& reply.body.dom() == set!["error"@, "detail"@]
    &&& shows_text(reply.body, "error"@, code)
    &&& shows_text(reply.body, "detail"@, detail)
}

/// A pipeline that failed is answered with the code and the words of its failure, whichever
/// request waits for it, and its session ends; a wait that ran out is answered as a failure of
/// Apple's, and the pipeline is stopped.
pub proof fn law_failures_are_told_to_whoever_waits(
    id: u128,
    error: Seq<char>,
    detail: Seq<char>,
    other: Option<StepView>,
)
    ensures
        ({
            let failed = Some(StepView::Failed { error, detail });
            &&& !start_reply(id, failed).0
            &&& tells_error(start_reply(id, failed).1, error, detail)
            &&& start_reply(id, failed).1.status == status_of(error)
            &&& tells_error(after_2fa(failed).reply, error, detail)
            &&& after_2fa(failed).reply.status == status_of(error)
            &&& after_2fa(failed).fate == Fate::Retire
            &&& tells_error(after_escrow(failed).reply, error, detail)
            &&& after_escrow(failed).reply.status == status_of(error)
            &&& after_escrow(failed).fate == Fate::Retire
        }),
        ({
            let s = other->0;
            let start = other is None || s is Starting || s is AwaitingRetry || s is Running
                || s is Done;
            let code = other is None || s is Starting || s is AwaitingTfa || s is AwaitingRetry
                || s is Running || s is Done;
            let escrow = other is None || s is Starting || s is AwaitingTfa || s is AwaitingEscrow
                || s is Running;
            &&& start ==> !start_reply(id, other).0 && start_reply(id, other).1.status == 502
                && tells_error(
                start_reply(id, other).1,
                "apple_error"@,
                "Timed out contacting Apple."@,
            )
            &&& code ==> after_2fa(other).fate == Fate::Abort && after_2fa(other).reply.status
                == 502 && tells_error(
                after_2fa(other).reply,
                "apple_error"@,
                "Timed out waiting for Apple."@,
            )
            &&& escrow ==> after_escrow(other).fate == Fate::Abort && after_escrow(
                other,
            ).reply.status == 502 && tells_error(
                after_escrow(other).reply,
                "apple_error"@,
                "Timed out waiting for Apple."@,
            )
        }),
        tells_error(
            wrong_step_reply(),
            "wrong_step"@,
            "This connection isn't ready for that step — start over."@,
        ),
        wrong_step_reply().status == 409,
        tells_error(error_reply(error, detail), error, detail),
        error_reply(error, detail).status == status_of(error),
{
    lemma_member_names();
    law_status_of_each_error(ErrorView::Apple(detail));
    assert(error_members(error, detail).dom() =~= set!["error"@, "detail"@]);
    let late = "Timed out contacting Apple."@;
    assert(error_members("apple_error"@, late).dom() =~= set!["error"@, "detail"@]);
    let slow = "Timed out waiting for Apple."@;
    assert(error_members("apple_error"@, slow).dom() =~= set!["error"@, "detail"@]);
    let wrong = "This connection isn't ready for that step — start over."@;
    assert(error_members("wrong_step"@, wrong).dom() =~= set!["error"@, "detail"@]);
}

/// A code that is none of those that the client can mend, or that name a lapsed session, is a
/// failure upstream.
pub proof fn law_any_other_code_is_a_bad_gateway(code: Seq<char>)
    ensures
        code != "bad_credentials"@ && code != "bad_passcode"@ && code != "bad_device_index"@ && code
            != "no_bottles"@ && code != "session_not_found"@ && code != "session_expired"@ && code
            != "trust_circle_signature"@ ==> status_of(code) == 502,
{
}

/// A pipeline that came to its end leaves all of its accessories, or its failure as it is; one that
/// was lost leaves a failure without details.
pub proof fn law_the_last_step_keeps_the_result(
    beacons: Vec<BeaconExport>,
    e: PipelineError,
    i: int,
)
    ensures
        ({
            let done = last_step(result_view(Some(Ok(beacons))));
            &&& done matches StepView::Done { beacons: seen } && {
                &&& seen.len() == beacons@.len()
                &&& 0 <= i < beacons@.len() ==> seen[i] == beacons@[i]@
            }
        }),
        last_step(result_view(Some(Err(e)))) == (StepView::Failed {
            error: e@.code(),
            detail: e@.message(),
        }),
        last_step(result_view(None)) == (StepView::Failed {
            error: "apple_error"@,
            detail: "The export failed unexpectedly."@,
        }),
{
}

/// What is handed to the pipeline is what was posted: the 2FA code whole, or an empty one where
/// none came; and a device with the passcode that came with it. Only a choice out of the list is
/// taken; it clears the note of the failed join. Anything else leaves the session as it was.
pub proof fn law_posts_reach_the_pipeline(
    v: InteractView,
    code: Seq<char>,
    why: NoInput,
    index: nat,
    passcode: Seq<char>,
    devices: nat,
)
    ensures
        code_or_empty(Ok(code)) == code,
        code_or_empty(Err(why)).len() == 0,
        index < devices ==> chosen(v, Ok((index, passcode)), devices) == (
            InteractView { passcode: Some(passcode), retry: None, attempt: v.attempt },
            Ok::<nat, ErrorView>(index),
        ),
        index >= devices ==> chosen(v, Ok((index, passcode)), devices).0 == v && chosen(
            v,
            Ok((index, passcode)),
            devices,
        ).1 == Err::<nat, ErrorView>(bad_index(index, devices)),
        chosen(v, Err(why), devices) == (v, Err::<nat, ErrorView>(ErrorView::Aborted)),
{
}

/// The request for a device offers every device; after a failed join it says why, and counts the
/// attempts. The name of a step is the one that the API reports, and a device can be posted where
/// one is asked for, a first time or again.
pub proof fn law_requests_offer_every_device(v: InteractView, devices: Seq<DeviceView>)
    ensures
        v.retry is None ==> request_for_device(v, devices) == (StepView::AwaitingEscrow {
            devices,
        }),
        v.retry matches Some(why) ==> request_for_device(v, devices) == (StepView::AwaitingRetry {
            devices,
            error: why.0,
            detail: why.1,
            attempt: v.attempt,
        }),
        request_for_device(v, devices).takes_escrow(),
        request_for_device(v, devices).name() == "awaiting_passcode"@,
        v.attempt < usize::MAX ==> next_attempt(v.attempt) == v.attempt + 1,
        v.attempt >= usize::MAX ==> next_attempt(v.attempt) == v.attempt,
{
}

/// A device can be posted exactly where one is asked for, a first time or again; a first post is
/// the first attempt, and a later one the attempt that was asked for. A post is settled by the end,
/// or by a request for a later attempt, and by nothing else.
pub proof fn law_what_a_step_waits_for(s: StepView, posted: nat)
    ensures
        s.takes_escrow() <==> s is AwaitingEscrow || s is AwaitingRetry,
        !(s is AwaitingRetry) ==> s.attempt() == 1,
        s is AwaitingRetry ==> s.attempt() == s->attempt,
        settled(s, posted) <==> s is Done || s is Failed || (s is AwaitingRetry && s->attempt
            > posted),
        s.name() == (match s {
            StepView::Starting => "starting"@,
            StepView::AwaitingTfa => "awaiting_2fa"@,
            StepView::AwaitingEscrow { .. } | StepView::AwaitingRetry { .. } =>
                "awaiting_passcode"@,
            StepView::Running => "running"@,
            StepView::Done { .. } => "done"@,
            StepView::Failed { .. } => "failed"@,
        }),
{
}

/// Whether what a step hands out can be written goes by the lengths of the key material alone, of
/// every accessory.
pub proof fn law_what_can_be_written(s: StepView)
    ensures
        s.fits() <==> (s matches StepView::Done { beacons } ==> forall|i: int|
            0 <= i < beacons.len() ==> {
                let b = #[trigger] beacons[i];
                &&& base64_fits(b.private_key.len())
                &&& base64_fits(b.shared_secret.len())
                &&& b.secondary_shared_secret matches Some(v) ==> base64_fits(v.len())
                &&& b.secure_locations_shared_secret matches Some(v) ==> base64_fits(v.len())
                &&& b.public_key matches Some(v) ==> base64_fits(v.len())
            }),
{
    if let StepView::Done { beacons } = s {
        assert(all_fit(beacons) <==> forall|i: int|
            0 <= i < beacons.len() ==> beacon_fits(#[trigger] beacons[i]));
        assert forall|i: int| 0 <= i < beacons.len() implies (beacon_fits(#[trigger] beacons[i])
            <==> {
            let b = beacons[i];
            &&& base64_fits(b.private_key.len())
            &&& base64_fits(b.shared_secret.len())
            &&& b.secondary_shared_secret matches Some(v) ==> base64_fits(v.len())
            &&& b.secure_locations_shared_secret matches Some(v) ==> base64_fits(v.len())
            &&& b.public_key matches Some(v) ==> base64_fits(v.len())
        }) by {}
    }
}

/// The lines of the server's log hold the tag and the message whole; what is said of an input that
/// never came, or of a task that was lost, names its cause, and the task's own words whole.
pub proof fn law_server_lines_hold_their_parts(
    id: u128,
    message: Seq<char>,
    chars: nat,
    index: nat,
    step: StepView,
)
    ensures
        server_line_text(id, message) == "[sess="@ + hex32(id, false).subrange(0, 8) + "] "@
            + message,
        code_message_text(chars, step) == "POST /2fa: code "@ + decimal(chars)
            + " chars, session at "@ + step.name(),
        escrow_message_text(index, chars, step) == "POST /escrow: device_index="@ + decimal(index)
            + " passcode "@ + decimal(chars) + " chars, session at "@ + step.name(),
        join_failure_text(true, message) == "cancelled ("@ + message + ")"@,
        join_failure_text(false, message) == "panicked ("@ + message + ")"@,
        no_input_text(NoInput::Timeout) == "nothing submitted within "@ + decimal(600) + "s"@,
        no_input_text(NoInput::Disconnected) == "the session was torn down while waiting"@,
{
    assert(hex32(id, false).subrange(0, 8) =~= hex32(id, false).take(8));
}

/// How long each thing may take, in seconds: an input ten minutes, and a session as long; a step of
/// the login three minutes, and the join with the sync fifteen, which is longer than a session may
/// idle. Idle sessions are looked for every minute.
pub proof fn law_time_limits()
    ensures
        INPUT_TIMEOUT == 600,
        SESSION_TTL == 600,
        START_TIMEOUT == 180,
        EXPORT_TIMEOUT == 900,
        REAP_PERIOD == 60,
{
}

/// An answer is seen with its status and its body, and an outcome with its answer and what becomes
/// of the session.
pub proof fn law_an_answer_is_seen_in_full(outcome: Outcome)
    ensures
        outcome@.reply.status == outcome.reply.status,
        outcome@.reply.body == members(outcome.reply.body),
        outcome@.reply == outcome.reply@,
        outcome@.fate == outcome.fate,
{
}

} // verus!
